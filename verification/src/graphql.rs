//! The decisions of the GraphQL API's resolvers: which date a request
//! names, which week it asks about, and what each answers in words.

use vstd::prelude::*;

use crate::data_svc::iso_date_parse;
use crate::date::{Date, Weekday};
use crate::time_utils::{get_week_dates, invalid_weekday_message, parse_weekday, weekday_named};

verus! {

/// What a request with a malformed date is answered.
pub open spec fn invalid_date_message() -> Seq<char> {
    "Invalid date format, expected YYYY-MM-DD"@
}

/// The root of the API's queries.
#[derive(Clone, Copy, Debug)]
pub struct Query;

/// The root of the API's mutations.
#[derive(Clone, Copy, Debug)]
pub struct Mutation;

impl Query {
    /// The answer of the `test` query.
    pub fn test() -> (s: String)
        ensures
            s@ == "Hello, GraphQL!"@,
    {
        String::from_str("Hello, GraphQL!")
    }

    /// The date a request names as `YYYY-MM-DD`, or the message a malformed
    /// one is answered with.
    pub fn request_date(date: &str) -> (r: Result<Date, String>)
        ensures
            match iso_date_parse(date@) {
                Some(j) => r matches Ok(d) && d.julian_day_spec() == j,
                None => r matches Err(m) && m@ == invalid_date_message(),
            },
    {
        match crate::data_svc::parse_request_date(date) {
            Some(d) => Ok(d),
            None => {
                proof {
                    reveal_strlit("Invalid date format, expected YYYY-MM-DD");
                }
                Err(String::from_str("Invalid date format, expected YYYY-MM-DD"))
            },
        }
    }

    /// The week a `weekDataForDate` request asks about: the seven dates of
    /// the week holding the requested date, starting on the requested day,
    /// else the configured one, else Saturday. A malformed date or an
    /// unknown day name is answered with its message, and so is a week
    /// that would run past the range of dates there are.
    pub fn request_week(date: &str, week_start_day: Option<String>, configured: Option<String>) -> (r: Result<[Date; 7], String>)
        ensures
            ({
                let name: Seq<char> = match week_start_day {
                    Some(w) => w@,
                    None => match configured {
                        Some(c) => c@,
                        None => "Saturday"@,
                    },
                };
                match iso_date_parse(date@) {
                    None => r matches Err(m) && m@ == invalid_date_message(),
                    Some(j) => match weekday_named(name) {
                        None => r matches Err(m) && m@ == "Invalid week start day: "@ + invalid_weekday_message(name),
                        Some(start) => if week_in_range_at(j, start) {
                            r matches Ok(week) && week@[0].weekday_spec() == start
                                && week@[week_offset(j, start)].julian_day_spec() == j
                                && forall|k: int| 0 <= k < 7 ==> #[trigger] week@[k].julian_day_spec() == j - week_offset(j, start) + k
                        } else {
                            r matches Err(m) && m@ == "Date out of range"@
                        },
                    },
                }
            }),
    {
        let d = match Query::request_date(date) {
            Ok(d) => d,
            Err(m) => return Err(m),
        };
        let name = match week_start_day {
            Some(w) => w,
            None => match configured {
                Some(c) => c,
                None => {
                    proof {
                        reveal_strlit("Saturday");
                    }
                    String::from_str("Saturday")
                },
            },
        };
        match parse_weekday(name.as_str()) {
            Ok(start) => {
                if !crate::time_utils::week_fits(&d, start) {
                    proof {
                        reveal_strlit("Date out of range");
                    }
                    return Err(String::from_str("Date out of range"));
                }
                Ok(get_week_dates(&d, start))
            },
            Err(e) => {
                let mut m = String::from_str("Invalid week start day: ");
                let msg = e.message();
                m.append(msg.as_str());
                Err(m)
            },
        }
    }
}

/// Days the Julian day `j` lies after the start of its week.
pub open spec fn week_offset(j: int, start: Weekday) -> int {
    (crate::date::julian_weekday(j).index() - start.index() + 7) % 7
}

/// The week holding the Julian day `j` lies in the range of dates there are.
pub open spec fn week_in_range_at(j: int, start: Weekday) -> bool {
    &&& crate::date::MIN_JULIAN_DAY <= j - week_offset(j, start)
    &&& j - week_offset(j, start) + 6 <= crate::date::MAX_JULIAN_DAY
}

impl Mutation {
    /// The answer of the `testMutation` mutation.
    pub fn test_mutation() -> (s: String)
        ensures
            s@ == "Hello from Mutation!"@,
    {
        String::from_str("Hello from Mutation!")
    }

    /// What a successful `updateFileContent` for `date` answers.
    pub fn updated_message(date: &Date) -> (s: String)
        ensures
            s@ == "Successfully updated file for date "@ + date.iso_spec(),
    {
        let mut s = String::from_str("Successfully updated file for date ");
        let iso = date.iso_string();
        s.append(iso.as_str());
        s
    }
}

} // verus!
