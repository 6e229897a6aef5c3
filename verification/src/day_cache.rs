//! The data service's per-date cache of day files: their raw content, the
//! parse memoized beside it, and the rule that decides when an entry may
//! still be served.

use vstd::prelude::*;

use crate::date::Date;
use crate::day::TimeTrackingData;
use std::collections::HashMap;

verus! {

/// A point in time as seconds and nanoseconds since the Unix epoch (the
/// seconds negative before it).
#[derive(Clone, Copy, Debug, PartialEq, Eq, Structural)]
pub struct Stamp {
    pub secs: i64,
    pub nanos: u32,
}

impl Stamp {
    /// The nanoseconds are a fraction of a second.
    pub open spec fn wf(self) -> bool {
        self.nanos < 1_000_000_000
    }

    /// Nanoseconds since the epoch.
    pub open spec fn total(self) -> int {
        self.secs * 1_000_000_000 + self.nanos
    }
}

/// What the cache keeps for one date.
#[derive(Debug)]
pub struct CacheEntry {
    /// The raw file content.
    pub data: Option<String>,
    /// The parse of that content, memoized beside it.
    pub parsed: Option<TimeTrackingData>,
    /// The file's modification time when it was cached.
    pub file_mod_time: Option<Stamp>,
    /// When the entry was cached.
    pub cached_at: Stamp,
}

/// An entry cached at `cached_at` may be served at `now` for a file last
/// modified at `file_mod_time`: less than `timeout` whole seconds have
/// passed since it was cached, and the file's modification time is known
/// and the same as when it was cached (not merely no later: a restored
/// backup moves it backwards).
pub open spec fn entry_valid(e: CacheEntry, now: Stamp, file_mod_time: Option<Stamp>, timeout: u64) -> bool {
    &&& now.total() >= e.cached_at.total()
    &&& (now.total() - e.cached_at.total()) / 1_000_000_000 < timeout
    &&& file_mod_time is Some
    &&& e.file_mod_time == file_mod_time
}

/// The entry a fresh read of `content` leaves.
pub open spec fn content_entry(content: String, file_mod_time: Option<Stamp>, now: Stamp) -> CacheEntry {
    CacheEntry { data: Some(content), parsed: None, file_mod_time, cached_at: now }
}

/// The cached days of a data service, keyed by Julian day.
pub struct DayCache {
    entries: HashMap<i32, CacheEntry>,
    timeout: u64,
}

impl DayCache {
    /// The cached entry of each Julian day.
    pub closed spec fn view(&self) -> Map<int, CacheEntry> {
        Map::new(
            |j: int| i32::MIN <= j <= i32::MAX && self.entries@.contains_key(j as i32),
            |j: int| self.entries@[j as i32],
        )
    }

    /// Whole seconds an entry may be served for.
    pub closed spec fn timeout_spec(&self) -> u64 {
        self.timeout
    }

    /// An empty cache whose entries are served for `timeout_seconds`.
    pub fn new(timeout_seconds: u64) -> (c: DayCache)
        ensures
            c.view() == Map::<int, CacheEntry>::empty(),
            c.timeout_spec() == timeout_seconds,
    {
        let c = DayCache { entries: HashMap::new(), timeout: timeout_seconds };
        assert(c.view() =~= Map::<int, CacheEntry>::empty());
        c
    }

    /// Whole seconds an entry may be served for.
    pub fn timeout(&self) -> (t: u64)
        ensures
            t == self.timeout_spec(),
    {
        self.timeout
    }

    /// Forget `date`: called when its file is known to have been edited.
    pub fn invalidate_date(&mut self, date: &Date)
        ensures
            final(self).view() == old(self).view().remove(date.julian_day_spec()),
            final(self).timeout_spec() == old(self).timeout_spec(),
    {
        let j = date.julian_day();
        let ghost before = self.view();
        let _ = self.entries.remove(&j);
        assert(self.view() =~= before.remove(j as int));
    }

    /// Forget every date.
    pub fn clear_cache(&mut self)
        ensures
            final(self).view() == Map::<int, CacheEntry>::empty(),
            final(self).timeout_spec() == old(self).timeout_spec(),
    {
        self.entries.clear();
        assert(self.view() =~= Map::<int, CacheEntry>::empty());
    }

    /// The entry of `date` if it may still be served at `now` for a file
    /// last modified at `file_mod_time` (see [`entry_valid`]).
    pub fn get_valid_entry(&self, date: &Date, now: Stamp, file_mod_time: Option<Stamp>) -> (r: Option<&CacheEntry>)
        requires
            now.wf(),
        ensures
            match r {
                Some(e) => self.view().contains_key(date.julian_day_spec())
                    && *e == self.view()[date.julian_day_spec()]
                    && entry_valid(*e, now, file_mod_time, self.timeout_spec()),
                None => !self.view().contains_key(date.julian_day_spec())
                    || !entry_valid(self.view()[date.julian_day_spec()], now, file_mod_time, self.timeout_spec()),
            },
    {
        let j = date.julian_day();
        match self.entries.get(&j) {
            None => None,
            Some(e) => {
                if entry_is_valid(e, now, file_mod_time, self.timeout) {
                    Some(e)
                } else {
                    None
                }
            },
        }
    }

    /// The cached content of `date`, if its entry may still be served.
    pub fn get_cached_content(&self, date: &Date, now: Stamp, file_mod_time: Option<Stamp>) -> (r: Option<&String>)
        requires
            now.wf(),
        ensures
            match r {
                Some(c) => served_content(self.view(), date.julian_day_spec(), now, file_mod_time, self.timeout_spec()) == Some(*c),
                None => served_content(self.view(), date.julian_day_spec(), now, file_mod_time, self.timeout_spec()) is None,
            },
    {
        match self.get_valid_entry(date, now, file_mod_time) {
            Some(e) => match &e.data {
                Some(d) => Some(d),
                None => None,
            },
            None => None,
        }
    }

    /// The cached parse of `date`, if its entry may still be served.
    pub fn get_cached_parsed(&self, date: &Date, now: Stamp, file_mod_time: Option<Stamp>) -> (r: Option<&TimeTrackingData>)
        requires
            now.wf(),
        ensures
            match r {
                Some(p) => served_parse(self.view(), date.julian_day_spec(), now, file_mod_time, self.timeout_spec()) == Some(*p),
                None => served_parse(self.view(), date.julian_day_spec(), now, file_mod_time, self.timeout_spec()) is None,
            },
    {
        match self.get_valid_entry(date, now, file_mod_time) {
            Some(e) => match &e.parsed {
                Some(p) => Some(p),
                None => None,
            },
            None => None,
        }
    }

    /// Record freshly read `content` of `date`, read from a file modified at
    /// `file_mod_time`, at `now`. Its parse is not known yet.
    pub fn cache_content(&mut self, date: Date, file_mod_time: Option<Stamp>, content: String, now: Stamp)
        ensures
            final(self).view() == old(self).view().insert(date.julian_day_spec(), content_entry(content, file_mod_time, now)),
            final(self).timeout_spec() == old(self).timeout_spec(),
    {
        let entry = CacheEntry { data: Some(content), parsed: None, file_mod_time, cached_at: now };
        self.put(date.julian_day(), entry);
    }

    /// Put `entry` in as the entry of Julian day `j`.
    fn put(&mut self, j: i32, entry: CacheEntry)
        ensures
            final(self).view() == old(self).view().insert(j as int, entry),
            final(self).timeout_spec() == old(self).timeout_spec(),
    {
        let ghost before = self.view();
        let _ = self.entries.insert(j, entry);
        assert(self.view() =~= before.insert(j as int, entry));
    }

    /// Attach `parsed`, the parse of `content`, to the entry of `date`, but
    /// only where that entry still holds exactly `content`: an entry that
    /// was invalidated meanwhile, or replaced by a newer read, is left as
    /// it is rather than paired with a parse of other text.
    pub fn cache_parsed(&mut self, date: Date, content: &str, parsed: TimeTrackingData)
        ensures
            final(self).timeout_spec() == old(self).timeout_spec(),
            holds_content(old(self).view(), date.julian_day_spec(), content@) ==>
                final(self).view() == old(self).view().insert(date.julian_day_spec(),
                    with_parse(old(self).view()[date.julian_day_spec()], parsed)),
            !holds_content(old(self).view(), date.julian_day_spec(), content@) ==>
                final(self).view() == old(self).view(),
    {
        let j = date.julian_day();
        let ghost before = self.view();
        match self.entries.remove(&j) {
            None => {
                assert(self.view() =~= before);
            },
            Some(e) => {
                let same = match &e.data {
                    Some(d) => crate::text::str_eq(d.as_str(), content),
                    None => false,
                };
                if same {
                    let new_entry = CacheEntry { data: e.data, parsed: Some(parsed), file_mod_time: e.file_mod_time, cached_at: e.cached_at };
                    self.put(j, new_entry);
                } else {
                    self.put(j, e);
                    assert(self.view() =~= before);
                }
            },
        }
    }
}

/// The entry of `j` in `m` holds exactly the text `content`.
pub open spec fn holds_content(m: Map<int, CacheEntry>, j: int, content: Seq<char>) -> bool {
    m.contains_key(j) && (m[j].data matches Some(d) && d@ == content)
}

/// `e` with `parsed` attached.
pub open spec fn with_parse(e: CacheEntry, parsed: TimeTrackingData) -> CacheEntry {
    CacheEntry { data: e.data, parsed: Some(parsed), file_mod_time: e.file_mod_time, cached_at: e.cached_at }
}

/// The content the cache `m` serves for `j` at `now`.
pub open spec fn served_content(m: Map<int, CacheEntry>, j: int, now: Stamp, file_mod_time: Option<Stamp>, timeout: u64) -> Option<String> {
    if m.contains_key(j) && entry_valid(m[j], now, file_mod_time, timeout) {
        m[j].data
    } else {
        None
    }
}

/// The parse the cache `m` serves for `j` at `now`.
pub open spec fn served_parse(m: Map<int, CacheEntry>, j: int, now: Stamp, file_mod_time: Option<Stamp>, timeout: u64) -> Option<TimeTrackingData> {
    if m.contains_key(j) && entry_valid(m[j], now, file_mod_time, timeout) {
        m[j].parsed
    } else {
        None
    }
}

/// Whether `e` may be served at `now` (see [`entry_valid`]).
fn entry_is_valid(e: &CacheEntry, now: Stamp, file_mod_time: Option<Stamp>, timeout: u64) -> (r: bool)
    requires
        now.wf(),
    ensures
        r == entry_valid(*e, now, file_mod_time, timeout),
{
    let n: i128 = now.secs as i128 * 1_000_000_000 + now.nanos as i128;
    let c: i128 = e.cached_at.secs as i128 * 1_000_000_000 + e.cached_at.nanos as i128;
    if n < c {
        return false;
    }
    let elapsed: i128 = (n - c) / 1_000_000_000;
    if elapsed >= timeout as i128 {
        return false;
    }
    match (file_mod_time, e.file_mod_time) {
        (Some(a), Some(b)) => a.secs == b.secs && a.nanos == b.nanos,
        _ => false,
    }
}


/// A day just read is served back, content and no parse, at the moment it
/// was cached, for the same file, while the timeout is not zero.
pub proof fn law_fresh_read_is_served(m: Map<int, CacheEntry>, j: int, content: String, file_mod_time: Stamp, now: Stamp, timeout: u64)
    requires
        timeout > 0,
    ensures
        served_content(m.insert(j, content_entry(content, Some(file_mod_time), now)), j, now, Some(file_mod_time), timeout)
            == Some(content),
        served_parse(m.insert(j, content_entry(content, Some(file_mod_time), now)), j, now, Some(file_mod_time), timeout)
            is None,
{
}

/// The raw content and the parse of a day share one validity check, so
/// they expire together: where one is not served, the other is not either
/// (nor is any entry served whose file has changed on disk, or whose
/// modification time cannot be read).
pub proof fn law_content_and_parse_expire_together(m: Map<int, CacheEntry>, j: int, now: Stamp, file_mod_time: Option<Stamp>, timeout: u64)
    ensures
        !(m.contains_key(j) && entry_valid(m[j], now, file_mod_time, timeout)) ==>
            served_content(m, j, now, file_mod_time, timeout) is None
            && served_parse(m, j, now, file_mod_time, timeout) is None,
        m.contains_key(j) && m[j].file_mod_time != file_mod_time ==>
            served_content(m, j, now, file_mod_time, timeout) is None
            && served_parse(m, j, now, file_mod_time, timeout) is None,
        file_mod_time is None ==>
            served_content(m, j, now, file_mod_time, timeout) is None
            && served_parse(m, j, now, file_mod_time, timeout) is None,
{
}

/// A date that was invalidated is not served until it is read again.
pub proof fn law_invalidated_date_is_not_served(m: Map<int, CacheEntry>, j: int, now: Stamp, file_mod_time: Option<Stamp>, timeout: u64)
    ensures
        served_content(m.remove(j), j, now, file_mod_time, timeout) is None,
        served_parse(m.remove(j), j, now, file_mod_time, timeout) is None,
{
}

/// A parse served for a day is always served beside the very content it
/// was computed from: it is attached only to an entry holding that text.
pub proof fn law_parse_is_served_with_its_content(m: Map<int, CacheEntry>, j: int, content: Seq<char>, parsed: TimeTrackingData, now: Stamp, file_mod_time: Option<Stamp>, timeout: u64)
    requires
        holds_content(m, j, content),
    ensures
        served_parse(m.insert(j, with_parse(m[j], parsed)), j, now, file_mod_time, timeout) is Some ==>
            served_parse(m.insert(j, with_parse(m[j], parsed)), j, now, file_mod_time, timeout) == Some(parsed)
            && (served_content(m.insert(j, with_parse(m[j], parsed)), j, now, file_mod_time, timeout) matches Some(d)
                && d@ == content),
{
}


/// Every entry of `m` agrees with the disk: where it records a modification
/// time `t`, its content is what the file of its day held when last modified
/// at `t` (`disk`), and a parse attached to it is the parse (`parse`) of
/// that content.
pub open spec fn faithful(
    m: Map<int, CacheEntry>,
    disk: spec_fn(int, Stamp) -> Seq<char>,
    parse: spec_fn(Seq<char>) -> TimeTrackingData,
) -> bool {
    forall|j: int| #[trigger] m.contains_key(j) ==> match m[j].file_mod_time {
        Some(t) => {
            &&& (m[j].data matches Some(d) ==> d@ == disk(j, t))
            &&& (m[j].parsed matches Some(p) ==> (m[j].data matches Some(d) && p == parse(d@)))
        },
        None => true,
    }
}

/// The cache is transparent: from a cache that agrees with the disk, what
/// is served for a day whose file now carries the modification time `t` is
/// exactly what reading that file, and parsing what was read, gives. A file
/// rewritten since it was cached, to newer or to older content, carries
/// another time and is read afresh.
pub proof fn law_a_faithful_cache_serves_what_the_file_holds(
    m: Map<int, CacheEntry>,
    disk: spec_fn(int, Stamp) -> Seq<char>,
    parse: spec_fn(Seq<char>) -> TimeTrackingData,
    j: int,
    now: Stamp,
    t: Stamp,
    timeout: u64,
)
    requires
        faithful(m, disk, parse),
    ensures
        served_content(m, j, now, Some(t), timeout) matches Some(c) ==> c@ == disk(j, t),
        served_parse(m, j, now, Some(t), timeout) matches Some(p) ==> p == parse(disk(j, t)),
{
    if m.contains_key(j) && entry_valid(m[j], now, Some(t), timeout) {
        assert(m[j].file_mod_time == Some(t));
    }
}

/// An empty cache agrees with any disk.
pub proof fn law_an_empty_cache_is_faithful(
    disk: spec_fn(int, Stamp) -> Seq<char>,
    parse: spec_fn(Seq<char>) -> TimeTrackingData,
)
    ensures
        faithful(Map::<int, CacheEntry>::empty(), disk, parse),
{
}

/// Recording what was just read from a file, under the modification time
/// it was read at, keeps the cache agreeing with the disk.
pub proof fn law_caching_a_read_keeps_the_cache_faithful(
    m: Map<int, CacheEntry>,
    disk: spec_fn(int, Stamp) -> Seq<char>,
    parse: spec_fn(Seq<char>) -> TimeTrackingData,
    j: int,
    content: String,
    file_mod_time: Option<Stamp>,
    now: Stamp,
)
    requires
        faithful(m, disk, parse),
        file_mod_time matches Some(t) ==> content@ == disk(j, t),
    ensures
        faithful(m.insert(j, content_entry(content, file_mod_time, now)), disk, parse),
{
    let n = m.insert(j, content_entry(content, file_mod_time, now));
    assert forall|k: int| #[trigger] n.contains_key(k) implies match n[k].file_mod_time {
        Some(t) => {
            &&& (n[k].data matches Some(d) ==> d@ == disk(k, t))
            &&& (n[k].parsed matches Some(p) ==> (n[k].data matches Some(d) && p == parse(d@)))
        },
        None => true,
    } by {
        if k != j {
            assert(m.contains_key(k));
        }
    }
}

/// Attaching to a day's entry the parse of the very content it holds keeps
/// the cache agreeing with the disk.
pub proof fn law_caching_a_parse_keeps_the_cache_faithful(
    m: Map<int, CacheEntry>,
    disk: spec_fn(int, Stamp) -> Seq<char>,
    parse: spec_fn(Seq<char>) -> TimeTrackingData,
    j: int,
    content: Seq<char>,
    parsed: TimeTrackingData,
)
    requires
        faithful(m, disk, parse),
        holds_content(m, j, content),
        parsed == parse(content),
    ensures
        faithful(m.insert(j, with_parse(m[j], parsed)), disk, parse),
{
    let n = m.insert(j, with_parse(m[j], parsed));
    assert forall|k: int| #[trigger] n.contains_key(k) implies match n[k].file_mod_time {
        Some(t) => {
            &&& (n[k].data matches Some(d) ==> d@ == disk(k, t))
            &&& (n[k].parsed matches Some(p) ==> (n[k].data matches Some(d) && p == parse(d@)))
        },
        None => true,
    } by {
        assert(m.contains_key(k));
    }
}

/// Forgetting a day keeps the cache agreeing with the disk.
pub proof fn law_invalidating_keeps_the_cache_faithful(
    m: Map<int, CacheEntry>,
    disk: spec_fn(int, Stamp) -> Seq<char>,
    parse: spec_fn(Seq<char>) -> TimeTrackingData,
    j: int,
)
    requires
        faithful(m, disk, parse),
    ensures
        faithful(m.remove(j), disk, parse),
{
    assert forall|k: int| #[trigger] m.remove(j).contains_key(k) implies m.contains_key(k) by {}
}

} // verus!
