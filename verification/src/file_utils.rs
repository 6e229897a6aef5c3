//! Where the day files live, and the text a new day file starts from.

use vstd::prelude::*;

use crate::date::Date;
use crate::text::{occurs_at, push_char, replace_all, replace_all_str};

verus! {

/// Name of the data directory inside the home directory.
pub open spec fn data_dir_name() -> Seq<char> {
    seq!['.', 't', 'i', 'm', 'e', '-', 't', 'r', 'a', 'c', 'k', 'i', 'n', 'g']
}

/// The placeholder a template writes where the day's date goes.
pub open spec fn date_placeholder() -> Seq<char> {
    seq!['{', 'd', 'a', 't', 'e', '}']
}

/// `name` appended to the directory `base`, with one `/` between them
/// unless `base` is empty or already ends in one: what `Path::join` gives
/// for a relative `name`.
pub open spec fn path_join(base: Seq<char>, name: Seq<char>) -> Seq<char> {
    if base.len() == 0 {
        name
    } else if base.last() == '/' {
        base + name
    } else {
        base + seq!['/'] + name
    }
}

/// The relative name `name` joined onto the directory `base`.
pub fn join_path(base: &str, name: &str) -> (r: String)
    ensures
        r@ == path_join(base@, name@),
{
    let n = base.unicode_len();
    let mut s = String::from_str(base);
    if n > 0 && base.get_char(n - 1) != '/' {
        push_char(&mut s, '/');
    }
    s.append(name);
    s
}

/// Why the data directory could not be found.
#[derive(Clone, Copy, Debug, PartialEq, Eq, Structural)]
pub enum DirError {
    /// There is no home directory to put it in.
    NoHome,
    /// There is no home directory to keep the config file in.
    NoConfigHome,
}

impl DirError {
    /// The message to show the user.
    pub fn message(&self) -> (s: &'static str)
        ensures
            s@ == match self {
                DirError::NoHome => "could not determine home directory"@,
                DirError::NoConfigHome => "Could not determine home directory"@,
            },
    {
        match self {
            DirError::NoHome => "could not determine home directory",
            DirError::NoConfigHome => "Could not determine home directory",
        }
    }
}

/// The user's home directory, if the platform knows one.
///
/// Trusted: `dirs::home_dir`, its path converted to text (lossily, where it
/// is not Unicode). It reads the environment and the password database, so
/// nothing is stated of what comes back.
#[verifier::external_body]
pub(crate) fn home_dir() -> (r: Option<String>) {
    match dirs::home_dir() {
        Some(p) => Some(p.to_string_lossy().into_owned()),
        None => None,
    }
}

/// The data directory inside the home directory `home`: `~/.time-tracking`.
pub fn data_dir_in(home: Option<String>) -> (r: Result<String, DirError>)
    ensures
        match home {
            Some(h) => r matches Ok(p) && p@ == path_join(h@, data_dir_name()),
            None => r == Err::<String, DirError>(DirError::NoHome),
        },
{
    match home {
        Some(h) => {
            let name = ".time-tracking";
            proof {
                reveal_strlit(".time-tracking");
            }
            assert(name@ =~= data_dir_name());
            Ok(join_path(h.as_str(), name))
        },
        None => Err(DirError::NoHome),
    }
}

/// The directory the day files live in: `override_dir` when one is given,
/// else `.time-tracking` in the home directory.
pub fn get_time_tracking_dir_with_override(override_dir: Option<&str>) -> (r: Result<String, DirError>)
    ensures
        match override_dir {
            Some(d) => r matches Ok(p) && p@ == d@,
            None => {
                &&& r is Err ==> r == Err::<String, DirError>(DirError::NoHome)
                &&& r matches Ok(p) ==> exists|h: Seq<char>| p@ == path_join(h, data_dir_name())
            },
        },
{
    match override_dir {
        Some(d) => Ok(String::from_str(d)),
        None => {
            let home = home_dir();
            let ghost g = home;
            let r = data_dir_in(home);
            proof {
                if let Some(h) = g {
                    assert(r matches Ok(p) && p@ == path_join(h@, data_dir_name()));
                }
            }
            r
        },
    }
}

/// The default directory the day files live in: `~/.time-tracking`.
pub fn get_time_tracking_dir() -> (r: Result<String, DirError>)
    ensures
        r is Err ==> r == Err::<String, DirError>(DirError::NoHome),
        r matches Ok(p) ==> exists|h: Seq<char>| p@ == path_join(h, data_dir_name()),
{
    get_time_tracking_dir_with_override(None)
}

/// The content of a new day file made from `template`: every `{date}` in
/// it replaced by `date` written `YYYY-MM-DD`.
pub fn fill_template(template: &str, date: &Date) -> (r: String)
    ensures
        r@ == replace_all(template@, date_placeholder(), date.iso_spec()),
{
    let pat = "{date}";
    proof {
        reveal_strlit("{date}");
    }
    assert(pat@ =~= date_placeholder());
    let iso = date.iso_string();
    replace_all_str(template, pat, iso.as_str())
}

/// The content of a new day file for `date`: the template's text with the
/// date filled in when a template was read, else nothing.
pub fn create_template_content(date: &Date, template: Option<&str>) -> (r: String)
    ensures
        match template {
            Some(t) => r@ == replace_all(t@, date_placeholder(), date.iso_spec()),
            None => r@ == Seq::<char>::empty(),
        },
{
    match template {
        Some(t) => fill_template(t, date),
        None => String::new(),
    }
}


/// `c` is one of the characters the placeholder is written with.
pub open spec fn placeholder_char(c: char) -> bool {
    c == '{' || c == 'd' || c == 'a' || c == 't' || c == 'e' || c == '}'
}

/// A date written `YYYY-MM-DD` holds none of the placeholder's characters.
proof fn lemma_iso_text_has_no_placeholder_char(d: Date)
    ensures
        d.iso_spec().len() > 0,
        forall|i: int| 0 <= i < d.iso_spec().len() ==> !placeholder_char(#[trigger] d.iso_spec()[i]),
{
    let (y, m, dd) = d.calendar();
    let ay = if y < 0 { -y } else { y };
    let sign: Seq<char> = if y < 0 { seq!['-'] } else { Seq::empty() };
    let t1 = crate::text::two_digit_text((ay / 100) as nat);
    let t2 = crate::text::two_digit_text((ay % 100) as nat);
    let t3 = crate::text::two_digit_text(m as nat);
    let t4 = crate::text::two_digit_text(dd as nat);
    let body = seq![t1[0], t1[1], t2[0], t2[1], '-', t3[0], t3[1], '-', t4[0], t4[1]];
    assert(d.iso_spec() =~= sign + body);
}

/// Where the text `replace_all` makes starts with the tail of the
/// placeholder from its `k`-th character on, so does the text it was made
/// from: the replacement holds none of the placeholder's characters.
proof fn lemma_tail_comes_from_the_input(s: Seq<char>, rep: Seq<char>, k: int)
    requires
        1 <= k <= 6,
        rep.len() > 0,
        forall|i: int| 0 <= i < rep.len() ==> !placeholder_char(#[trigger] rep[i]),
        replace_all(s, date_placeholder(), rep).len() >= 6 - k,
        replace_all(s, date_placeholder(), rep).take(6 - k) == date_placeholder().skip(k),
    ensures
        s.len() >= 6 - k,
        s.take(6 - k) == date_placeholder().skip(k),
    decreases s.len(),
{
    let pat = date_placeholder();
    let r = replace_all(s, pat, rep);
    if k == 6 {
        assert(s.take(0) =~= pat.skip(6));
    } else if s.len() == 0 {
        assert(r.len() == 0);
    } else if occurs_at(s, pat, 0) {
        assert(r == rep + replace_all(s.skip(6), pat, rep));
        assert(r[0] == rep[0]);
        assert(pat.skip(k)[0] == pat[k]);
        assert(r.take(6 - k)[0] == r[0]);
        assert(false);
    } else {
        let rest = s.drop_first();
        let rr = replace_all(rest, pat, rep);
        assert(r == seq![s[0]] + rr);
        assert(r.take(6 - k)[0] == pat.skip(k)[0]);
        if k < 5 {
            assert(rr.take(6 - (k + 1)) =~= r.take(6 - k).skip(1));
            assert(pat.skip(k + 1) =~= pat.skip(k).skip(1));
            lemma_tail_comes_from_the_input(rest, rep, k + 1);
            assert(s.take(6 - k) =~= seq![s[0]] + rest.take(6 - (k + 1)));
            assert(pat.skip(k) =~= seq![pat[k]] + pat.skip(k + 1));
        } else {
            assert(s.take(1) =~= seq![s[0]]);
            assert(pat.skip(5) =~= seq![pat[5]]);
        }
    }
}

/// The text `replace_all` makes from any `s` holds no placeholder, when
/// the replacement holds none of its characters.
proof fn lemma_no_placeholder_left(s: Seq<char>, rep: Seq<char>)
    requires
        rep.len() > 0,
        forall|i: int| 0 <= i < rep.len() ==> !placeholder_char(#[trigger] rep[i]),
    ensures
        !crate::text::seq_contains(replace_all(s, date_placeholder(), rep), date_placeholder()),
    decreases s.len(),
{
    let pat = date_placeholder();
    let r = replace_all(s, pat, rep);
    if s.len() == 0 {
        assert forall|i: int| !occurs_at(r, pat, i) by {}
    } else if occurs_at(s, pat, 0) {
        let rest = replace_all(s.skip(6), pat, rep);
        lemma_no_placeholder_left(s.skip(6), rep);
        assert(r == rep + rest);
        assert forall|i: int| !occurs_at(r, pat, i) by {
            if occurs_at(r, pat, i) {
                if i < rep.len() {
                    assert(r.subrange(i, i + 6)[0] == r[i]);
                    assert(r[i] == rep[i]);
                } else {
                    assert(rest.subrange(i - rep.len(), i - rep.len() + 6) =~= r.subrange(i, i + 6));
                    assert(occurs_at(rest, pat, i - rep.len()));
                }
            }
        }
    } else {
        let tail = s.drop_first();
        let rest = replace_all(tail, pat, rep);
        lemma_no_placeholder_left(tail, rep);
        assert(r == seq![s[0]] + rest);
        assert forall|i: int| !occurs_at(r, pat, i) by {
            if occurs_at(r, pat, i) {
                if i == 0 {
                    assert(rest.take(5) =~= r.subrange(0, 6).skip(1));
                    assert(pat.skip(1) =~= pat.subrange(0, 6).skip(1));
                    lemma_tail_comes_from_the_input(tail, rep, 1);
                    assert(s.subrange(0, 6) =~= seq![s[0]] + tail.take(5));
                    assert(r[0] == s[0]);
                    assert(s[0] == pat[0]);
                    assert(pat =~= seq![pat[0]] + pat.skip(1));
                    assert(occurs_at(s, pat, 0));
                } else {
                    assert(rest.subrange(i - 1, i + 5) =~= r.subrange(i, i + 6));
                    assert(occurs_at(rest, pat, i - 1));
                }
            }
        }
    }
}

/// A filled template holds no `{date}` placeholder any more.
pub proof fn law_filled_template_has_no_placeholder(template: Seq<char>, date: Date)
    ensures
        !crate::text::seq_contains(replace_all(template, date_placeholder(), date.iso_spec()), date_placeholder()),
{
    lemma_iso_text_has_no_placeholder_char(date);
    lemma_no_placeholder_left(template, date.iso_spec());
}

} // verus!
