//! Which editor to launch on a day file, and how its command splits.

use vstd::prelude::*;

use crate::text::push_char;

verus! {

/// `c` is white space as `char::is_whitespace` defines it: the Unicode
/// `White_Space` property.
pub open spec fn is_space(c: char) -> bool {
    let u = c as u32;
    (9 <= u && u <= 13) || u == 32 || u == 0x85 || u == 0xA0 || u == 0x1680 || (0x2000 <= u && u <= 0x200A)
        || u == 0x2028 || u == 0x2029 || u == 0x202F || u == 0x205F || u == 0x3000
}

/// Whether `c` is white space.
pub fn is_space_char(c: char) -> (r: bool)
    ensures
        r == is_space(c),
{
    let u = c as u32;
    (9 <= u && u <= 13) || u == 32 || u == 0x85 || u == 0xA0 || u == 0x1680 || (0x2000 <= u && u <= 0x200A)
        || u == 0x2028 || u == 0x2029 || u == 0x202F || u == 0x205F || u == 0x3000
}

/// The words finished so far and the one being read, after reading `s`.
pub open spec fn split_state(s: Seq<char>) -> (Seq<Seq<char>>, Seq<char>)
    decreases s.len(),
{
    if s.len() == 0 {
        (Seq::empty(), Seq::empty())
    } else {
        let (done, cur) = split_state(s.drop_last());
        if is_space(s.last()) {
            if cur.len() > 0 {
                (done.push(cur), Seq::empty())
            } else {
                (done, Seq::empty())
            }
        } else {
            (done, cur.push(s.last()))
        }
    }
}

/// The white-space separated words of `s`, in order, as
/// `str::split_whitespace` yields them.
pub open spec fn words(s: Seq<char>) -> Seq<Seq<char>> {
    let (done, cur) = split_state(s);
    if cur.len() > 0 {
        done.push(cur)
    } else {
        done
    }
}

/// The white-space separated words of `s`, in order.
pub fn split_whitespace(s: &str) -> (r: Vec<String>)
    ensures
        r@.map_values(|w: String| w@) == words(s@),
{
    let n = s.unicode_len();
    let mut done: Vec<String> = Vec::new();
    let mut cur = String::new();
    let mut i: usize = 0;
    proof {
        assert(s@.take(0) =~= Seq::<char>::empty());
        assert(done@.map_values(|w: String| w@) =~= Seq::<Seq<char>>::empty());
    }
    while i < n
        invariant
            n == s@.len(),
            i <= n,
            (done@.map_values(|w: String| w@), cur@) == split_state(s@.take(i as int)),
        decreases n - i,
    {
        let c = s.get_char(i);
        proof {
            assert(s@.take(i + 1).drop_last() =~= s@.take(i as int));
            assert(s@.take(i + 1).last() == c);
        }
        if is_space_char(c) {
            if cur.unicode_len() > 0 {
                let ghost prev = done@;
                let word = cur;
                done.push(word);
                assert(done@.map_values(|w: String| w@) =~= prev.map_values(|w: String| w@).push(word@));
                cur = String::new();
            } else {
                cur = String::new();
            }
        } else {
            push_char(&mut cur, c);
        }
        i = i + 1;
    }
    assert(s@.take(n as int) =~= s@);
    if cur.unicode_len() > 0 {
        let ghost prev = done@;
        let word = cur;
        done.push(word);
        assert(done@.map_values(|w: String| w@) =~= prev.map_values(|w: String| w@).push(word@));
    }
    done
}

/// The program and the arguments that precede the file path, for a
/// configured editor value such as `"code --wait"`: its first word, and
/// the rest; `None` when the value holds no word at all.
pub fn split_editor_command(editor: &str) -> (r: Option<(String, Vec<String>)>)
    ensures
        r is None <==> words(editor@).len() == 0,
        r matches Some((program, args)) ==> program@ == words(editor@)[0]
            && args@.map_values(|w: String| w@) == words(editor@).drop_first(),
{
    let mut parts = split_whitespace(editor);
    if parts.len() == 0 {
        return None;
    }
    let ghost all = parts@;
    let program = parts.remove(0);
    assert(parts@ =~= all.drop_first());
    assert(parts@.map_values(|w: String| w@) =~= all.map_values(|w: String| w@).drop_first());
    Some((program, parts))
}

/// An editor command that cannot be run.
#[derive(Clone, Debug, PartialEq, Eq)]
pub enum EditorError {
    /// `EDITOR`/`VISUAL` holds no word to run.
    NotConfigured,
    /// The editor ran and exited with a failure status.
    NonZeroExit { editor: String },
    /// The editor's program could not be started; `cause` is what the
    /// operating system reported.
    SpawnFailed { cause: String },
}

impl EditorError {
    /// The message to show the user.
    pub fn message(&self) -> (s: String)
        ensures
            s@ == match self {
                EditorError::NotConfigured => "No editor configured: EDITOR/VISUAL is empty"@,
                EditorError::NonZeroExit { editor } => "Editor '"@ + editor@ + "' exited with non-zero status"@,
                EditorError::SpawnFailed { .. } => "error running command"@,
            },
    {
        match self {
            EditorError::NotConfigured => String::from_str("No editor configured: EDITOR/VISUAL is empty"),
            EditorError::NonZeroExit { editor } => {
                let mut s = String::from_str("Editor '");
                s.append(editor.as_str());
                s.append("' exited with non-zero status");
                s
            },
            EditorError::SpawnFailed { .. } => String::from_str("error running command"),
        }
    }
}

/// The command to run for `editor` on a file: program, then the arguments
/// that precede the file path.
pub fn editor_command(editor: &str) -> (r: Result<(String, Vec<String>), EditorError>)
    ensures
        r is Err <==> words(editor@).len() == 0,
        r is Err ==> r == Err::<(String, Vec<String>), EditorError>(EditorError::NotConfigured),
        r matches Ok((program, args)) ==> program@ == words(editor@)[0]
            && args@.map_values(|w: String| w@) == words(editor@).drop_first(),
{
    match split_editor_command(editor) {
        Some(cmd) => Ok(cmd),
        None => Err(EditorError::NotConfigured),
    }
}

/// What a run of `editor` comes to once it has exited: success, or the
/// error that names the editor when it exited with a failure status.
pub fn editor_exit_result(editor: &str, success: bool) -> (r: Result<(), EditorError>)
    ensures
        success ==> r is Ok,
        !success ==> (r matches Err(EditorError::NonZeroExit { editor: e }) && e@ == editor@),
{
    if success {
        Ok(())
    } else {
        Err(EditorError::NonZeroExit { editor: String::from_str(editor) })
    }
}

/// What opening a file in `editor` comes to, given what launching its
/// command gave: `Err(cause)` when the program could not be started, with
/// what the operating system reported, else whether it exited with a
/// success status. It succeeds exactly when the editor holds a command,
/// that command was started, and it exited successfully; a failed start
/// keeps its cause.
pub fn editor_run_result(editor: &str, launch: Result<bool, String>) -> (r: Result<(), EditorError>)
    ensures
        r is Ok <==> words(editor@).len() > 0 && launch == Ok::<bool, String>(true),
        words(editor@).len() == 0 ==> r == Err::<(), EditorError>(EditorError::NotConfigured),
        words(editor@).len() > 0 ==> (launch matches Err(cause) ==> (r matches Err(EditorError::SpawnFailed { cause: c })
            && c@ == cause@)),
        words(editor@).len() > 0 && launch == Ok::<bool, String>(false) ==> (r matches Err(EditorError::NonZeroExit { editor: e })
            && e@ == editor@),
{
    match editor_command(editor) {
        Err(e) => Err(e),
        Ok(_) => match launch {
            Err(cause) => Err(EditorError::SpawnFailed { cause }),
            Ok(success) => editor_exit_result(editor, success),
        },
    }
}

/// The editor to launch: `$EDITOR`, else `$VISUAL`, else the platform's
/// default.
pub fn choose_editor(editor: Option<String>, visual: Option<String>, platform_default: &str) -> (r: String)
    ensures
        r@ == match editor {
            Some(e) => e@,
            None => match visual {
                Some(v) => v@,
                None => platform_default@,
            },
        },
{
    match editor {
        Some(e) => e,
        None => match visual {
            Some(v) => v,
            None => String::from_str(platform_default),
        },
    }
}

} // verus!
