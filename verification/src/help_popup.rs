//! The help overlay's text: the keys that do something in the current
//! mode, in a column, with what they do beside them.

use vstd::prelude::*;

use crate::keymap::{help_rows, help_rows_upto, help_rows_view, max_nat, pad_right, push_padded, row_count};
use crate::mode::Mode;

verus! {

/// The widest key text among `rows`.
pub open spec fn keys_width(rows: Seq<(Seq<char>, Seq<char>)>) -> nat
    decreases rows.len(),
{
    if rows.len() == 0 { 0 } else { max_nat(keys_width(rows.drop_last()), rows.last().0.len()) }
}

/// One line of the help text: the keys padded to the key column, two
/// spaces, the description; the empty pair between groups an empty line.
pub open spec fn help_line(row: (Seq<char>, Seq<char>), width: nat) -> Seq<char> {
    if row.0.len() == 0 { Seq::empty() } else { pad_right(row.0, width) + "  "@ + row.1 }
}

/// The lines of `rows` joined by newlines.
pub open spec fn help_text(rows: Seq<(Seq<char>, Seq<char>)>, width: nat) -> Seq<char>
    decreases rows.len(),
{
    if rows.len() == 0 {
        Seq::empty()
    } else if rows.len() == 1 {
        help_line(rows[0], width)
    } else {
        help_text(rows.drop_last(), width) + seq!['\n'] + help_line(rows.last(), width)
    }
}

/// The help overlay's text for `mode`, from the one binding table, so that
/// the overlay cannot drift from what the keys do.
pub fn help_content(mode: Mode) -> (s: String)
    ensures
        s@ == help_text(help_rows_upto(mode, row_count()), keys_width(help_rows_upto(mode, row_count()))),
{
    let rows = help_rows(mode);
    let ghost rv = help_rows_view(rows@);
    let mut width: usize = 0;
    let mut i: usize = 0;
    while i < rows.len()
        invariant
            i <= rows@.len(),
            rv == help_rows_view(rows@),
            width == keys_width(rv.take(i as int)),
        decreases rows@.len() - i,
    {
        assert(rv.take(i + 1).drop_last() =~= rv.take(i as int));
        let n = rows[i].0.unicode_len();
        if n > width {
            width = n;
        }
        i = i + 1;
    }
    assert(rv.take(rv.len() as int) =~= rv);
    let mut s = String::new();
    let mut k: usize = 0;
    while k < rows.len()
        invariant
            k <= rows@.len(),
            rv == help_rows_view(rows@),
            width == keys_width(rv),
            s@ == help_text(rv.take(k as int), width as nat),
        decreases rows@.len() - k,
    {
        assert(rv.take(k + 1).drop_last() =~= rv.take(k as int));
        if k > 0 {
            crate::text::push_char(&mut s, '\n');
        }
        let keys = rows[k].0.as_str();
        if keys.unicode_len() > 0 {
            push_padded(&mut s, keys, width);
            s.append("  ");
            s.append(rows[k].1);
        }
        proof {
            if k == 0 {
                assert(rv.take(1).len() == 1);
            }
        }
        k = k + 1;
    }
    s
}

} // verus!
