//! Where each clickable region of the terminal UI was drawn on the most
//! recent frame, and the hit test on them; and the rule that stops a
//! pane's header band eating the list under it.

use vstd::prelude::*;

use crate::data_svc::strs;
use crate::text::{nat_text, push_decimal};

verus! {

/// A rectangle of terminal cells.
#[derive(Clone, Copy, Debug, PartialEq, Eq, Structural, Default)]
pub struct Rect {
    pub x: u16,
    pub y: u16,
    pub width: u16,
    pub height: u16,
}

impl Rect {
    /// The rectangle with its corner at (`x`, `y`).
    pub fn new(x: u16, y: u16, width: u16, height: u16) -> (r: Rect)
        ensures
            r == (Rect { x, y, width, height }),
    {
        Rect { x, y, width, height }
    }
}

/// `a + b`, capped at `u16::MAX`.
pub open spec fn sat_add(a: u16, b: u16) -> int {
    if a + b > u16::MAX { u16::MAX as int } else { a + b }
}

/// `rect` was drawn and holds the cell at (`x`, `y`): inclusive of its
/// origin, exclusive of its far edges.
pub open spec fn hits_spec(rect: Option<Rect>, x: u16, y: u16) -> bool {
    match rect {
        Some(r) => x >= r.x && x < sat_add(r.x, r.width) && y >= r.y && y < sat_add(r.y, r.height),
        None => false,
    }
}

/// Whether `rect` was drawn and holds the cell at (`x`, `y`).
pub fn hits(rect: Option<Rect>, x: u16, y: u16) -> (r: bool)
    ensures
        r == hits_spec(rect, x, y),
{
    match rect {
        Some(r) => {
            let right: u16 = if r.x as u32 + r.width as u32 > u16::MAX as u32 { u16::MAX } else { r.x + r.width };
            let bottom: u16 = if r.y as u32 + r.height as u32 > u16::MAX as u32 { u16::MAX } else { r.y + r.height };
            x >= r.x && x < right && y >= r.y && y < bottom
        },
        None => false,
    }
}

/// The regions the most recent frame drew, `None` for those it did not.
#[derive(Clone, Copy, Debug, Default, PartialEq, Eq, Structural)]
pub struct LayoutRects {
    /// The month calendar in the day view's header band.
    pub calendar: Option<Rect>,
    /// The weekly bar chart, in the band or full-screen when zoomed.
    pub bar_chart: Option<Rect>,
    /// The day view's project list, inside its border.
    pub project_list: Option<Rect>,
    /// The weekly rollup list, inside its border.
    pub week_list: Option<Rect>,
    /// The raw-file pane.
    pub raw_file: Option<Rect>,
    /// The footer with the help hint.
    pub help_hint: Option<Rect>,
    /// The open overlay's box, if one is open.
    pub overlay: Option<Rect>,
}

/// No region is drawn.
pub open spec fn nothing_drawn(r: LayoutRects) -> bool {
    &&& r.calendar is None
    &&& r.bar_chart is None
    &&& r.project_list is None
    &&& r.week_list is None
    &&& r.raw_file is None
    &&& r.help_hint is None
    &&& r.overlay is None
}

impl LayoutRects {
    /// No region drawn yet.
    pub fn empty() -> (r: LayoutRects)
        ensures
            nothing_drawn(r),
    {
        LayoutRects {
            calendar: None,
            bar_chart: None,
            project_list: None,
            week_list: None,
            raw_file: None,
            help_hint: None,
            overlay: None,
        }
    }

    /// Forget the previous frame: called at the top of every render, so a
    /// region that is not drawn again cannot be hit.
    pub fn clear(&mut self)
        ensures
            nothing_drawn(*final(self)),
    {
        *self = LayoutRects::empty();
    }
}

/// Rows a warnings block may take: a title and four warnings.
pub const MAX_WARNING_ROWS: usize = 5;

/// The rows a band gets: what it asked for, or what is left of `available`
/// once the list keeps `floor` rows, whichever is fewer.
pub fn fit_band(requested: u16, available: u16, floor: u16) -> (r: u16)
    ensures
        r <= requested,
        r as int <= (if available >= floor { available - floor } else { 0 }),
        r == requested || r as int == (if available >= floor { available - floor } else { 0 }),
{
    let left: u16 = if available >= floor { available - floor } else { 0 };
    if requested < left { requested } else { left }
}

/// The warnings block for `warnings`: nothing for a clean file; else a
/// `Warnings (N)` title with the full count, the warnings (each after
/// `indent`) as far as the cap allows, and a `… and K more` line for those
/// left off.
pub open spec fn warning_block_lines(warnings: Seq<Seq<char>>, indent: Seq<char>) -> Seq<Seq<char>> {
    let n = warnings.len();
    if n == 0 {
        Seq::empty()
    } else {
        let budget: nat = (MAX_WARNING_ROWS - 1) as nat;
        let shown: nat = if n <= budget { n } else { (budget - 1) as nat };
        let title = "Warnings ("@ + nat_text(n) + ")"@;
        let listed = Seq::new(shown, |i: int| indent + warnings[i]);
        let tail: Seq<Seq<char>> = if n > shown {
            seq![indent + "… and "@ + nat_text((n - shown) as nat) + " more"@]
        } else {
            Seq::empty()
        };
        seq![title] + listed + tail
    }
}

/// The warnings block for `warnings`, one string per line.
pub fn warning_lines(warnings: &[String], indent: &str) -> (r: Vec<String>)
    ensures
        strs(r@) == warning_block_lines(strs(warnings@), indent@),
{
    let n = warnings.len();
    let mut lines: Vec<String> = Vec::new();
    if n == 0 {
        assert(strs(lines@) =~= Seq::<Seq<char>>::empty());
        return lines;
    }
    let budget: usize = MAX_WARNING_ROWS - 1;
    let shown: usize = if n <= budget { n } else { budget - 1 };
    let mut title = String::from_str("Warnings (");
    push_decimal(&mut title, n as u64);
    title.append(")");
    lines.push(title);
    let ghost ws = strs(warnings@);
    let mut i: usize = 0;
    while i < shown
        invariant
            i <= shown,
            shown <= n,
            n == warnings@.len(),
            ws == strs(warnings@),
            strs(lines@) == seq!["Warnings ("@ + nat_text(n as nat) + ")"@]
                + Seq::new(i as nat, |k: int| indent@ + ws[k]),
        decreases shown - i,
    {
        let mut line = String::from_str(indent);
        line.append(warnings[i].as_str());
        let ghost before = strs(lines@);
        lines.push(line);
        assert(strs(lines@) =~= before.push(line@));
        assert(Seq::new((i + 1) as nat, |k: int| indent@ + ws[k]) =~= Seq::new(i as nat, |k: int| indent@ + ws[k]).push(indent@ + ws[i as int]));
        i = i + 1;
    }
    if n > shown {
        let mut tail = String::from_str(indent);
        tail.append("… and ");
        push_decimal(&mut tail, (n - shown) as u64);
        tail.append(" more");
        let ghost before = strs(lines@);
        lines.push(tail);
        assert(strs(lines@) =~= before.push(tail@));
    }
    proof {
        let title = "Warnings ("@ + nat_text(n as nat) + ")"@;
        let listed = Seq::new(shown as nat, |k: int| indent@ + ws[k]);
        if n > shown {
            assert(strs(lines@) =~= seq![title] + listed + seq![indent@ + "… and "@ + nat_text((n - shown) as nat) + " more"@]);
        } else {
            assert(strs(lines@) =~= seq![title] + listed + Seq::<Seq<char>>::empty());
        }
    }
    lines
}

/// A warnings block never takes more than its cap of rows, and a clean
/// file takes none.
pub proof fn law_warning_block_is_capped(warnings: Seq<Seq<char>>, indent: Seq<char>)
    ensures
        warning_block_lines(warnings, indent).len() <= MAX_WARNING_ROWS,
        warnings.len() == 0 <==> warning_block_lines(warnings, indent).len() == 0,
        warnings.len() > 0 ==> warning_block_lines(warnings, indent).len() == (if warnings.len() < MAX_WARNING_ROWS { warnings.len() + 1 } else { MAX_WARNING_ROWS as nat }),
{
}

/// The least of `f` over the non-empty `rs`.
pub open spec fn least(rs: Seq<Rect>, f: spec_fn(Rect) -> int) -> int
    decreases rs.len(),
{
    if rs.len() <= 1 {
        f(rs[0])
    } else {
        let m = least(rs.drop_last(), f);
        if f(rs.last()) < m { f(rs.last()) } else { m }
    }
}

/// The greatest of `f` over the non-empty `rs`.
pub open spec fn greatest(rs: Seq<Rect>, f: spec_fn(Rect) -> int) -> int
    decreases rs.len(),
{
    if rs.len() <= 1 {
        f(rs[0])
    } else {
        let m = greatest(rs.drop_last(), f);
        if f(rs.last()) > m { f(rs.last()) } else { m }
    }
}

/// The smallest rectangle around all of `chunks`: from the leftmost and
/// topmost edge to the rightmost and bottommost one.
pub open spec fn bounding_spec(chunks: Seq<Rect>) -> Option<Rect> {
    if chunks.len() == 0 {
        None
    } else {
        let x = least(chunks, |r: Rect| r.x as int);
        let y = least(chunks, |r: Rect| r.y as int);
        let right = greatest(chunks, |r: Rect| r.x + r.width);
        let bottom = greatest(chunks, |r: Rect| r.y + r.height);
        Some(Rect { x: x as u16, y: y as u16, width: (right - x) as u16, height: (bottom - y) as u16 })
    }
}

proof fn lemma_least_greatest_step(rs: Seq<Rect>, i: int, f: spec_fn(Rect) -> int)
    requires
        1 <= i < rs.len(),
    ensures
        rs.take(i + 1).drop_last() == rs.take(i),
        least(rs.take(i + 1), f) == (if f(rs[i]) < least(rs.take(i), f) { f(rs[i]) } else { least(rs.take(i), f) }),
        greatest(rs.take(i + 1), f) == (if f(rs[i]) > greatest(rs.take(i), f) { f(rs[i]) } else { greatest(rs.take(i), f) }),
{
    assert(rs.take(i + 1).drop_last() =~= rs.take(i));
}

proof fn lemma_least_le_greatest(rs: Seq<Rect>, f: spec_fn(Rect) -> int, g: spec_fn(Rect) -> int)
    requires
        rs.len() >= 1,
        forall|k: int| 0 <= k < rs.len() ==> f(#[trigger] rs[k]) <= g(rs[k]),
    ensures
        least(rs, f) <= greatest(rs, g),
        exists|k: int| 0 <= k < rs.len() && least(rs, f) == f(#[trigger] rs[k]),
        exists|k: int| 0 <= k < rs.len() && greatest(rs, g) == g(#[trigger] rs[k]),
    decreases rs.len(),
{
    if rs.len() > 1 {
        let d = rs.drop_last();
        assert forall|k: int| 0 <= k < d.len() implies f(#[trigger] d[k]) <= g(d[k]) by {
            assert(d[k] == rs[k]);
        }
        lemma_least_le_greatest(d, f, g);
        let k1 = choose|k: int| 0 <= k < d.len() && least(d, f) == f(#[trigger] d[k]);
        let k2 = choose|k: int| 0 <= k < d.len() && greatest(d, g) == g(#[trigger] d[k]);
        assert(rs[k1] == d[k1]);
        assert(rs[k2] == d[k2]);
        assert(f(rs[rs.len() - 1]) <= g(rs[rs.len() - 1]));
    } else {
        assert(f(rs[0]) <= g(rs[0]));
    }
}

/// The rectangle that just holds every one of `chunks`, or `None` when
/// there are none.
pub fn bounding_rect(chunks: &[Rect]) -> (r: Option<Rect>)
    requires
        forall|k: int| 0 <= k < chunks@.len() ==> (#[trigger] chunks@[k]).x + chunks@[k].width <= u16::MAX
            && chunks@[k].y + chunks@[k].height <= u16::MAX,
    ensures
        r == bounding_spec(chunks@),
{
    if chunks.len() == 0 {
        return None;
    }
    let ghost fx = |r: Rect| r.x as int;
    let ghost fy = |r: Rect| r.y as int;
    let ghost fr = |r: Rect| r.x + r.width;
    let ghost fb = |r: Rect| r.y + r.height;
    let mut x = chunks[0].x;
    let mut y = chunks[0].y;
    let mut right = chunks[0].x + chunks[0].width;
    let mut bottom = chunks[0].y + chunks[0].height;
    let mut i: usize = 1;
    proof {
        assert(chunks@.take(1) =~= seq![chunks@[0]]);
    }
    while i < chunks.len()
        invariant
            1 <= i <= chunks@.len(),
            forall|k: int| 0 <= k < chunks@.len() ==> (#[trigger] chunks@[k]).x + chunks@[k].width <= u16::MAX
                && chunks@[k].y + chunks@[k].height <= u16::MAX,
            fx == (|r: Rect| r.x as int),
            fy == (|r: Rect| r.y as int),
            fr == (|r: Rect| r.x + r.width),
            fb == (|r: Rect| r.y + r.height),
            x == least(chunks@.take(i as int), fx),
            y == least(chunks@.take(i as int), fy),
            right == greatest(chunks@.take(i as int), fr),
            bottom == greatest(chunks@.take(i as int), fb),
        decreases chunks@.len() - i,
    {
        let c = chunks[i];
        proof {
            lemma_least_greatest_step(chunks@, i as int, fx);
            lemma_least_greatest_step(chunks@, i as int, fy);
            lemma_least_greatest_step(chunks@, i as int, fr);
            lemma_least_greatest_step(chunks@, i as int, fb);
        }
        if c.x < x {
            x = c.x;
        }
        if c.y < y {
            y = c.y;
        }
        if c.x + c.width > right {
            right = c.x + c.width;
        }
        if c.y + c.height > bottom {
            bottom = c.y + c.height;
        }
        i = i + 1;
    }
    proof {
        assert(chunks@.take(chunks@.len() as int) =~= chunks@);
        lemma_least_le_greatest(chunks@, fx, fr);
        lemma_least_le_greatest(chunks@, fy, fb);
    }
    Some(Rect { x, y, width: right - x, height: bottom - y })
}

} // verus!
