//! The markdown renderer, and the texts and widths that it is asked for.
//!
//! The renderer numbers the items of an ordered list in thirty-two bits and takes the room
//! of a list marker from the width that it wraps to, without a test before either. So the
//! parser is asked first what the lines of a text are, and the renderer is called with a
//! text only where `renderable` holds: where neither step goes out of its bounds.

use crate::chars::decimal;
use termimad::minimad::Line::{CodeFence, HorizontalRule, Normal, TableRow, TableRule};
use termimad::minimad::{parse_line, Composite, CompositeStyle};
use termimad::wrap::composite_kind_widths;
use termimad::MadSkin;
use vstd::prelude::*;
use vstd::string::StrSliceExecFns;

verus! {

/// The number of characters from which on a text is not rendered: the renderer's
/// arithmetic on lengths stays within bounds below it.
pub const MAX_RENDERED_CHARS: usize = 0x4000_0000;

/// The largest number of columns and the largest width of a cell with which a table is
/// handed to the fitting of its columns.
pub const MAX_TABLE_SIZE: usize = 0x10_0000;

/// The widths below this one are not wrapped to.
pub const MIN_WRAP_WIDTH: usize = 3;

/// The width that a column keeps when a table has more columns than the width can hold.
pub const NARROW_COLUMN: usize = 3;

/// The number of levels that ordered lists are numbered at.
pub const LEVELS: usize = 256;

/// A cell of a table row: the room that its marker takes, which is zero for a cell that
/// is no list item or quote, and its whole visible width, the marker included.
pub struct Cell {
    pub room: usize,
    pub width: usize,
}

/// A cell with the column it stands in.
pub struct Placed {
    pub column: usize,
    pub room: usize,
    pub width: usize,
}

/// What the parser makes of one line of a text, taken by itself.
pub enum LineShape {
    /// A line that is neither an ordered item nor part of a table nor a code fence, with
    /// the room that its marker takes: a bullet with its depth, a quote mark, or nothing.
    Plain(usize),
    /// An item of an ordered list, with its level and the index that is written in it.
    Ordered(u8, u32),
    /// A row of a table, with its cells.
    Row(Vec<Cell>),
    /// A rule of a table, with the number of its columns.
    Rule(usize),
    /// A horizontal rule.
    Break,
    /// A code fence.
    Fence,
}

/// An ordered list that is being numbered: the index of its first item and the number of
/// its items so far.
pub struct Run {
    pub start: u32,
    pub count: u64,
}

/// The reading of a text line by line: whether the line stands between code fences, the
/// ordered lists that are being numbered at each level, the table that is being read, and
/// whether the renderer has gone out of its bounds on a line so far.
pub struct Walk {
    pub inside: bool,
    pub runs: Seq<Option<Run>>,
    pub in_table: bool,
    pub columns: usize,
    pub cells: Seq<Placed>,
    pub faulty: bool,
}

/// The lines of `text` as `minimad::parse_line` reads them one by one, with the rooms and
/// widths that `termimad` gives them.
pub uninterp spec fn markdown_lines(text: Seq<char>) -> Seq<LineShape>;

/// The widths that `termimad::TblFit` gives the columns of a table of `columns` columns
/// at `width` columns in all, having seen `cells`; nothing where the width cannot hold
/// that many columns.
pub uninterp spec fn fitted_columns(columns: usize, width: usize, cells: Seq<Placed>) -> Option<
    Seq<usize>,
>;

/// No list is being numbered.
pub open spec fn no_runs() -> Seq<Option<Run>> {
    Seq::new(LEVELS as nat, |i: int| None)
}

/// The reading before the first line.
pub open spec fn start_walk() -> Walk {
    Walk {
        inside: false,
        runs: no_runs(),
        in_table: false,
        columns: 0,
        cells: Seq::empty(),
        faulty: false,
    }
}

/// The cells of a row with their columns.
pub open spec fn placed(row: Seq<Cell>) -> Seq<Placed> {
    Seq::new(row.len(), |i: int| Placed { column: i as usize, room: row[i].room, width: row[i].width })
}

/// Whether the table that has been read makes the renderer go below zero: a cell is wrapped
/// to the width of its column, and the room of its marker is taken from that width. Where
/// the width cannot hold the columns, the first `(width - 1) / 4` of them are kept, each
/// `NARROW_COLUMN` wide.
pub open spec fn table_faults(w: Walk, width: usize) -> bool {
    w.in_table && w.columns > 0 && width > 0 && match fitted_columns(w.columns, width, w.cells) {
        Some(widths) => exists|i: int|
            0 <= i < w.cells.len() && (#[trigger] w.cells[i]).column < widths.len() && w.cells[i].room
                > widths[w.cells[i].column as int],
        None => exists|i: int|
            0 <= i < w.cells.len() && (#[trigger] w.cells[i]).column < (width - 1) / 4
                && w.cells[i].room > NARROW_COLUMN,
    }
}

/// The reading after the table, if one was being read, has ended.
pub open spec fn close_table(w: Walk, width: usize) -> Walk {
    Walk {
        in_table: false,
        columns: 0,
        cells: Seq::empty(),
        faulty: w.faulty || table_faults(w, width),
        ..w
    }
}

/// Whether a line whose marker takes `room` columns makes the renderer go below zero at
/// `width` columns: it is wrapped from `MIN_WRAP_WIDTH` columns on, and then the room is
/// taken from the width.
pub open spec fn line_faults(room: int, width: usize) -> bool {
    width >= MIN_WRAP_WIDTH && room > width
}

/// The reading after a line outside of tables that is no ordered item: a table ends, and
/// so does every ordered list.
pub open spec fn plain_line(w: Walk, room: usize, width: usize) -> Walk {
    let c = close_table(w, width);
    Walk { runs: no_runs(), faulty: c.faulty || line_faults(room as int, width), ..c }
}

/// The room of the marker of an ordered item: the digits of its index, a dot and a space,
/// and a column for each level.
pub open spec fn ordered_room(level: u8, index: int) -> int {
    decimal(index as nat).len() + 2 + level
}

/// The reading after an item of an ordered list. The item continues the list at its level
/// or starts one, which ends the lists at deeper levels. Its number is the first index of
/// the list plus the number of its items, less one; the renderer goes beyond its bound
/// where the sum exceeds thirty-two bits.
pub open spec fn ordered_line(w: Walk, level: u8, index: u32, width: usize) -> Walk {
    let c = close_table(w, width);
    let run = match c.runs[level as int] {
        Some(run) => Run { start: run.start, count: (run.count + 1) as u64 },
        None => Run { start: index, count: 1 },
    };
    let runs = Seq::new(
        LEVELS as nat,
        |i: int|
            if i == level {
                Some(run)
            } else if i > level && c.runs[level as int] is None {
                None
            } else {
                c.runs[i]
            },
    );
    let overflow = run.start + run.count > u32::MAX;
    Walk {
        runs,
        faulty: c.faulty || overflow || line_faults(
            ordered_room(level, run.start + run.count - 1),
            width,
        ),
        ..c
    }
}

/// The reading after a line of a table with `columns` columns and the cells `row`.
pub open spec fn table_line(w: Walk, columns: usize, row: Seq<Cell>) -> Walk {
    Walk {
        runs: no_runs(),
        in_table: true,
        columns: if columns > w.columns {
            columns
        } else {
            w.columns
        },
        cells: w.cells + placed(row),
        ..w
    }
}

/// The reading after one more line. A code fence turns the reading of code on or off and is
/// no line of the text itself; between two fences every line is code.
pub open spec fn step(w: Walk, shape: LineShape, width: usize) -> Walk {
    match shape {
        LineShape::Fence => Walk { inside: !w.inside, ..w },
        LineShape::Plain(room) => plain_line(
            w,
            if w.inside {
                0
            } else {
                room
            },
            width,
        ),
        LineShape::Break => plain_line(w, 0, width),
        LineShape::Ordered(level, index) => if w.inside {
            plain_line(w, 0, width)
        } else {
            ordered_line(w, level, index, width)
        },
        LineShape::Row(cells) => if w.inside {
            plain_line(w, 0, width)
        } else {
            table_line(w, cells@.len() as usize, cells@)
        },
        LineShape::Rule(columns) => if w.inside {
            plain_line(w, 0, width)
        } else {
            table_line(w, columns, Seq::empty())
        },
    }
}

/// The reading after all of `lines`.
pub open spec fn walk(lines: Seq<LineShape>, width: usize) -> Walk
    decreases lines.len(),
{
    if lines.len() == 0 {
        start_walk()
    } else {
        step(walk(lines.drop_last(), width), lines.last(), width)
    }
}

/// Whether the renderer stays within its bounds on a text of these lines at `width`
/// columns.
pub open spec fn renders(lines: Seq<LineShape>, width: usize) -> bool {
    !close_table(walk(lines, width), width).faulty
}

/// Whether the tables of `lines` are of a size that the fitting of columns is asked for.
pub open spec fn bounded(lines: Seq<LineShape>) -> bool {
    &&& lines.len() <= MAX_RENDERED_CHARS
    &&& forall|i: int|
        0 <= i < lines.len() ==> match #[trigger] lines[i] {
            LineShape::Row(cells) => cells@.len() <= MAX_TABLE_SIZE && forall|j: int|
                0 <= j < cells@.len() ==> (#[trigger] cells@[j]).width <= MAX_TABLE_SIZE,
            LineShape::Rule(columns) => columns <= MAX_TABLE_SIZE,
            _ => true,
        }
}

/// Whether the renderer is asked for the text `s` at `width` columns: whether it stays
/// within its bounds on the lines of `s`. A text of `MAX_RENDERED_CHARS` characters or
/// more, or with a table beyond `MAX_TABLE_SIZE`, is not rendered.
pub open spec fn renderable(s: Seq<char>, width: usize) -> bool {
    &&& s.len() < MAX_RENDERED_CHARS
    &&& bounded(markdown_lines(s))
    &&& renders(markdown_lines(s), width)
}

/// Calls `minimad::parse_line`, as `termimad` hands it on, on each line of `text`, and
/// converts what it makes of the line. The room of a marker is asked of
/// `termimad::wrap::composite_kind_widths` and the width of a cell of
/// `MadSkin::visible_composite_length`, both in the default skin.
#[verifier::external_body]
pub(crate) fn parse_lines(text: &str) -> (r: Vec<LineShape>)
    ensures
        r@ == markdown_lines(text@),
{
    let skin = MadSkin::default();
    let cell = |c: &Composite| Cell {
        room: composite_kind_widths(c.style.into(), &skin).0,
        width: skin.visible_composite_length(c.style.into(), &c.compounds),
    };
    text.lines().map(|line| match parse_line(line) {
        Normal(Composite { style: CompositeStyle::OrderedListItem { level, index }, .. }) => LineShape::Ordered(level, index),
        Normal(c) => LineShape::Plain(cell(&c).room),
        TableRow(row) => LineShape::Row(row.cells.iter().map(cell).collect()),
        TableRule(rule) => LineShape::Rule(rule.cells.len()),
        HorizontalRule => LineShape::Break,
        CodeFence(_) => LineShape::Fence,
    }).collect()
}

/// Calls `termimad::TblFit::new` for `columns` columns at `width` columns, shows it each
/// cell with `see_cell`, and takes the widths of the columns from `fit`. The result is
/// nothing exactly where `new` refuses the width; else there is one width for each column.
#[verifier::external_body]
pub(crate) fn fit_columns(columns: usize, width: usize, cells: &Vec<Placed>) -> (r: Option<
    Vec<usize>,
>)
    requires
        columns <= MAX_TABLE_SIZE,
        forall|i: int| 0 <= i < cells@.len() ==> (#[trigger] cells@[i]).width <= MAX_TABLE_SIZE,
        cells@.len() <= MAX_RENDERED_CHARS * MAX_TABLE_SIZE,
    ensures
        match r {
            Some(widths) => fitted_columns(columns, width, cells@) == Some(widths@) && widths@.len()
                == columns,
            None => fitted_columns(columns, width, cells@) is None,
        },
{
    let mut fit = termimad::TblFit::new(columns, width).ok()?;
    for cell in cells {
        fit.see_cell(cell.column, cell.width);
    }
    Some(fit.fit().col_widths)
}

/// Renders `text` as markdown at `width` columns with `termimad::FmtText::from`, in the
/// crate's default skin with every header aligned left, and writes the result out. The
/// escape sequences in the result follow the environment, so nothing is claimed of it.
///
/// The renderer reads the text line by line as `markdown_lines` has it, the lines between
/// two code fences as code. It numbers the items of each ordered list from the first
/// index on, in thirty-two bits. It fits each table to the width and wraps a cell that is
/// wider than its column, and from three columns on it wraps each line that is wider than
/// the width; to wrap, it first takes the room of the marker from the width it wraps to.
/// `renderable` leaves out every text and width on which the numbering goes beyond its
/// bound or a room is larger than that width.
#[verifier::external_body]
pub(crate) fn render_markdown(text: &str, width: usize) -> (r: String)
    requires
        width > 0,
        renderable(text@, width),
{
    let mut skin = termimad::MadSkin::default();
    for header in &mut skin.headers {
        header.align = termimad::Alignment::Left;
    }
    termimad::FmtText::from(&skin, text, Some(width)).to_string()
}

/// Once the renderer has gone out of its bounds on a line, it has done so on the text.
pub proof fn lemma_faulty_stays(lines: Seq<LineShape>, i: int, width: usize)
    requires
        0 <= i <= lines.len(),
        walk(lines.subrange(0, i), width).faulty,
    ensures
        walk(lines, width).faulty,
        !renders(lines, width),
    decreases lines.len() - i,
{
    if i == lines.len() {
        assert(lines.subrange(0, i) == lines);
    } else {
        assert(lines.drop_last().subrange(0, i) == lines.subrange(0, i));
        lemma_faulty_stays(lines.drop_last(), i, width);
    }
}

/// The number of decimal digits of `n`.
fn digit_count(n: u32) -> (r: usize)
    ensures
        r == decimal(n as nat).len(),
        1 <= r <= 10,
    decreases n,
{
    if n < 10 {
        1
    } else {
        let rest = digit_count(n / 10);
        assert(n / 10 < 1_000_000_000 ==> decimal((n / 10) as nat).len() <= 9) by {
            lemma_digits_below(n / 10);
        }
        rest + 1
    }
}

/// A number below a thousand million has at most nine digits.
proof fn lemma_digits_below(n: u32)
    requires
        n < 1_000_000_000,
    ensures
        decimal(n as nat).len() <= 9,
{
    reveal_with_fuel(decimal, 10);
}

/// The levels with no list being numbered.
fn fresh_runs() -> (r: Vec<Option<Run>>)
    ensures
        r@ == no_runs(),
{
    let mut runs: Vec<Option<Run>> = Vec::new();
    let mut i: usize = 0;
    while i < LEVELS
        invariant
            i <= LEVELS,
            runs@.len() == i,
            forall|k: int| 0 <= k < i ==> runs@[k] is None,
        decreases LEVELS - i,
    {
        runs.push(None);
        i += 1;
    }
    assert(runs@ =~= no_runs());
    runs
}

/// Tells whether the table that has been read makes the renderer go below zero.
fn table_fault(columns: usize, width: usize, cells: &Vec<Placed>) -> (r: bool)
    requires
        columns > 0,
        width > 0,
        columns <= MAX_TABLE_SIZE,
        forall|i: int| 0 <= i < cells@.len() ==> (#[trigger] cells@[i]).width <= MAX_TABLE_SIZE,
        cells@.len() <= MAX_RENDERED_CHARS * MAX_TABLE_SIZE,
    ensures
        r == table_faults(
            Walk {
                inside: false,
                runs: no_runs(),
                in_table: true,
                columns,
                cells: cells@,
                faulty: false,
            },
            width,
        ),
{
    let fitted = fit_columns(columns, width, cells);
    let mut i: usize = 0;
    match fitted {
        Some(widths) => {
            while i < cells.len()
                invariant
                    i <= cells.len(),
                    columns > 0 && width > 0,
                    fitted_columns(columns, width, cells@) == Some(widths@),
                    forall|k: int|
                        0 <= k < i ==> !((#[trigger] cells@[k]).column < widths@.len() && cells@[k].room
                            > widths@[cells@[k].column as int]),
                decreases cells.len() - i,
            {
                let column = cells[i].column;
                if column < widths.len() && cells[i].room > widths[column] {
                    return true;
                }
                i += 1;
            }
            false
        },
        None => {
            let kept = (width - 1) / 4;
            while i < cells.len()
                invariant
                    i <= cells.len(),
                    columns > 0 && width > 0,
                    fitted_columns(columns, width, cells@) is None,
                    kept == (width - 1) / 4,
                    forall|k: int|
                        0 <= k < i ==> !((#[trigger] cells@[k]).column < kept && cells@[k].room
                            > NARROW_COLUMN),
                decreases cells.len() - i,
            {
                if cells[i].column < kept && cells[i].room > NARROW_COLUMN {
                    return true;
                }
                i += 1;
            }
            false
        },
    }
}

/// Decides from the lines of a text whether the renderer stays within its bounds on it at
/// `width` columns.
pub fn takes(lines: &Vec<LineShape>, width: usize) -> (r: bool)
    requires
        bounded(lines@),
    ensures
        r == renders(lines@, width),
{
    let mut inside = false;
    let mut runs = fresh_runs();
    let mut in_list = false;
    let mut in_table = false;
    let mut columns: usize = 0;
    let mut cells: Vec<Placed> = Vec::new();
    let mut i: usize = 0;
    while i < lines.len()
        invariant
            i <= lines.len(),
            bounded(lines@),
            walk(lines@.subrange(0, i as int), width) == (Walk {
                inside,
                runs: runs@,
                in_table,
                columns,
                cells: cells@,
                faulty: false,
            }),
            runs@.len() == LEVELS,
            !in_list ==> runs@ == no_runs(),
            forall|k: int|
                0 <= k < LEVELS ==> match #[trigger] runs@[k] {
                    Some(run) => run.start + run.count <= u32::MAX,
                    None => true,
                },
            columns <= MAX_TABLE_SIZE,
            !in_table ==> columns == 0 && cells@.len() == 0,
            cells@.len() <= i * MAX_TABLE_SIZE,
            forall|k: int| 0 <= k < cells@.len() ==> (#[trigger] cells@[k]).width <= MAX_TABLE_SIZE,
        decreases lines.len() - i,
    {
        let ghost before = walk(lines@.subrange(0, i as int), width);
        proof {
            assert(lines@.subrange(0, i + 1).drop_last() == lines@.subrange(0, i as int));
            assert(lines@.subrange(0, i + 1).last() == lines@[i as int]);
        }
        let in_code = inside;
        match &lines[i] {
            LineShape::Fence => {
                inside = !inside;
            },
            LineShape::Row(row) if !in_code => {
                if in_list {
                    runs = fresh_runs();
                    in_list = false;
                }
                in_table = true;
                if row.len() > columns {
                    columns = row.len();
                }
                let mut j: usize = 0;
                while j < row.len()
                    invariant
                        j <= row.len(),
                        row@.len() <= MAX_TABLE_SIZE,
                        forall|k: int| 0 <= k < row@.len() ==> (#[trigger] row@[k]).width <= MAX_TABLE_SIZE,
                        cells@ == before.cells + placed(row@).subrange(0, j as int),
                        forall|k: int|
                            0 <= k < cells@.len() ==> (#[trigger] cells@[k]).width <= MAX_TABLE_SIZE,
                    decreases row.len() - j,
                {
                    cells.push(Placed { column: j, room: row[j].room, width: row[j].width });
                    proof {
                        assert(placed(row@).subrange(0, j + 1) == placed(row@).subrange(0, j as int).push(
                            placed(row@)[j as int],
                        ));
                    }
                    j += 1;
                }
                proof {
                    assert(placed(row@).subrange(0, row@.len() as int) == placed(row@));
                }
            },
            LineShape::Rule(count) if !in_code => {
                if in_list {
                    runs = fresh_runs();
                    in_list = false;
                }
                in_table = true;
                if *count > columns {
                    columns = *count;
                }
                proof {
                    assert(cells@ + Seq::<Placed>::empty() == cells@);
                }
            },
            other => {
                if in_table && columns > 0 && width > 0 && table_fault(columns, width, &cells) {
                    proof {
                        lemma_faulty_stays(lines@, i + 1, width);
                    }
                    return false;
                }
                in_table = false;
                columns = 0;
                cells = Vec::new();
                match other {
                    LineShape::Ordered(level, index) if !in_code => {
                        let level_at: usize = *level as usize;
                        let run = match &runs[level_at] {
                            Some(run) => Run { start: run.start, count: run.count + 1 },
                            None => Run { start: *index, count: 1 },
                        };
                        let starts = runs[level_at].is_none();
                        let ghost old_runs = runs@;
                        if run.start as u64 + run.count > 0xffff_ffff {
                            proof {
                                lemma_faulty_stays(lines@, i + 1, width);
                            }
                            return false;
                        }
                        let number: u32 = (run.start as u64 + run.count - 1) as u32;
                        let room = digit_count(number) + 2 + level_at;
                        if width >= MIN_WRAP_WIDTH && room > width {
                            proof {
                                lemma_faulty_stays(lines@, i + 1, width);
                            }
                            return false;
                        }
                        runs.set(level_at, Some(run));
                        if starts {
                            let mut k: usize = level_at + 1;
                            while k < LEVELS
                                invariant
                                    level_at < k <= LEVELS,
                                    runs@.len() == LEVELS,
                                    forall|m: int|
                                        0 <= m < LEVELS ==> #[trigger] runs@[m] == if m == level_at {
                                            Some(run)
                                        } else if level_at < m < k {
                                            None
                                        } else {
                                            old_runs[m]
                                        },
                                decreases LEVELS - k,
                            {
                                runs.set(k, None);
                                k += 1;
                            }
                        }
                        in_list = true;
                        proof {
                            assert(runs@ =~= ordered_line(before, *level, *index, width).runs);
                        }
                    },
                    LineShape::Plain(room) if !in_code => {
                        if width >= MIN_WRAP_WIDTH && *room > width {
                            proof {
                                lemma_faulty_stays(lines@, i + 1, width);
                            }
                            return false;
                        }
                        if in_list {
                            runs = fresh_runs();
                            in_list = false;
                        }
                    },
                    _ => {
                        if in_list {
                            runs = fresh_runs();
                            in_list = false;
                        }
                    },
                }
            },
        }
        i += 1;
    }
    proof {
        assert(lines@.subrange(0, lines@.len() as int) == lines@);
    }
    !(in_table && columns > 0 && width > 0 && table_fault(columns, width, &cells))
}

/// Decides whether the renderer is asked for `text` at `width` columns.
pub fn can_render(text: &str, width: usize) -> (r: bool)
    ensures
        r == renderable(text@, width),
{
    if text.unicode_len() >= MAX_RENDERED_CHARS {
        return false;
    }
    let lines = parse_lines(text);
    is_bounded(&lines) && takes(&lines, width)
}

/// Decides whether the tables of `lines` are of a size that the fitting of columns is
/// asked for.
pub fn is_bounded(lines: &Vec<LineShape>) -> (r: bool)
    ensures
        r == bounded(lines@),
{
    if lines.len() > MAX_RENDERED_CHARS {
        return false;
    }
    let mut i: usize = 0;
    while i < lines.len()
        invariant
            i <= lines.len(),
            lines@.len() <= MAX_RENDERED_CHARS,
            bounded(lines@.subrange(0, i as int)),
        decreases lines.len() - i,
    {
        let fits = match &lines[i] {
            LineShape::Row(row) => {
                let mut fits = row.len() <= MAX_TABLE_SIZE;
                let mut j: usize = 0;
                while fits && j < row.len()
                    invariant
                        j <= row.len(),
                        fits ==> row@.len() <= MAX_TABLE_SIZE && forall|k: int|
                            0 <= k < j ==> (#[trigger] row@[k]).width <= MAX_TABLE_SIZE,
                        !fits ==> !(row@.len() <= MAX_TABLE_SIZE && forall|k: int|
                            0 <= k < row@.len() ==> (#[trigger] row@[k]).width <= MAX_TABLE_SIZE),
                    decreases row.len() - j,
                {
                    if row[j].width > MAX_TABLE_SIZE {
                        fits = false;
                    }
                    j += 1;
                }
                fits
            },
            LineShape::Rule(columns) => *columns <= MAX_TABLE_SIZE,
            _ => true,
        };
        if !fits {
            assert(!bounded(lines@)) by {
                let _ = lines@[i as int];
            }
            return false;
        }
        proof {
            let now = lines@.subrange(0, i + 1);
            assert forall|k: int| 0 <= k < now.len() implies match #[trigger] now[k] {
                LineShape::Row(cells) => cells@.len() <= MAX_TABLE_SIZE && forall|j: int|
                    0 <= j < cells@.len() ==> (#[trigger] cells@[j]).width <= MAX_TABLE_SIZE,
                LineShape::Rule(columns) => columns <= MAX_TABLE_SIZE,
                _ => true,
            } by {
                if k < i {
                    assert(now[k] == lines@.subrange(0, i as int)[k]);
                }
            }
        }
        i += 1;
    }
    proof {
        assert(lines@.subrange(0, lines@.len() as int) == lines@);
    }
    true
}

} // verus!
