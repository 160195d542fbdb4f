//! Screen regions: where the panes are, how far text scrolls, what a region shows.
use ratatui::layout::{Constraint, Direction, Layout};
use ratatui::text::Line;
use ratatui::widgets::{Block, Borders, Paragraph, Wrap};
use vstd::prelude::*;

use crate::modes::ActivePane;
use crate::text;

verus! {

/// A rectangle of screen cells.
#[derive(Clone, Copy, Debug, PartialEq, Eq, Structural)]
pub struct Rect {
    pub x: u16,
    pub y: u16,
    pub width: u16,
    pub height: u16,
}

impl Rect {
    /// The column behind the rectangle.
    pub open spec fn right_edge(self) -> int {
        if self.x + self.width <= u16::MAX {
            self.x + self.width
        } else {
            u16::MAX as int
        }
    }

    /// The row below the rectangle.
    pub open spec fn bottom_edge(self) -> int {
        if self.y + self.height <= u16::MAX {
            self.y + self.height
        } else {
            u16::MAX as int
        }
    }

    /// A rectangle, cut off at the largest coordinate.
    pub fn new(x: u16, y: u16, width: u16, height: u16) -> (rect: Rect)
        ensures
            rect.x == x,
            rect.y == y,
            rect.width == (if x + width <= u16::MAX {
                width as int
            } else {
                u16::MAX - x
            }),
            rect.height == (if y + height <= u16::MAX {
                height as int
            } else {
                u16::MAX - y
            }),
    {
        Rect {
            x,
            y,
            width: x.saturating_add(width) - x,
            height: y.saturating_add(height) - y,
        }
    }

    /// The column behind the rectangle.
    pub fn right(&self) -> (column: u16)
        ensures
            column == self.right_edge(),
    {
        self.x.saturating_add(self.width)
    }

    /// The row below the rectangle.
    pub fn bottom(&self) -> (row: u16)
        ensures
            row == self.bottom_edge(),
    {
        self.y.saturating_add(self.height)
    }
}

impl Default for Rect {
    fn default() -> (rect: Self)
        ensures
            rect == (Rect { x: 0, y: 0, width: 0, height: 0 }),
    {
        Rect { x: 0, y: 0, width: 0, height: 0 }
    }
}

// ---------------------------------------------------------------------------
// The panes of the workbench
// ---------------------------------------------------------------------------

/// The three panes of the workbench, from left to right.
#[derive(Clone, Copy, Debug, PartialEq, Eq, Structural)]
pub struct Panels {
    pub workspace: Rect,
    pub transcript: Rect,
    pub findings: Rect,
}

/// How `ratatui` splits `area` into the three panes.
pub uninterp spec fn panel_split(area: Rect) -> Panels;

/// The number of columns of `area` that exist.
pub open spec fn columns(area: Rect) -> int {
    area.right_edge() - area.x
}

/// The panes stand side by side inside `area`, from its left edge on, each as high as it,
/// without overlap. Where there is room, the outer panes have their fixed widths and the
/// transcript takes the rest.
pub open spec fn side_by_side(panels: Panels, area: Rect) -> bool {
    &&& panels.workspace.y == area.y && panels.workspace.height == area.height
    &&& panels.transcript.y == area.y && panels.transcript.height == area.height
    &&& panels.findings.y == area.y && panels.findings.height == area.height
    &&& panels.workspace.x == area.x
    &&& panels.workspace.x + panels.workspace.width <= panels.transcript.x
    &&& panels.transcript.x + panels.transcript.width <= panels.findings.x
    &&& panels.findings.x + panels.findings.width <= area.right_edge()
    &&& columns(area) >= 104 ==> {
        &&& panels.workspace.width == 28
        &&& panels.transcript.width == columns(area) - 68
        &&& panels.findings.width == 40
    }
}

/// Splits `area` with `ratatui::layout::Layout::split`: horizontally, into 28 columns, at
/// least 36 columns, and 40 columns. There is one region for each of these, in this order;
/// they are a function of the area and are named [`panel_split`]. The solver keeps every
/// segment inside the area and each segment's start before its end, without spacing before
/// the first or between neighbours, and every segment takes the rows of the area: so the
/// panes stand side by side. From 104 columns on all three sizes can be met, and the segment
/// with a minimum grows before anything else does.
#[verifier::external_body]
fn split_area(area: Rect) -> (rects: Vec<Rect>)
    ensures
        rects@ == seq![
            panel_split(area).workspace,
            panel_split(area).transcript,
            panel_split(area).findings,
        ],
        side_by_side(
            (Panels { workspace: rects@[0], transcript: rects@[1], findings: rects@[2] }),
            area,
        ),
{
    let Rect { x, y, width, height } = area;
    Layout::default()
        .direction(Direction::Horizontal)
        .constraints([Constraint::Length(28), Constraint::Min(36), Constraint::Length(40)])
        .split(ratatui::layout::Rect { x, y, width, height })
        .iter()
        .map(|r| Rect { x: r.x, y: r.y, width: r.width, height: r.height })
        .collect()
}

/// The part of `area` that the panes share, below the header and above a composer of the
/// given height and the hotbar.
pub open spec fn workbench_area(area: Rect, composer_height: int) -> Rect {
    Rect {
        x: area.x,
        y: if area.y + 2 <= u16::MAX {
            (area.y + 2) as u16
        } else {
            u16::MAX
        },
        width: area.width,
        height: if area.height >= composer_height + 3 {
            (area.height - composer_height - 3) as u16
        } else {
            0
        },
    }
}

/// The panes of the workbench on a screen of the given area.
pub fn workbench_panels(area: Rect, composer_height: u16) -> (panels: Panels)
    requires
        composer_height <= u16::MAX - 3,
    ensures
        panels == panel_split(workbench_area(area, composer_height as int)),
        side_by_side(panels, workbench_area(area, composer_height as int)),
{
    let workbench = Rect {
        x: area.x,
        y: area.y.saturating_add(2),
        width: area.width,
        height: area.height.saturating_sub(2 + composer_height + 1),
    };
    let rects = split_area(workbench);
    Panels { workspace: rects[0], transcript: rects[1], findings: rects[2] }
}

impl Panels {
    /// The region of a pane.
    pub open spec fn region_of(self, pane: ActivePane) -> Rect {
        match pane {
            ActivePane::Workspace => self.workspace,
            ActivePane::Transcript => self.transcript,
            ActivePane::Findings => self.findings,
        }
    }

    /// The region of a pane.
    pub fn region(&self, pane: ActivePane) -> (rect: Rect)
        ensures
            rect == self.region_of(pane),
    {
        match pane {
            ActivePane::Workspace => self.workspace,
            ActivePane::Transcript => self.transcript,
            ActivePane::Findings => self.findings,
        }
    }
}

// ---------------------------------------------------------------------------
// Scrolling
// ---------------------------------------------------------------------------

/// The number of rows that `ratatui` needs to show `lines` word-wrapped inside a border at
/// the given width, the border included.
pub uninterp spec fn wrapped_rows(lines: Seq<Seq<char>>, width: u16) -> usize;

/// A width in columns, or a length in characters, up to which text can be wrapped.
pub const WRAP_LIMIT: u16 = 16383;

/// `lines` can be wrapped at `width`: either the width is within the limit, or every line is.
pub open spec fn wrappable(lines: Seq<Seq<char>>, width: int) -> bool {
    ||| width <= WRAP_LIMIT
    ||| forall|i: int| 0 <= i < lines.len() ==> (#[trigger] lines[i]).len() <= WRAP_LIMIT
}

/// Counts rows with `ratatui::widgets::Paragraph::line_count`, for a paragraph of `lines`
/// that wraps without trimming inside a full border. The result is a function of the lines
/// and the width and is named [`wrapped_rows`]; nothing more is claimed of it. The word
/// wrapper adds up column widths in 16 bits: those of symbols that are pending, which come to
/// less than four times the width, and which are symbols of one line, of at most three
/// columns for each character. Both sums fit within the limit that is required here.
#[verifier::external_body]
fn count_rows(lines: &Vec<String>, width: u16) -> (rows: usize)
    requires
        wrappable(text::texts(lines@), width as int),
    ensures
        rows == wrapped_rows(text::texts(lines@), width),
{
    Paragraph::new(lines.iter().map(|line| Line::from(line.as_str())).collect::<Vec<_>>())
        .wrap(Wrap { trim: false })
        .block(Block::default().borders(Borders::ALL))
        .line_count(width)
}

/// A panel is too small to show any text inside its border.
pub open spec fn shows_nothing(panel: Rect) -> bool {
    panel.width < 3 || panel.height < 3
}

/// The largest useful scroll offset for `total_rows` rows in `panel`.
pub open spec fn last_offset(panel: Rect, total_rows: int) -> int {
    if shows_nothing(panel) || total_rows <= panel.height {
        0
    } else {
        total_rows - panel.height
    }
}

/// The largest useful scroll offset for `total_rows` rows in `panel`.
pub fn bottom_offset(panel: Rect, total_rows: usize) -> (offset: usize)
    ensures
        offset == last_offset(panel, total_rows as int),
{
    if panel.width < 3 || panel.height < 3 {
        0
    } else {
        total_rows.saturating_sub(panel.height as usize)
    }
}

/// The largest useful scroll offset for `lines` in `panel`.
pub open spec fn last_offset_of(panel: Rect, lines: Seq<Seq<char>>) -> int {
    if shows_nothing(panel) {
        0
    } else {
        last_offset(panel, wrapped_rows(lines, (panel.width - 2) as u16) as int)
    }
}

/// The largest useful scroll offset for `lines` in `panel`.
pub fn max_offset(panel: Rect, lines: &Vec<String>) -> (offset: usize)
    requires
        shows_nothing(panel) || wrappable(text::texts(lines@), panel.width - 2),
    ensures
        offset == last_offset_of(panel, text::texts(lines@)),
{
    if panel.width < 3 || panel.height < 3 {
        return 0;
    }
    let rows = count_rows(lines, panel.width - 2);
    bottom_offset(panel, rows)
}

// ---------------------------------------------------------------------------
// The text of a region
// ---------------------------------------------------------------------------

/// A rendered screen: the symbol of every cell, row by row.
#[derive(Clone, Debug)]
pub struct Screen {
    pub width: u16,
    pub height: u16,
    pub cells: Vec<String>,
}

/// The symbol at a cell, or nothing where the screen holds no such cell.
pub open spec fn cell_text(screen: Screen, x: int, y: int) -> Seq<char> {
    let index = y * screen.width + x;
    if 0 <= index < screen.cells@.len() {
        screen.cells@[index]@
    } else {
        seq![]
    }
}

/// The symbols of a row, from column `from` up to column `to`.
pub open spec fn row_text(screen: Screen, y: int, from: int, to: int) -> Seq<char>
    decreases to - from,
{
    if to <= from {
        seq![]
    } else {
        row_text(screen, y, from, to - 1) + cell_text(screen, to - 1, y)
    }
}

/// The column at which a region ends on the screen.
pub open spec fn visible_right(screen: Screen, rect: Rect) -> int {
    if rect.right_edge() <= screen.width {
        rect.right_edge()
    } else {
        screen.width as int
    }
}

/// The row at which a region ends on the screen.
pub open spec fn visible_bottom(screen: Screen, rect: Rect) -> int {
    if rect.bottom_edge() <= screen.height {
        rect.bottom_edge()
    } else {
        screen.height as int
    }
}

/// The lines of a region, from its top up to row `to`: each without trailing white space
/// and ended by a line break.
pub open spec fn lines_text(screen: Screen, rect: Rect, to: int) -> Seq<char>
    decreases to - rect.y,
{
    if to <= rect.y {
        seq![]
    } else {
        lines_text(screen, rect, to - 1) + text::trimmed_end(
            row_text(screen, to - 1, rect.x as int, visible_right(screen, rect)),
        ) + seq!['\n']
    }
}

/// The text that a region shows.
pub open spec fn region_text(screen: Screen, rect: Rect) -> Seq<char> {
    lines_text(screen, rect, visible_bottom(screen, rect))
}

/// Extracts the visible text of a rectangular screen region.
pub fn extract_rect_text(screen: &Screen, rect: Rect) -> (shown: String)
    ensures
        shown@ == region_text(*screen, rect),
{
    let mut right = rect.right();
    if screen.width < right {
        right = screen.width;
    }
    let mut bottom = rect.bottom();
    if screen.height < bottom {
        bottom = screen.height;
    }
    let mut out = String::new();
    let mut y: u16 = rect.y;
    while y < bottom
        invariant
            bottom == visible_bottom(*screen, rect),
            right == visible_right(*screen, rect),
            rect.y <= y,
            y <= bottom || y == rect.y,
            out@ == lines_text(*screen, rect, y as int),
        decreases bottom - y,
    {
        let mut line = String::new();
        let mut x: u16 = rect.x;
        while x < right
            invariant
                right == visible_right(*screen, rect),
                rect.x <= x,
                x <= right || x == rect.x,
                line@ == row_text(*screen, y as int, rect.x as int, x as int),
            decreases right - x,
        {
            assert(0 <= y * screen.width <= 65535 * 65535) by (nonlinear_arith)
                requires
                    0 <= y <= 65535,
                    0 <= screen.width <= 65535,
            ;
            let index: u32 = y as u32 * screen.width as u32 + x as u32;
            let index: usize = index as usize;
            if index < screen.cells.len() {
                line.append(screen.cells[index].as_str());
            } else {
                assert(line@ + seq![] =~= line@);
            }
            x += 1;
        }
        proof {
            if right < rect.x {
                assert(row_text(*screen, y as int, rect.x as int, right as int) =~= line@);
            }
        }
        let shown = text::trim_end(line.as_str());
        let ghost before = out@;
        out.append(shown.as_str());
        out.push('\n');
        assert(out@ =~= before + shown@ + seq!['\n']);
        y += 1;
    }
    proof {
        if bottom < rect.y {
            assert(lines_text(*screen, rect, bottom as int) =~= out@);
        }
    }
    out
}

// ---------------------------------------------------------------------------
// Laws
// ---------------------------------------------------------------------------

/// A cell lies inside a region.
pub open spec fn inside(rect: Rect, x: int, y: int) -> bool {
    rect.x <= x < rect.right_edge() && rect.y <= y < rect.bottom_edge()
}

/// Two screens of one size show the same symbols inside a region.
pub open spec fn agree_inside(a: Screen, b: Screen, rect: Rect) -> bool {
    &&& a.width == b.width
    &&& a.height == b.height
    &&& forall|x: int, y: int|
        inside(rect, x, y) && x < a.width && y < a.height ==> #[trigger] cell_text(a, x, y)
            == cell_text(b, x, y)
}

/// A row of a region shows the cells of that region alone.
proof fn lemma_rows_agree(a: Screen, b: Screen, rect: Rect, y: int, to: int)
    requires
        agree_inside(a, b, rect),
        rect.y <= y < visible_bottom(a, rect),
        to <= visible_right(a, rect),
    ensures
        row_text(a, y, rect.x as int, to) == row_text(b, y, rect.x as int, to),
    decreases to - rect.x,
{
    if to > rect.x {
        lemma_rows_agree(a, b, rect, y, to - 1);
        assert(inside(rect, to - 1, y));
        assert(cell_text(a, to - 1, y) == cell_text(b, to - 1, y));
    }
}

/// The lines of a region show the cells of that region alone.
proof fn lemma_lines_agree(a: Screen, b: Screen, rect: Rect, to: int)
    requires
        agree_inside(a, b, rect),
        to <= visible_bottom(a, rect),
    ensures
        lines_text(a, rect, to) == lines_text(b, rect, to),
    decreases to - rect.y,
{
    if to > rect.y {
        lemma_lines_agree(a, b, rect, to - 1);
        lemma_rows_agree(a, b, rect, to - 1, visible_right(a, rect));
    }
}

/// The text of a region depends on the cells inside the region alone.
pub proof fn region_text_depends_on_its_cells(a: Screen, b: Screen, rect: Rect)
    requires
        agree_inside(a, b, rect),
    ensures
        region_text(a, rect) == region_text(b, rect),
{
    lemma_lines_agree(a, b, rect, visible_bottom(a, rect));
}

/// No cell lies in two panes of a workbench.
pub proof fn panes_never_overlap(panels: Panels, area: Rect, x: int, y: int)
    requires
        side_by_side(panels, area),
    ensures
        !(inside(panels.workspace, x, y) && inside(panels.transcript, x, y)),
        !(inside(panels.transcript, x, y) && inside(panels.findings, x, y)),
        !(inside(panels.workspace, x, y) && inside(panels.findings, x, y)),
{
}

/// The panes are laid out from left to right below the header, none over another. Where there
/// is room for all of them, every cell of the workbench lies in exactly one pane, and no pane
/// spans the screen.
pub proof fn panes_partition_the_workbench(panels: Panels, area: Rect, composer_height: int)
    requires
        side_by_side(panels, workbench_area(area, composer_height)),
    ensures
        ({
            let workbench = workbench_area(area, composer_height);
            &&& panels.workspace.x == area.x
            &&& panels.workspace.right_edge() <= panels.transcript.x
            &&& panels.transcript.right_edge() <= panels.findings.x
            &&& panels.findings.right_edge() <= area.right_edge()
            &&& forall|pane: ActivePane|
                (#[trigger] panels.region_of(pane)).y == workbench.y && panels.region_of(
                    pane,
                ).height == workbench.height
            &&& columns(area) >= 104 ==> forall|pane: ActivePane|
                (#[trigger] panels.region_of(pane)).width < columns(area)
            &&& columns(area) >= 104 ==> forall|x: int, y: int| #[trigger]
                inside(workbench, x, y) ==> {
                    let in_workspace = inside(panels.workspace, x, y);
                    let in_transcript = inside(panels.transcript, x, y);
                    let in_findings = inside(panels.findings, x, y);
                    ||| in_workspace && !in_transcript && !in_findings
                    ||| !in_workspace && in_transcript && !in_findings
                    ||| !in_workspace && !in_transcript && in_findings
                }
        }),
{
}

} // verus!
