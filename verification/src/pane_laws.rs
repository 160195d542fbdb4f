//! What holds of the panes: where they are, how they scroll and what a copy takes.
use vstd::prelude::*;

use crate::layout;
use crate::layout::{Rect, Screen};
use crate::model::AppModel;
use crate::modes::ActivePane;
use crate::task_laws;
use crate::text;

verus! {

// ---------------------------------------------------------------------------
// What stays
// ---------------------------------------------------------------------------

/// Everything but the scrolling is the same.
pub open spec fn same_but_for_scrolling(after: AppModel, app: AppModel) -> bool {
    &&& after.active_pane == app.active_pane
    &&& after.show_reasoning == app.show_reasoning
    &&& after.running == app.running
    &&& after.process_id == app.process_id
    &&& after.request_counter == app.request_counter
    &&& after.show_attack_chain == app.show_attack_chain
    &&& after.terminal_size == app.terminal_size
    &&& after.toast == app.toast
    &&& after.transcript == app.transcript
    &&& after.pending_task == app.pending_task
    &&& task_laws::same_postures(after, app)
    &&& task_laws::same_composer(after, app)
    &&& task_laws::same_session(after, app)
}

// ---------------------------------------------------------------------------
// Findings
// ---------------------------------------------------------------------------

/// With the focus on the findings, a step down shows them from one row further on and a step up
/// from one row less, within sixteen bits. The transcript neither moves nor starts or stops
/// following, whatever it shows.
pub proof fn findings_scroll_by_one(app: AppModel, lines: Seq<Seq<char>>)
    requires
        app.active_pane == ActivePane::Findings,
        0 <= app.findings_scroll <= 65535,
    ensures
        ({
            let down = app.scroll_active_pane(true, lines);
            let up = app.scroll_active_pane(false, lines);
            &&& app.findings_scroll < 65535 ==> down.findings_scroll == app.findings_scroll + 1
            &&& app.findings_scroll == 65535 ==> down.findings_scroll == 65535
            &&& app.findings_scroll > 0 ==> up.findings_scroll == app.findings_scroll - 1
            &&& app.findings_scroll == 0 ==> up.findings_scroll == 0
            &&& task_laws::same_scroll(down, app)
            &&& task_laws::same_scroll(up, app)
            &&& same_but_for_scrolling(down, app)
            &&& same_but_for_scrolling(up, app)
        }),
{
}

/// With the focus on the findings, a step up undoes a step down and a step down undoes a step up,
/// wherever there was room for the first step.
pub proof fn findings_scroll_back(app: AppModel, lines: Seq<Seq<char>>, other: Seq<Seq<char>>)
    requires
        app.active_pane == ActivePane::Findings,
        0 <= app.findings_scroll <= 65535,
    ensures
        app.findings_scroll < 65535 ==> app.scroll_active_pane(true, lines).scroll_active_pane(
            false,
            other,
        ) == app,
        app.findings_scroll > 0 ==> app.scroll_active_pane(false, lines).scroll_active_pane(
            true,
            other,
        ) == app,
{
}

// ---------------------------------------------------------------------------
// The transcript
// ---------------------------------------------------------------------------

/// A step within a transcript goes by one row, stays between its first row and the last offset
/// that is of use or can be told in sixteen bits, and decides anew whether it follows: exactly if
/// the end is shown. The findings do not move.
pub proof fn transcript_scrolls_by_one(app: AppModel, max: int)
    requires
        0 <= max,
        0 <= app.transcript_scroll <= 65535,
    ensures
        ({
            let lowest = if max <= 65535 {
                max
            } else {
                65535
            };
            let down = app.scroll_transcript(true, max);
            let up = app.scroll_transcript(false, max);
            &&& down.transcript_scroll == (if app.transcript_scroll < lowest {
                app.transcript_scroll + 1
            } else {
                lowest
            })
            &&& up.transcript_scroll == (if app.transcript_scroll > lowest {
                lowest
            } else if app.transcript_scroll > 0 {
                app.transcript_scroll - 1
            } else {
                0
            })
            &&& down.transcript_follow <==> down.transcript_scroll == max
            &&& up.transcript_follow <==> up.transcript_scroll == max
            &&& down.findings_scroll == app.findings_scroll
            &&& up.findings_scroll == app.findings_scroll
            &&& same_but_for_scrolling(down, app)
            &&& same_but_for_scrolling(up, app)
        }),
{
}

/// With the focus elsewhere than on the findings it is the transcript that scrolls, within what
/// its lines need in its pane.
pub proof fn other_panes_scroll_the_transcript(app: AppModel, down: bool, lines: Seq<Seq<char>>)
    requires
        app.active_pane != ActivePane::Findings,
    ensures
        app.scroll_active_pane(down, lines) == app.scroll_transcript(
            down,
            app.transcript_max_scroll(lines),
        ),
{
}

/// While it follows, the transcript is put to the end, as far as sixteen bits can tell; while it
/// does not, it stays where it is.
pub proof fn following_shows_the_end(app: AppModel, max: int)
    ensures
        ({
            let after = app.follow_transcript(max);
            &&& !app.transcript_follow ==> after == app
            &&& app.transcript_follow ==> {
                &&& after.transcript_scroll == (if max <= 65535 {
                    max
                } else {
                    65535
                })
                &&& after.transcript_follow
                &&& after.findings_scroll == app.findings_scroll
                &&& same_but_for_scrolling(after, app)
            }
        }),
{
}

/// The last useful offset is where the last row stands at the bottom of the pane: with it no row
/// is left below, and with one less one is. A pane that shows nothing, or everything, has none.
pub proof fn the_last_offset_shows_the_last_row(panel: Rect, total: int)
    requires
        0 <= total,
    ensures
        ({
            let offset = layout::last_offset(panel, total);
            &&& panel.width < 3 || panel.height < 3 ==> offset == 0
            &&& panel.width >= 3 && panel.height >= 3 ==> {
                &&& 0 <= offset
                &&& total <= offset + panel.height
                &&& offset > 0 ==> total == offset + panel.height
            }
        }),
{
}

/// The transcript scrolls as far as its lines, wrapped at the inner width of its pane, reach
/// beyond that pane.
pub proof fn the_transcript_wraps_at_its_inner_width(panel: Rect, lines: Seq<Seq<char>>)
    ensures
        panel.width >= 3 && panel.height >= 3 ==> layout::last_offset_of(panel, lines)
            == layout::last_offset(
            panel,
            layout::wrapped_rows(lines, (panel.width - 2) as u16) as int,
        ),
        panel.width < 3 || panel.height < 3 ==> layout::last_offset_of(panel, lines) == 0,
{
}

// ---------------------------------------------------------------------------
// Where the panes are
// ---------------------------------------------------------------------------

/// The composer takes three rows while a task waits for its confirmation, seven while the palette
/// is shown, and one otherwise.
pub proof fn the_composer_grows_with_what_it_shows(app: AppModel)
    ensures
        app.pending_task is Some ==> app.composer_height() == 3,
        app.pending_task is None && app.palette_visible() ==> app.composer_height() == 7,
        app.pending_task is None && !app.palette_visible() ==> app.composer_height() == 1,
{
}

/// The header, the panes, the composer and the hotbar fill the height of the screen: the panes
/// begin below two rows of header, are as wide as the screen, and leave the composer and one row
/// for the hotbar below them.
pub proof fn rows_of_the_screen_are_shared_out(area: Rect, height: int)
    requires
        0 <= height,
        area.y + area.height <= 65535,
        height + 3 <= area.height,
    ensures
        ({
            let workbench = layout::workbench_area(area, height);
            &&& workbench.x == area.x
            &&& workbench.width == area.width
            &&& workbench.y == area.y + 2
            &&& 2 + workbench.height + height + 1 == area.height
        }),
{
}

/// A screen without room for the panes gives them no rows.
pub proof fn small_screens_show_no_panes(area: Rect, height: int)
    requires
        height + 3 > area.height,
    ensures
        layout::workbench_area(area, height).height == 0,
        layout::workbench_area(area, height).x == area.x,
        layout::workbench_area(area, height).width == area.width,
{
}

/// The panes begin two rows below the top of the screen, or at the largest coordinate, whatever
/// their height.
pub proof fn panes_begin_below_the_header(area: Rect, height: int)
    ensures
        layout::workbench_area(area, height).x == area.x,
        layout::workbench_area(area, height).width == area.width,
        area.y <= 65533 ==> layout::workbench_area(area, height).y == area.y + 2,
        area.y > 65533 ==> layout::workbench_area(area, height).y == 65535,
{
}

/// The panes share what the composer leaves of the screen, and the focused pane is the one that
/// has the focus.
pub proof fn the_focused_pane_is_one_of_the_panes(app: AppModel, area: Rect)
    ensures
        ({
            let panels = layout::panel_split(layout::workbench_area(area, app.composer_height()));
            &&& app.panels(area) == panels
            &&& app.active_pane == ActivePane::Workspace ==> app.active_pane_rect(area)
                == panels.workspace
            &&& app.active_pane == ActivePane::Transcript ==> app.active_pane_rect(area)
                == panels.transcript
            &&& app.active_pane == ActivePane::Findings ==> app.active_pane_rect(area)
                == panels.findings
        }),
{
}

/// How far the transcript scrolls depends on its own pane on the whole screen, whatever has the
/// focus.
pub proof fn the_transcript_scrolls_in_its_own_pane(app: AppModel, lines: Seq<Seq<char>>)
    ensures
        app.transcript_max_scroll(lines) == layout::last_offset_of(
            layout::panel_split(
                layout::workbench_area(app.terminal_size, app.composer_height()),
            ).transcript,
            lines,
        ),
{
}

/// A region ends where its cells end, or at the largest coordinate.
pub proof fn regions_end_behind_their_cells(rect: Rect)
    ensures
        rect.x + rect.width <= 65535 ==> rect.right_edge() == rect.x + rect.width,
        rect.x + rect.width > 65535 ==> rect.right_edge() == 65535,
        rect.y + rect.height <= 65535 ==> rect.bottom_edge() == rect.y + rect.height,
        rect.y + rect.height > 65535 ==> rect.bottom_edge() == 65535,
        layout::columns(rect) == rect.right_edge() - rect.x,
{
}

// ---------------------------------------------------------------------------
// The text of a region
// ---------------------------------------------------------------------------

/// A row reads from left to right: it is its left part and then its right part, and one cell of
/// it is the symbol that the screen holds there.
pub proof fn rows_read_from_left_to_right(
    screen: Screen,
    y: int,
    from: int,
    middle: int,
    to: int,
)
    requires
        from <= middle <= to,
    ensures
        layout::row_text(screen, y, from, to) == layout::row_text(screen, y, from, middle)
            + layout::row_text(screen, y, middle, to),
        layout::row_text(screen, y, from, from).len() == 0,
        layout::row_text(screen, y, from, from + 1) == layout::cell_text(screen, from, y),
    decreases to - middle,
{
    reveal_with_fuel(layout::row_text, 2);
    assert(layout::row_text(screen, y, from, from + 1) =~= layout::cell_text(screen, from, y));
    if middle < to {
        rows_read_from_left_to_right(screen, y, from, middle, to - 1);
        assert(layout::row_text(screen, y, from, to) =~= layout::row_text(screen, y, from, middle)
            + layout::row_text(screen, y, middle, to));
    } else {
        assert(layout::row_text(screen, y, middle, to) =~= seq![]);
        assert(layout::row_text(screen, y, from, to) =~= layout::row_text(screen, y, from, middle)
            + layout::row_text(screen, y, middle, to));
    }
}

/// The cells of a screen are held row by row.
pub proof fn cells_are_held_row_by_row(screen: Screen, x: int, y: int)
    requires
        0 <= x < screen.width,
        0 <= y < screen.height,
        screen.cells@.len() == screen.width * screen.height,
    ensures
        0 <= y * screen.width + x < screen.cells@.len(),
        layout::cell_text(screen, x, y) == screen.cells@[y * screen.width + x]@,
{
    assert(0 <= y * screen.width + x < screen.width * screen.height) by (nonlinear_arith)
        requires
            0 <= x < screen.width,
            0 <= y < screen.height,
    ;
}

/// Where the screen holds no cell there is no symbol.
pub proof fn missing_cells_show_nothing(screen: Screen, x: int, y: int)
    requires
        y * screen.width + x < 0 || y * screen.width + x >= screen.cells@.len(),
    ensures
        layout::cell_text(screen, x, y).len() == 0,
{
}

/// The text of a region is the text of its rows that are on the screen, from top to bottom: of each
/// row the part that lies in the region and on the screen, without the white space at its end, and
/// a line break.
pub proof fn regions_read_from_top_to_bottom(screen: Screen, rect: Rect, y: int)
    requires
        rect.y <= y < rect.y + rect.height,
        y < screen.height,
        rect.y + rect.height <= 65535,
        rect.x + rect.width <= 65535,
    ensures
        ({
            let right = if rect.x + rect.width <= screen.width {
                rect.x + rect.width
            } else {
                screen.width as int
            };
            let bottom = if rect.y + rect.height <= screen.height {
                rect.y + rect.height
            } else {
                screen.height as int
            };
            &&& layout::region_text(screen, rect) == layout::lines_text(screen, rect, bottom)
            &&& layout::lines_text(screen, rect, rect.y as int).len() == 0
            &&& layout::lines_text(screen, rect, y + 1) == layout::lines_text(screen, rect, y)
                + text::trimmed_end(layout::row_text(screen, y, rect.x as int, right)) + seq!['\n']
        }),
{
}

/// A region below the screen shows nothing.
pub proof fn regions_below_the_screen_show_nothing(screen: Screen, rect: Rect)
    requires
        screen.height <= rect.y || rect.height == 0,
    ensures
        layout::region_text(screen, rect).len() == 0,
{
}

// ---------------------------------------------------------------------------
// Copying
// ---------------------------------------------------------------------------

/// A copy takes the text of the focused pane. It takes none without a known size or a rendered
/// screen, and then says which of them is missing; otherwise it says nothing yet.
pub proof fn copies_take_the_focused_pane(app: AppModel, rendered: Option<Screen>)
    ensures
        ({
            let sized = app.terminal_size.width > 0 && app.terminal_size.height > 0;
            &&& app.copied_text(rendered) is Some <==> sized && rendered is Some
            &&& app.copied_text(rendered) matches Some(copied) ==> copied == layout::region_text(
                rendered->Some_0,
                app.active_pane_rect(app.terminal_size),
            )
            &&& app.copy_active_pane(rendered).toast == (if !sized {
                "Copy unavailable: terminal size unknown"@
            } else if rendered is None {
                "Copy failed: cannot render pane"@
            } else {
                app.toast
            })
            &&& app.copy_active_pane(rendered) == (AppModel {
                toast: app.copy_active_pane(rendered).toast,
                ..app
            })
        }),
{
}

/// What the clipboard did is told: a copy that was delivered with the name of the pane and the
/// number of its characters, and one that was not as such.
pub proof fn copies_are_told(app: AppModel, copied: Seq<char>)
    ensures
        app.finish_copy(copied, true) == (AppModel {
            toast: "Copied "@ + (match app.active_pane {
                ActivePane::Workspace => "Workspace"@,
                ActivePane::Transcript => "Session transcript"@,
                ActivePane::Findings => "Findings inspector"@,
            }) + " to clipboard ("@ + text::decimal(copied.len()) + " chars)"@,
            ..app
        }),
        app.finish_copy(copied, false) == (AppModel {
            toast: "Copy failed: clipboard unavailable"@,
            ..app
        }),
{
}

} // verus!
