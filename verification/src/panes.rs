//! The panes of the workbench: where they stand, how they scroll, what a copy takes.
use vstd::prelude::*;

use crate::app::App;
use crate::layout;
use crate::layout::{Panels, Rect, Screen};
use crate::model;
use crate::modes::ActivePane;
use crate::text;

verus! {

/// A scroll offset one step down or up.
fn step(offset: u16, down: bool) -> (moved: u16)
    ensures
        moved == model::stepped(offset as int, down),
{
    if down {
        if offset < u16::MAX {
            offset + 1
        } else {
            u16::MAX
        }
    } else {
        if offset > 0 {
            offset - 1
        } else {
            0
        }
    }
}

/// The offset that shows the end of a transcript, as far as 16 bits go.
fn lowest(max: usize) -> (offset: u16)
    ensures
        offset == model::lowest_offset(max as int),
{
    if max < u16::MAX as usize {
        max as u16
    } else {
        u16::MAX
    }
}

impl App {
    /// The height of the composer: the confirmation, the palette, or a single line.
    fn composer_height(&self) -> (height: u16)
        ensures
            height == self@.composer_height(),
            height <= 7,
    {
        if self.pending_task.is_some() {
            3
        } else if self.palette_visible() {
            7
        } else {
            1
        }
    }

    /// The panes on a screen of the given area.
    fn panels(&self, area: Rect) -> (panels: Panels)
        ensures
            panels == self@.panels(area),
            layout::side_by_side(
                panels,
                layout::workbench_area(area, self@.composer_height()),
            ),
    {
        layout::workbench_panels(area, self.composer_height())
    }

    /// The region of the transcript pane on the terminal, whichever pane has the focus.
    pub fn transcript_panel_rect(&self) -> (rect: Rect)
        ensures
            rect == self@.panels(self.terminal_size).transcript,
            layout::side_by_side(
                self@.panels(self.terminal_size),
                layout::workbench_area(self.terminal_size, self@.composer_height()),
            ),
    {
        self.panels(self.terminal_size).transcript
    }

    /// The region of the focused pane on a screen of the given area.
    pub fn active_pane_rect(&self, area: Rect) -> (rect: Rect)
        ensures
            rect == self@.active_pane_rect(area),
            layout::side_by_side(
                self@.panels(area),
                layout::workbench_area(area, self@.composer_height()),
            ),
    {
        self.panels(area).region(self.active_pane)
    }

    /// The largest useful scroll offset of a transcript that is shown as `lines`: the
    /// wrapped rows that the pane has no room for.
    pub fn transcript_max_scroll(&self, lines: &Vec<String>) -> (offset: usize)
        requires
            self@.transcript_countable(text::texts(lines@)),
        ensures
            offset == self@.transcript_max_scroll(text::texts(lines@)),
    {
        layout::max_offset(self.transcript_panel_rect(), lines)
    }

    /// Scrolls a transcript whose largest useful offset is `max` by one row. Reaching the
    /// bottom resumes following; leaving it ends following.
    pub fn scroll_transcript(&mut self, down: bool, max: usize)
        ensures
            final(self)@ == old(self)@.scroll_transcript(down, max as int),
    {
        let moved = step(self.transcript_scroll, down);
        self.transcript_scroll = if moved > lowest(max) {
            lowest(max)
        } else {
            moved
        };
        self.transcript_follow = self.transcript_scroll as usize >= max;
    }

    /// Scrolls the focused pane by one row. Only the findings scroll on their own; with any
    /// other focus the transcript, shown as `lines`, scrolls.
    pub fn scroll_active_pane(&mut self, down: bool, lines: &Vec<String>)
        requires
            old(self).active_pane != ActivePane::Findings ==> old(self)@.transcript_countable(
                text::texts(lines@),
            ),
        ensures
            final(self)@ == old(self)@.scroll_active_pane(down, text::texts(lines@)),
    {
        match self.active_pane {
            ActivePane::Findings => {
                self.findings_scroll = step(self.findings_scroll, down);
            },
            _ => {
                let max = self.transcript_max_scroll(lines);
                self.scroll_transcript(down, max);
            },
        }
    }

    /// Pins a transcript whose largest useful offset is `max` to its end, while it follows.
    pub fn follow_transcript(&mut self, max: usize)
        ensures
            final(self)@ == old(self)@.follow_transcript(max as int),
    {
        if self.transcript_follow {
            self.transcript_scroll = lowest(max);
        }
    }

    /// Keeps the transcript, shown as `lines`, pinned to the newest output while it follows.
    pub fn autoscroll_transcript(&mut self, lines: &Vec<String>)
        requires
            old(self).transcript_follow ==> old(self)@.transcript_countable(text::texts(lines@)),
        ensures
            final(self)@ == old(self)@.follow_transcript(
                old(self)@.transcript_max_scroll(text::texts(lines@)),
            ),
    {
        if self.transcript_follow {
            let max = self.transcript_max_scroll(lines);
            self.follow_transcript(max);
        }
    }

    /// Takes the text of the focused pane, and of no other, out of the rendered screen. A
    /// text that comes back goes to the clipboard, and [`App::finish_copy`] is told what
    /// became of it.
    pub fn copy_active_pane(&mut self, rendered: Option<&Screen>) -> (copied: Option<String>)
        ensures
            final(self)@ == old(self)@.copy_active_pane(
                match rendered {
                    Some(screen) => Some(*screen),
                    None => None,
                },
            ),
            text::opt_text(copied) == old(self)@.copied_text(
                match rendered {
                    Some(screen) => Some(*screen),
                    None => None,
                },
            ),
    {
        let area = self.terminal_size;
        if area.width == 0 || area.height == 0 {
            self.toast = "Copy unavailable: terminal size unknown".to_owned();
            return None;
        }
        match rendered {
            None => {
                self.toast = "Copy failed: cannot render pane".to_owned();
                None
            },
            Some(screen) => {
                let rect = self.active_pane_rect(area);
                Some(layout::extract_rect_text(screen, rect))
            },
        }
    }

    /// Tells the user what the clipboard did with the copied text.
    pub fn finish_copy(&mut self, text: &str, delivered: bool)
        ensures
            final(self)@ == old(self)@.finish_copy(text@, delivered),
    {
        if delivered {
            let count = text::chars_of(text).len();
            let numeral = text::numeral(count as u64);
            self.toast = text::glue5(
                "Copied ",
                self.active_pane_label(),
                " to clipboard (",
                numeral.as_str(),
                " chars)",
            );
        } else {
            self.toast = "Copy failed: clipboard unavailable".to_owned();
        }
    }
}

} // verus!
