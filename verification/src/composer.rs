//! The composer: cursor editing and the command history.
use vstd::prelude::*;

use crate::app::App;
use crate::model;
use crate::model::MAX_COMMAND_HISTORY;
use crate::text;

verus! {

broadcast use text::lemma_texts_push;

/// `s` without line breaks.
fn drop_breaks(s: &str) -> (kept: String)
    ensures
        kept@ == model::without_breaks(s@),
{
    let chars = text::chars_of(s);
    let mut kept = String::new();
    let mut i: usize = 0;
    assert(s@.take(0) =~= seq![]);
    while i < chars.len()
        invariant
            chars@ == s@,
            i <= chars@.len(),
            kept@ == model::without_breaks(s@.take(i as int)),
        decreases chars@.len() - i,
    {
        let c = chars[i];
        proof {
            assert(s@.take(i + 1).drop_last() =~= s@.take(i as int));
            assert(s@.take(i + 1).last() == c);
        }
        if c != '\r' && c != '\n' {
            kept.push(c);
        }
        i += 1;
    }
    assert(s@.take(i as int) =~= s@);
    kept
}

/// A cursor between characters is the length of what stands before it.
pub proof fn lemma_cursor(s: Seq<char>, cursor: int)
    requires
        text::on_boundary(s, cursor),
    ensures
        0 <= text::caret(s, cursor) <= s.len(),
        cursor == text::byte_len(s.take(text::caret(s, cursor))),
        cursor == 0 <==> text::caret(s, cursor) == 0,
        cursor < text::byte_len(s) <==> text::caret(s, cursor) < s.len(),
{
    let k = text::caret(s, cursor);
    text::lemma_caret_range(s, cursor);
    text::lemma_offset_increases(s, 0, k);
    text::lemma_offset_increases(s, k, s.len() as int);
    assert(s.take(0) =~= seq![]);
    assert(s.take(s.len() as int) =~= s);
}

/// The end of a prefix is a place between characters.
pub proof fn lemma_boundary_behind(front: Seq<char>, rest: Seq<char>)
    ensures
        text::on_boundary(front + rest, text::byte_len(front) as int),
        text::caret(front + rest, text::byte_len(front) as int) == front.len(),
{
    let whole = front + rest;
    assert(whole.take(front.len() as int) =~= front);
    text::lemma_caret_of_offset(whole, front.len() as int);
}

/// A composer whose cursor stands behind everything is well formed.
pub proof fn lemma_cursor_at_end(input: Seq<char>)
    ensures
        text::on_boundary(input, text::byte_len(input) as int),
        text::caret(input, text::byte_len(input) as int) == input.len(),
{
    lemma_boundary_behind(input, seq![]);
    assert(input + seq![] =~= input);
}

/// Makes `command` the latest entry of `history`.
fn remember(history: &mut Vec<String>, command: &str)
    ensures
        text::texts(final(history)@) == model::remembered(text::texts(old(history)@), command@),
{
    let count = history.len();
    if count > 0 && text::same_text(history[count - 1].as_str(), command) {
        return;
    }
    history.push(command.to_owned());
    if history.len() > MAX_COMMAND_HISTORY {
        let ghost longer = history@;
        history.remove(0);
        assert(text::texts(history@) =~= text::texts(longer).drop_first());
    }
}

impl App {
    /// Leaves the command history.
    pub fn clear_history_navigation(&mut self)
        ensures
            final(self)@ == old(self)@.clear_history_navigation(),
    {
        self.history_index = None;
        self.history_draft = String::new();
        assert(self.history_draft@ =~= seq![]);
    }

    /// Puts `input` into the composer, with the cursor behind it.
    pub fn set_input(&mut self, input: String)
        ensures
            final(self)@ == old(self)@.set_input(input@),
            text::on_boundary(final(self)@.input, final(self)@.input_cursor),
    {
        self.input_cursor = text::byte_length(input.as_str());
        self.input = input;
        self.palette_selection = 0;
        proof {
            lemma_cursor_at_end(input@);
        }
    }

    /// Types one character at the cursor.
    pub fn append_input(&mut self, character: char)
        requires
            model::without_breaks(seq![character]).len() > 0 ==> text::on_boundary(
                old(self)@.input,
                old(self)@.input_cursor,
            ),
        ensures
            final(self)@ == old(self)@.insert_text(seq![character]),
            text::on_boundary(old(self)@.input, old(self)@.input_cursor)
                ==> final(self)@.well_formed(),
    {
        let mut typed = String::new();
        typed.push(character);
        assert(typed@ =~= seq![character]);
        self.insert_text(typed.as_str());
    }

    /// Empties the composer.
    pub fn clear_composer(&mut self)
        ensures
            final(self)@ == old(self)@.clear_composer(),
            final(self)@.well_formed(),
    {
        self.input = String::new();
        self.input_cursor = 0;
        self.palette_selection = 0;
        self.clear_history_navigation();
        proof {
            assert(self.input@ =~= seq![]);
            lemma_cursor_at_end(seq![]);
        }
    }

    /// Inserts `text` at the cursor. Line breaks are dropped, so that a pasted text never
    /// submits more than one command.
    pub fn insert_text(&mut self, text: &str)
        requires
            model::without_breaks(text@).len() > 0 ==> text::on_boundary(
                old(self)@.input,
                old(self)@.input_cursor,
            ),
        ensures
            final(self)@ == old(self)@.insert_text(text@),
            text::on_boundary(old(self)@.input, old(self)@.input_cursor)
                ==> final(self)@.well_formed(),
    {
        let kept = drop_breaks(text);
        if text::chars_of(kept.as_str()).len() == 0 {
            proof {
                let k = self@.caret();
                text::lemma_caret_range(self.input@, self.input_cursor as int);
                assert(self.input@ =~= self.input@.take(k) + kept@ + self.input@.skip(k));
            }
            self.palette_selection = 0;
            self.clear_history_navigation();
            return;
        }
        let k = text::caret_at(self.input.as_str(), self.input_cursor);
        let chars = text::chars_of(self.input.as_str());
        let front = text::text_of(&chars, 0, k);
        let rest = text::text_of(&chars, k, chars.len());
        let before = text::glue(front.as_str(), kept.as_str());
        proof {
            lemma_cursor(self.input@, self.input_cursor as int);
            assert(front@ =~= self.input@.take(k as int));
            assert(rest@ =~= self.input@.skip(k as int));
            text::lemma_byte_len_concat(front@, kept@);
            lemma_boundary_behind(before@, rest@);
        }
        self.input_cursor = text::byte_length(before.as_str());
        self.input = text::glue(before.as_str(), rest.as_str());
        self.palette_selection = 0;
        self.clear_history_navigation();
    }

    /// Deletes the character before the cursor.
    pub fn delete_input(&mut self)
        requires
            text::on_boundary(old(self)@.input, old(self)@.input_cursor),
        ensures
            final(self)@ == old(self)@.delete_input(),
            text::on_boundary(final(self)@.input, final(self)@.input_cursor),
            old(self)@.well_formed() ==> final(self)@.well_formed(),
    {
        if self.input_cursor == 0 {
            return;
        }
        proof {
            lemma_cursor(self.input@, self.input_cursor as int);
        }
        let previous = text::previous_char_boundary(self.input.as_str(), self.input_cursor);
        let k = text::caret_at(self.input.as_str(), self.input_cursor);
        let chars = text::chars_of(self.input.as_str());
        let front = text::text_of(&chars, 0, k - 1);
        let rest = text::text_of(&chars, k, chars.len());
        proof {
            assert(front@ =~= self.input@.take(k - 1));
            assert(rest@ =~= self.input@.skip(k as int));
            lemma_boundary_behind(front@, rest@);
        }
        self.input = text::glue(front.as_str(), rest.as_str());
        self.input_cursor = previous;
        self.palette_selection = 0;
        self.clear_history_navigation();
    }

    /// Deletes the character after the cursor.
    pub fn delete_forward_input(&mut self)
        requires
            old(self)@.input_cursor < text::byte_len(old(self)@.input) ==> text::on_boundary(
                old(self)@.input,
                old(self)@.input_cursor,
            ),
        ensures
            final(self)@ == old(self)@.delete_forward_input(),
            old(self)@.well_formed() ==> final(self)@.well_formed(),
    {
        if self.input_cursor >= text::byte_length(self.input.as_str()) {
            return;
        }
        proof {
            lemma_cursor(self.input@, self.input_cursor as int);
        }
        let k = text::caret_at(self.input.as_str(), self.input_cursor);
        let chars = text::chars_of(self.input.as_str());
        let front = text::text_of(&chars, 0, k);
        let rest = text::text_of(&chars, k + 1, chars.len());
        proof {
            assert(front@ =~= self.input@.take(k as int));
            assert(rest@ =~= self.input@.skip(k + 1));
            lemma_boundary_behind(front@, rest@);
        }
        self.input = text::glue(front.as_str(), rest.as_str());
        self.palette_selection = 0;
        self.clear_history_navigation();
    }

    /// Moves the cursor by one character.
    pub fn move_input_cursor(&mut self, right: bool)
        requires
            text::on_boundary(old(self)@.input, old(self)@.input_cursor),
        ensures
            final(self)@ == old(self)@.move_input_cursor(right),
            text::on_boundary(final(self)@.input, final(self)@.input_cursor),
            old(self)@.well_formed() ==> final(self)@.well_formed(),
    {
        proof {
            let s = self.input@;
            let k = self@.caret();
            lemma_cursor(s, self.input_cursor as int);
            if k > 0 {
                text::lemma_caret_of_offset(s, k - 1);
            }
            if k < s.len() {
                text::lemma_caret_of_offset(s, k + 1);
            }
        }
        self.input_cursor = if right {
            text::next_char_boundary(self.input.as_str(), self.input_cursor)
        } else {
            text::previous_char_boundary(self.input.as_str(), self.input_cursor)
        };
        self.palette_selection = 0;
    }

    /// Moves the cursor to the beginning or behind the end.
    pub fn move_input_cursor_to_edge(&mut self, end: bool)
        ensures
            final(self)@ == old(self)@.move_input_cursor_to_edge(end),
            old(self)@.well_formed() ==> final(self)@.well_formed(),
    {
        self.input_cursor = if end {
            text::byte_length(self.input.as_str())
        } else {
            0
        };
        self.palette_selection = 0;
        proof {
            lemma_cursor_at_end(self.input@);
            lemma_boundary_behind(seq![], self.input@);
            assert(seq![] + self.input@ =~= self.input@);
        }
    }

    /// Shows an entry of the history in the composer.
    fn show_entry(&mut self, index: usize)
        requires
            index < old(self)@.command_history.len(),
        ensures
            final(self)@ == old(self)@.show_entry(index as int),
            final(self)@.well_formed(),
    {
        self.history_index = Some(index);
        let entry = self.command_history[index].clone();
        self.set_input(entry);
    }

    /// Shows the next older or newer command in the composer. Behind the newest one stands
    /// the draft that was in the composer before.
    pub fn recall_history(&mut self, older: bool)
        requires
            old(self)@.command_history.len() > 0 ==> (old(self).history_index matches Some(index)
                ==> index < old(self)@.command_history.len() + (if older {
                1int
            } else {
                0int
            })),
        ensures
            final(self)@ == old(self)@.recall_history(older),
            old(self)@.well_formed() ==> final(self)@.well_formed(),
    {
        if self.command_history.len() == 0 {
            return;
        }
        if older {
            match self.history_index {
                Some(index) => {
                    self.show_entry(if index > 0 { index - 1 } else { 0 });
                },
                None => {
                    self.history_draft = self.input.clone();
                    let newest = self.command_history.len() - 1;
                    self.show_entry(newest);
                },
            }
        } else {
            match self.history_index {
                None => {},
                Some(index) => {
                    if index + 1 == self.command_history.len() {
                        self.history_index = None;
                        let draft = self.history_draft.clone();
                        self.history_draft = String::new();
                        assert(self.history_draft@ =~= seq![]);
                        self.set_input(draft);
                    } else {
                        self.show_entry(index + 1);
                    }
                },
            }
        }
    }

    /// Makes `command` the latest entry of the history, unless it is that already.
    pub fn record_command(&mut self, command: &str)
        ensures
            final(self)@ == old(self)@.record_command(command@),
            old(self)@.well_formed() ==> final(self)@.well_formed(),
    {
        remember(&mut self.command_history, command);
        self.clear_history_navigation();
    }
}

} // verus!
