//! The palette: the commands that complete what was typed.
use vstd::prelude::*;

use crate::app;
use crate::app::{App, SlashCommand};
use crate::command;
use crate::model;
use crate::text;

verus! {

/// One more command adds its content behind the others.
proof fn lemma_commands_push(commands: Seq<SlashCommand>, command: SlashCommand)
    ensures
        app::commands_view(commands.push(command)) == app::commands_view(commands).push(command@),
{
    assert(app::commands_view(commands.push(command)) =~= app::commands_view(commands).push(
        command@,
    ));
}

/// Adds a command to a list.
fn offer(commands: &mut Vec<SlashCommand>, command: &str, description: &'static str)
    ensures
        app::commands_view(final(commands)@) == app::commands_view(old(commands)@).push(
            (model::SlashView { command: command@, description: description@ }),
        ),
{
    let item = SlashCommand { command: command.to_owned(), description };
    proof {
        lemma_commands_push(commands@, item);
    }
    commands.push(item);
}

/// The commands of `list` that begin with `query`.
fn select_matching(list: &Vec<SlashCommand>, query: &str) -> (selected: Vec<SlashCommand>)
    ensures
        app::commands_view(selected@) == model::matching(app::commands_view(list@), query@),
{
    let mut selected: Vec<SlashCommand> = Vec::new();
    let ghost all = app::commands_view(list@);
    let mut i: usize = 0;
    assert(all.take(0) =~= seq![]);
    assert(app::commands_view(selected@) =~= seq![]);
    while i < list.len()
        invariant
            all == app::commands_view(list@),
            i <= list@.len(),
            app::commands_view(selected@) == model::matching(all.take(i as int), query@),
        decreases list@.len() - i,
    {
        proof {
            assert(all.take(i + 1).drop_last() =~= all.take(i as int));
            assert(all.take(i + 1).last() == list@[i as int]@);
        }
        if text::starts_with(list[i].command.as_str(), query) {
            offer(&mut selected, list[i].command.as_str(), list[i].description);
        }
        i += 1;
    }
    assert(all.take(i as int) =~= all);
    selected
}

/// Whether `s` ends with a space.
fn space_at_end(s: &str) -> (yes: bool)
    ensures
        yes == model::ends_with_space(s@),
{
    let chars = text::chars_of(s);
    chars.len() > 0 && chars[chars.len() - 1] == ' '
}

impl App {
    /// The commands that can be typed: the advertised task verbs and the local commands.
    fn offered_commands(&self) -> (commands: Vec<SlashCommand>)
        ensures
            app::commands_view(commands@) == self@.offered_commands(),
    {
        let mut commands: Vec<SlashCommand> = Vec::new();
        let mut i: usize = 0;
        let ghost tasks = self@.task_commands();
        assert(app::commands_view(commands@) =~= tasks.take(0));
        while i < self.backend_commands.len()
            invariant
                tasks == self@.task_commands(),
                i <= self.backend_commands@.len(),
                app::commands_view(commands@) == tasks.take(i as int),
            decreases self.backend_commands@.len() - i,
        {
            let command = text::glue3("/", self.backend_commands[i].as_str(), " ");
            offer(&mut commands, command.as_str(), "run a task through the Python backend");
            assert(tasks.take(i + 1) =~= tasks.take(i as int).push(tasks[i as int]));
            i += 1;
        }
        offer(&mut commands, "/scope ", "update session scope defaults");
        offer(&mut commands, "/report", "show report export guidance");
        offer(&mut commands, "/config", "show configuration guidance");
        offer(&mut commands, "/clear", "clear the transcript");
        offer(&mut commands, "/help", "list available commands");
        assert(app::commands_view(commands@) =~= self@.offered_commands());
        commands
    }

    /// The commands that complete what was typed.
    pub fn suggested_commands(&self) -> (commands: Vec<SlashCommand>)
        ensures
            app::commands_view(commands@) == self@.suggested_commands(),
    {
        let typed = text::trim_start(self.input.as_str());
        let query = text::to_ascii_lower(typed.as_str());
        proof {
            command::lemma_begins_with_slash(query@);
        }
        if !text::starts_with(query.as_str(), "/") {
            let none: Vec<SlashCommand> = Vec::new();
            assert(app::commands_view(none@) =~= seq![]);
            return none;
        }
        let offered = self.offered_commands();
        select_matching(&offered, query.as_str())
    }

    /// Whether there is something to complete.
    pub fn palette_visible(&self) -> (visible: bool)
        ensures
            visible == self@.palette_visible(),
    {
        let typed = text::trim_start(self.input.as_str());
        proof {
            command::lemma_begins_with_slash(typed@);
        }
        self.input_cursor == text::byte_length(self.input.as_str()) && text::starts_with(
            typed.as_str(),
            "/",
        ) && self.suggested_commands().len() > 0
    }

    /// Moves the selection down or up, around the ends.
    pub fn select_next_command(&mut self, down: bool)
        requires
            old(self)@.suggested_commands().len() > 0 ==> old(self).palette_selection + (if down {
                1
            } else {
                old(self)@.suggested_commands().len() as int
            }) <= usize::MAX,
        ensures
            final(self)@ == old(self)@.select_next_command(down),
    {
        let count = self.suggested_commands().len();
        if count == 0 {
            return;
        }
        self.palette_selection = if down {
            (self.palette_selection + 1) % count
        } else {
            (self.palette_selection + count - 1) % count
        };
    }

    /// Puts the selected command into the composer, if there is one.
    pub fn accept_selected_command(&mut self) -> (accepted: bool)
        ensures
            accepted == (old(self)@.selected_command() is Some),
            final(self)@ == old(self)@.accept_selected_command(),
            old(self)@.well_formed() ==> final(self)@.well_formed(),
    {
        let commands = self.suggested_commands();
        if self.palette_selection >= commands.len() {
            return false;
        }
        let chosen = commands[self.palette_selection].command.clone();
        assert(chosen@ == app::commands_view(commands@)[self.palette_selection as int].command);
        self.set_input(chosen);
        true
    }

    /// Whether the selected command adds something to what was typed.
    pub fn should_complete_selected_command(&self) -> (yes: bool)
        ensures
            yes == self@.should_complete_selected_command(),
    {
        let commands = self.suggested_commands();
        if self.palette_selection >= commands.len() {
            return false;
        }
        let chosen = commands[self.palette_selection].command.as_str();
        assert(chosen@ == app::commands_view(commands@)[self.palette_selection as int].command);
        let bare = text::trim_end(chosen);
        let typed = text::trim(self.input.as_str());
        let wanted = text::trim(chosen);
        (space_at_end(chosen) && text::same_text(self.input.as_str(), bare.as_str())) || (
        !text::same_text(typed.as_str(), wanted.as_str()) && !space_at_end(self.input.as_str()))
    }
}

} // verus!
