//! What holds of the composer: typing, deleting, moving, recalling and completing.
use vstd::prelude::*;

use crate::composer;
use crate::laws;
use crate::model;
use crate::model::{AppModel, SlashView};
use crate::task_laws;
use crate::text;
use crate::text_laws;

verus! {

// ---------------------------------------------------------------------------
// What stays
// ---------------------------------------------------------------------------

/// Everything but the composer and its history navigation is the same.
pub open spec fn same_outside(after: AppModel, app: AppModel) -> bool {
    &&& after.command_history == app.command_history
    &&& after.transcript == app.transcript
    &&& after.pending_task == app.pending_task
    &&& after.request_counter == app.request_counter
    &&& task_laws::same_view(after, app)
    &&& task_laws::same_postures(after, app)
    &&& task_laws::same_scroll(after, app)
    &&& task_laws::same_session(after, app)
}

/// The history is navigated as before.
pub open spec fn same_navigation(after: AppModel, app: AppModel) -> bool {
    after.history_index == app.history_index && after.history_draft == app.history_draft
}

/// The history is not navigated.
pub open spec fn not_navigated(after: AppModel) -> bool {
    after.history_index is None && after.history_draft.len() == 0
}

// ---------------------------------------------------------------------------
// Line breaks
// ---------------------------------------------------------------------------

/// Dropping line breaks works part by part: a line break goes and every other character stays.
pub proof fn breaks_are_dropped_part_by_part(a: Seq<char>, b: Seq<char>, c: char)
    ensures
        model::without_breaks(a + b) == model::without_breaks(a) + model::without_breaks(b),
        model::without_breaks(seq![c]) == (if c == '\r' || c == '\n' {
            seq![]
        } else {
            seq![c]
        }),
        model::without_breaks(seq![]) == Seq::<char>::empty(),
    decreases b.len(),
{
    reveal_with_fuel(model::without_breaks, 2);
    assert(seq![c].drop_last() =~= seq![]);
    assert(model::without_breaks(seq![c]) =~= (if c == '\r' || c == '\n' {
        seq![]
    } else {
        seq![c]
    }));
    if b.len() > 0 {
        breaks_are_dropped_part_by_part(a, b.drop_last(), c);
        assert((a + b).drop_last() =~= a + b.drop_last());
        assert(model::without_breaks(a + b) =~= model::without_breaks(a) + model::without_breaks(
            b,
        ));
    } else {
        assert(a + b =~= a);
        assert(model::without_breaks(a) + model::without_breaks(b) =~= model::without_breaks(a));
    }
}

// ---------------------------------------------------------------------------
// Typing and deleting
// ---------------------------------------------------------------------------

/// A line that is typed stands between what stood before the cursor and what stood behind it,
/// with the cursor behind the line. It does so also with line breaks in it, which are dropped.
pub proof fn typing_puts_a_line_at_the_cursor(
    app: AppModel,
    front: Seq<char>,
    back: Seq<char>,
    line: Seq<char>,
    broken: Seq<char>,
)
    requires
        app.input == front + back,
        text::on_boundary(app.input, app.input_cursor),
        app.caret() == front.len(),
        laws::single_line(line),
        model::without_breaks(broken) == line,
    ensures
        ({
            let after = app.insert_text(line);
            &&& after.input == front + line + back
            &&& after.caret() == front.len() + line.len()
            &&& text::on_boundary(after.input, after.input_cursor)
            &&& after.palette_selection == 0
            &&& not_navigated(after)
            &&& same_outside(after, app)
            &&& app.insert_text(broken) == after
        }),
{
    let after = app.insert_text(line);
    lemma_single_line(line);
    composer::lemma_cursor(app.input, app.input_cursor);
    assert(app.input.take(front.len() as int) =~= front);
    assert(app.input.skip(front.len() as int) =~= back);
    text::lemma_byte_len_concat(front, line);
    composer::lemma_boundary_behind(front + line, back);
    text_laws::offsets_count_encoded_bytes(front + line, back);
    text::lemma_byte_len_is_utf8_len(front + line);
}

/// A single line has no line breaks to drop.
proof fn lemma_single_line(line: Seq<char>)
    requires
        laws::single_line(line),
    ensures
        model::without_breaks(line) == line,
    decreases line.len(),
{
    if line.len() > 0 {
        let front = line.drop_last();
        assert forall|i: int| 0 <= i < front.len() implies (#[trigger] front[i]) != '\r'
            && front[i] != '\n' by {
            assert(front[i] == line[i]);
        }
        lemma_single_line(front);
        assert(line.last() == line[line.len() - 1]);
        assert(front.push(line.last()) =~= line);
    } else {
        assert(line =~= seq![]);
    }
}

/// Deleting backwards takes away the character before the cursor and nothing else; at the
/// beginning it changes nothing.
pub proof fn deleting_takes_the_character_before(
    app: AppModel,
    front: Seq<char>,
    c: char,
    back: Seq<char>,
)
    requires
        text::on_boundary(app.input, app.input_cursor),
    ensures
        app.caret() == 0 ==> app.delete_input() == app,
        app.input == front + seq![c] + back && app.caret() == front.len() + 1 ==> {
            let after = app.delete_input();
            &&& after.input == front + back
            &&& after.caret() == front.len()
            &&& text::on_boundary(after.input, after.input_cursor)
            &&& after.palette_selection == 0
            &&& not_navigated(after)
            &&& same_outside(after, app)
        },
{
    composer::lemma_cursor(app.input, app.input_cursor);
    let k = app.caret();
    if k == 0 {
        assert(app.input.take(0) =~= seq![]);
        assert(text::byte_len(seq![]) == 0);
    }
    if app.input == front + seq![c] + back && k == front.len() + 1 {
        assert(app.input.take(k) =~= front + seq![c]);
        assert(app.input.take(k - 1) =~= front);
        assert(app.input.skip(k) =~= back);
        text::lemma_byte_len_concat(front, seq![c]);
        lemma_one_char(c);
        text_laws::offsets_count_encoded_bytes(front, back);
        text::lemma_byte_len_is_utf8_len(front);
        composer::lemma_boundary_behind(front, back);
    }
}

/// A character takes at least one byte.
proof fn lemma_one_char(c: char)
    ensures
        text::byte_len(seq![c]) > 0,
{
    text::lemma_offset_increases(seq![c], 0, 1);
    assert(seq![c].take(1) =~= seq![c]);
    assert(seq![c].take(0) =~= seq![]);
}

/// Deleting forwards takes away the character behind the cursor and nothing else, and the cursor
/// stays; at the end it changes nothing.
pub proof fn deleting_forwards_takes_the_character_behind(
    app: AppModel,
    front: Seq<char>,
    c: char,
    back: Seq<char>,
)
    requires
        text::on_boundary(app.input, app.input_cursor),
    ensures
        app.caret() == app.input.len() ==> app.delete_forward_input() == app,
        app.input == front + seq![c] + back && app.caret() == front.len() ==> {
            let after = app.delete_forward_input();
            &&& after.input == front + back
            &&& after.input_cursor == app.input_cursor
            &&& after.caret() == front.len()
            &&& after.palette_selection == 0
            &&& not_navigated(after)
            &&& same_outside(after, app)
        },
{
    composer::lemma_cursor(app.input, app.input_cursor);
    let k = app.caret();
    if k == app.input.len() {
        assert(app.input.take(k) =~= app.input);
    }
    if app.input == front + seq![c] + back && k == front.len() {
        assert(app.input.take(k) =~= front);
        assert(app.input.skip(k + 1) =~= back);
        text::lemma_byte_len_concat(front, seq![c]);
        text::lemma_byte_len_concat(front + seq![c], back);
        lemma_one_char(c);
        text_laws::offsets_count_encoded_bytes(front, back);
        text::lemma_byte_len_is_utf8_len(front);
        composer::lemma_boundary_behind(front, back);
    }
}

/// Leaving the history forgets where it was and the draft, and touches nothing else.
pub proof fn leaving_the_history_forgets_the_draft(app: AppModel)
    ensures
        not_navigated(app.clear_history_navigation()),
        app.clear_history_navigation().input == app.input,
        app.clear_history_navigation().input_cursor == app.input_cursor,
        app.clear_history_navigation().palette_selection == app.palette_selection,
        same_outside(app.clear_history_navigation(), app),
{
}

/// Emptying the composer leaves no text, no selection and no navigation, and touches nothing
/// else.
pub proof fn clearing_empties_the_composer(app: AppModel)
    ensures
        ({
            let after = app.clear_composer();
            &&& after.input.len() == 0
            &&& after.input_cursor == 0
            &&& after.palette_selection == 0
            &&& not_navigated(after)
            &&& same_outside(after, app)
        }),
{
}

/// What is put into the composer is there in full, with the cursor behind its last character, and
/// nothing but the selection changes besides.
pub proof fn set_text_has_the_cursor_behind_it(app: AppModel, line: Seq<char>)
    ensures
        ({
            let after = app.set_input(line);
            &&& after.input == line
            &&& after.caret() == line.len()
            &&& text::on_boundary(after.input, after.input_cursor)
            &&& after.palette_selection == 0
            &&& same_navigation(after, app)
            &&& same_outside(after, app)
        }),
{
    composer::lemma_cursor_at_end(line);
}

// ---------------------------------------------------------------------------
// Moving
// ---------------------------------------------------------------------------

/// The cursor moves by one character, to the right unless it stands behind the last one, and to
/// the left unless it stands before the first one. Only the selection changes besides.
pub proof fn moving_goes_by_one_character(app: AppModel)
    requires
        text::on_boundary(app.input, app.input_cursor),
    ensures
        ({
            let k = app.caret();
            let right = app.move_input_cursor(true);
            let left = app.move_input_cursor(false);
            &&& right.caret() == (if k < app.input.len() {
                k + 1
            } else {
                k
            })
            &&& left.caret() == (if k > 0 {
                k - 1
            } else {
                k
            })
            &&& text::on_boundary(right.input, right.input_cursor)
            &&& text::on_boundary(left.input, left.input_cursor)
            &&& right.input == app.input && left.input == app.input
            &&& right.palette_selection == 0 && left.palette_selection == 0
            &&& same_navigation(right, app) && same_navigation(left, app)
            &&& same_outside(right, app) && same_outside(left, app)
        }),
{
    let k = app.caret();
    composer::lemma_cursor(app.input, app.input_cursor);
    lemma_offset(app.input, k);
    if k < app.input.len() {
        lemma_offset(app.input, k + 1);
    }
    if k > 0 {
        lemma_offset(app.input, k - 1);
    }
}

/// The offset of a character leads back to it.
proof fn lemma_offset(s: Seq<char>, k: int)
    requires
        0 <= k <= s.len(),
    ensures
        text::caret(s, text::offset_of(s, k) as int) == k,
        text::on_boundary(s, text::offset_of(s, k) as int),
{
    let front = s.take(k);
    let back = s.skip(k);
    assert(front + back =~= s);
    text_laws::offsets_count_encoded_bytes(front, back);
}

/// The cursor can be put before the first character and behind the last one. Only the selection
/// changes besides.
pub proof fn moving_reaches_the_edges(app: AppModel)
    ensures
        ({
            let first = app.move_input_cursor_to_edge(false);
            let last = app.move_input_cursor_to_edge(true);
            &&& first.caret() == 0
            &&& last.caret() == app.input.len()
            &&& text::on_boundary(first.input, first.input_cursor)
            &&& text::on_boundary(last.input, last.input_cursor)
            &&& first.input == app.input && last.input == app.input
            &&& first.palette_selection == 0 && last.palette_selection == 0
            &&& same_navigation(first, app) && same_navigation(last, app)
            &&& same_outside(first, app) && same_outside(last, app)
        }),
{
    composer::lemma_cursor_at_end(app.input);
    lemma_offset(app.input, 0);
    assert(app.input.take(0) =~= seq![]);
    assert(text::byte_len(seq![]) == 0);
}

// ---------------------------------------------------------------------------
// Recalling
// ---------------------------------------------------------------------------

/// Going back in the history shows the newest command first, then the next older one at each
/// step, and stays at the oldest. The draft is kept from the first step on.
pub proof fn going_back_shows_the_next_older(app: AppModel)
    requires
        app.well_formed(),
        0 < app.command_history.len() <= usize::MAX,
    ensures
        ({
            let after = app.recall_history(true);
            let index = match app.history_index {
                Some(i) => if i > 0 {
                    i - 1
                } else {
                    0
                },
                None => app.command_history.len() - 1,
            };
            &&& after.history_index matches Some(i) && i == index
            &&& after.input == app.command_history[index]
            &&& after.caret() == after.input.len()
            &&& after.palette_selection == 0
            &&& after.history_draft == (if app.history_index is None {
                app.input
            } else {
                app.history_draft
            })
            &&& same_outside(after, app)
            &&& after.well_formed()
        }),
{
    let after = app.recall_history(true);
    composer::lemma_cursor_at_end(after.input);
}

/// Going forth in the history shows the next newer command at each step, and behind the newest
/// the draft, with which the navigation ends. Where nothing is navigated it changes nothing.
pub proof fn going_forth_shows_the_next_newer(app: AppModel)
    requires
        app.well_formed(),
        0 < app.command_history.len() <= usize::MAX,
    ensures
        ({
            let after = app.recall_history(false);
            &&& app.history_index is None ==> after == app
            &&& app.history_index matches Some(index) ==> {
                &&& same_outside(after, app)
                &&& after.caret() == after.input.len()
                &&& after.palette_selection == 0
                &&& index + 1 < app.command_history.len() ==> {
                    &&& after.history_index matches Some(i) && i == index + 1
                    &&& after.input == app.command_history[index + 1]
                    &&& after.history_draft == app.history_draft
                }
                &&& index + 1 == app.command_history.len() ==> {
                    &&& after.input == app.history_draft
                    &&& not_navigated(after)
                }
            }
            &&& after.well_formed()
        }),
{
    let after = app.recall_history(false);
    if app.history_index is Some {
        composer::lemma_cursor_at_end(after.input);
    }
}

/// With an empty history there is nothing to recall.
pub proof fn nothing_to_recall(app: AppModel, older: bool)
    requires
        app.command_history.len() == 0,
    ensures
        app.recall_history(older) == app,
{
}

// ---------------------------------------------------------------------------
// The palette
// ---------------------------------------------------------------------------

/// Matching works part by part and keeps the order: a command is kept if it begins with the query
/// and dropped otherwise.
pub proof fn matching_keeps_the_order(
    a: Seq<SlashView>,
    b: Seq<SlashView>,
    command: SlashView,
    query: Seq<char>,
)
    ensures
        model::matching(a + b, query) == model::matching(a, query) + model::matching(b, query),
        model::matching(seq![command], query) == (if command.command.len() >= query.len()
            && command.command.take(query.len() as int) == query {
            seq![command]
        } else {
            seq![]
        }),
        model::matching(seq![], query) == Seq::<SlashView>::empty(),
    decreases b.len(),
{
    reveal_with_fuel(model::matching, 2);
    assert(seq![command].drop_last() =~= seq![]);
    assert(model::matching(seq![command], query) =~= (if command.command.len() >= query.len()
        && command.command.take(query.len() as int) == query {
        seq![command]
    } else {
        seq![]
    }));
    if b.len() > 0 {
        matching_keeps_the_order(a, b.drop_last(), command, query);
        assert((a + b).drop_last() =~= a + b.drop_last());
        assert(model::matching(a + b, query) =~= model::matching(a, query) + model::matching(
            b,
            query,
        ));
    } else {
        assert(a + b =~= a);
        assert(model::matching(a, query) + model::matching(b, query) =~= model::matching(a, query));
    }
}

/// The palette offers every task verb with a slash before it and a space behind it, in order, and
/// behind these the five commands of the terminal.
pub proof fn task_verbs_come_before_local_commands(app: AppModel)
    ensures
        ({
            let n = app.backend_commands.len() as int;
            let offered = app.offered_commands();
            &&& offered.len() == n + 5
            &&& forall|i: int|
                0 <= i < n ==> #[trigger] offered[i] == (SlashView {
                    command: seq!['/'] + app.backend_commands[i] + seq![' '],
                    description: "run a task through the Python backend"@,
                })
            &&& offered[n] == (SlashView {
                command: "/scope "@,
                description: "update session scope defaults"@,
            })
            &&& offered[n + 1] == (SlashView {
                command: "/report"@,
                description: "show report export guidance"@,
            })
            &&& offered[n + 2] == (SlashView {
                command: "/config"@,
                description: "show configuration guidance"@,
            })
            &&& offered[n + 3] == (SlashView {
                command: "/clear"@,
                description: "clear the transcript"@,
            })
            &&& offered[n + 4] == (SlashView {
                command: "/help"@,
                description: "list available commands"@,
            })
        }),
{
    reveal_strlit("/");
    reveal_strlit(" ");
    let offered = app.offered_commands();
    assert forall|i: int| 0 <= i < app.backend_commands.len() implies #[trigger] offered[i] == (
    SlashView {
        command: seq!['/'] + app.backend_commands[i] + seq![' '],
        description: "run a task through the Python backend"@,
    }) by {
        let verb = app.backend_commands[i];
        assert("/"@ + verb + " "@ =~= seq!['/'] + verb + seq![' ']);
    }
}

/// What is suggested is what matches the typed text, in small letters and without leading blanks;
/// nothing is suggested for what does not begin with a slash.
pub proof fn suggestions_match_the_typed_text(app: AppModel)
    ensures
        ({
            let typed = text::trimmed_start(app.input);
            let query = text::lowered(typed);
            &&& typed.len() > 0 && typed[0] == '/' ==> app.suggested_commands() == model::matching(
                app.offered_commands(),
                query,
            )
            &&& typed.len() == 0 || typed[0] != '/' ==> app.suggested_commands().len() == 0
        }),
{
    let typed = text::trimmed_start(app.input);
    text_laws::lowering_changes_capitals_alone(typed);
    if typed.len() > 0 {
        assert(text::lowered(typed)[0] == '/' <==> typed[0] == '/');
    }
}

/// The palette is shown exactly while the cursor stands behind the last character and there is
/// something to suggest.
pub proof fn palette_shows_what_there_is_to_suggest(app: AppModel)
    requires
        text::on_boundary(app.input, app.input_cursor),
    ensures
        app.palette_visible() <==> app.caret() == app.input.len() && app.suggested_commands().len()
            > 0,
{
    suggestions_match_the_typed_text(app);
    composer::lemma_cursor(app.input, app.input_cursor);
    if app.caret() == app.input.len() {
        assert(app.input.take(app.caret()) =~= app.input);
    }
    composer::lemma_cursor_at_end(app.input);
}

/// The selection goes down by one and from the last suggestion to the first, and up the other
/// way; nothing else changes, and without suggestions nothing at all.
pub proof fn selection_moves_by_one(app: AppModel)
    ensures
        ({
            let n = app.suggested_commands().len() as int;
            let i = app.palette_selection;
            &&& n == 0 ==> app.select_next_command(true) == app && app.select_next_command(false)
                == app
            &&& 0 <= i < n ==> {
                &&& app.select_next_command(true) == AppModel {
                    palette_selection: if i == n - 1 {
                        0
                    } else {
                        i + 1
                    },
                    ..app
                }
                &&& app.select_next_command(false) == AppModel {
                    palette_selection: if i == 0 {
                        n - 1
                    } else {
                        i - 1
                    },
                    ..app
                }
            }
        }),
{
    let n = app.suggested_commands().len() as int;
    let i = app.palette_selection;
    if 0 <= i < n {
        lemma_wraps(i + 1, n);
        lemma_wraps(i + n - 1, n);
    }
}

/// Wherever the selection stands, it is among the suggestions after a step, and has gone by one
/// and by whole rounds.
pub proof fn selection_stays_among_the_suggestions(app: AppModel)
    requires
        app.suggested_commands().len() > 0,
    ensures
        ({
            let n = app.suggested_commands().len() as int;
            let down = app.select_next_command(true).palette_selection;
            let up = app.select_next_command(false).palette_selection;
            &&& 0 <= down < n
            &&& 0 <= up < n
            &&& (down - (app.palette_selection + 1)) % n == 0
            &&& (up - (app.palette_selection - 1)) % n == 0
        }),
{
    let n = app.suggested_commands().len() as int;
    let i = app.palette_selection;
    lemma_rounds(i + 1, n);
    lemma_rounds(i + n - 1, n);
    let up = (i + n - 1) % n;
    vstd::arithmetic::div_mod::lemma_mod_add_multiples_vanish(up - (i + n - 1), n);
    assert(up - (i - 1) == n + (up - (i + n - 1)));
}

/// A number and its remainder differ by whole rounds.
proof fn lemma_rounds(a: int, n: int)
    requires
        n > 0,
    ensures
        0 <= a % n < n,
        (a % n - a) % n == 0,
{
    vstd::arithmetic::div_mod::lemma_mod_bound(a, n);
    vstd::arithmetic::div_mod::lemma_fundamental_div_mod(a, n);
    let q = a / n;
    assert(a % n - a == n * (-q)) by (nonlinear_arith)
        requires
            a == n * q + a % n,
    ;
    vstd::arithmetic::div_mod::lemma_mod_multiples_basic(-q, n);
    assert(n * (-q) == (-q) * n) by (nonlinear_arith);
}

/// The remainder of a number below twice the divisor.
proof fn lemma_wraps(a: int, n: int)
    requires
        0 <= a < 2 * n,
    ensures
        a % n == (if a < n {
            a
        } else {
            a - n
        }),
{
    if a < n {
        vstd::arithmetic::div_mod::lemma_small_mod(a as nat, n as nat);
    } else {
        vstd::arithmetic::div_mod::lemma_mod_add_multiples_vanish(a - n, n);
        vstd::arithmetic::div_mod::lemma_small_mod((a - n) as nat, n as nat);
    }
}

/// The selected command is the suggestion at the selection, where there is one.
pub proof fn selection_names_a_suggestion(app: AppModel)
    ensures
        app.selected_command() is Some <==> 0 <= app.palette_selection
            < app.suggested_commands().len(),
        app.selected_command() matches Some(command) ==> command
            == app.suggested_commands()[app.palette_selection].command,
{
}

/// Accepting puts the selected command into the composer, in full and with the cursor behind its
/// last character, so that a line that is typed next stands behind the command. The selection is
/// the first then, and nothing else changes; without a selected command nothing changes at all.
pub proof fn accepting_lets_typing_go_on(app: AppModel, line: Seq<char>)
    requires
        laws::single_line(line),
    ensures
        ({
            let after = app.accept_selected_command();
            &&& app.selected_command() is None ==> after == app
            &&& app.selected_command() matches Some(command) ==> {
                &&& after.input == command
                &&& after.caret() == command.len()
                &&& text::on_boundary(after.input, after.input_cursor)
                &&& after.palette_selection == 0
                &&& same_navigation(after, app)
                &&& same_outside(after, app)
                &&& after.insert_text(line).input == command + line
                &&& after.insert_text(line).caret() == command.len() + line.len()
            }
        }),
{
    if let Some(command) = app.selected_command() {
        let after = app.accept_selected_command();
        composer::lemma_cursor_at_end(command);
        assert(command + seq![] =~= command);
        lemma_single_line(line);
        typing_puts_a_line_at_the_cursor(after, command, seq![], line, line);
        assert(command + line + seq![] =~= command + line);
    }
}

/// Accepting is worth while exactly if a command is selected, and either what was typed is that
/// command without the space at its end, or what was typed does not end with a space and is,
/// blanks aside, something else.
pub proof fn completing_adds_something(app: AppModel)
    ensures
        app.selected_command() is None ==> !app.should_complete_selected_command(),
        app.selected_command() matches Some(command) ==> {
            let spaced = command.len() > 0 && command[command.len() - 1] == ' ';
            let typed_space = app.input.len() > 0 && app.input[app.input.len() - 1] == ' ';
            app.should_complete_selected_command() <==> {
                ||| spaced && app.input == text::trimmed_end(command)
                ||| !typed_space && text::trimmed(app.input) != text::trimmed(command)
            }
        },
{
}

} // verus!
