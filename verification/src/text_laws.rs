//! What holds of texts: trimming, letter case, numerals, offsets, words and prompts.
use vstd::prelude::*;

use crate::clipboard;
use crate::command;
use crate::order;
use crate::text;

verus! {

// ---------------------------------------------------------------------------
// White space
// ---------------------------------------------------------------------------

/// Every character of `s` is white space.
pub open spec fn blank(s: Seq<char>) -> bool {
    forall|i: int| 0 <= i < s.len() ==> text::is_white_space(#[trigger] s[i])
}

/// `s` holds no white space.
pub open spec fn solid(s: Seq<char>) -> bool {
    forall|i: int| 0 <= i < s.len() ==> !text::is_white_space(#[trigger] s[i])
}

/// `s` is empty or has no white space at either end.
pub open spec fn tight(s: Seq<char>) -> bool {
    s.len() > 0 ==> !text::is_white_space(s[0]) && !text::is_white_space(s.last())
}

/// White space is what Unicode calls so: the tab and the four line controls behind it, the space,
/// the next line and the unbreakable space, the spaces of different widths, the separators of
/// lines and paragraphs, and the ideographic space.
pub proof fn white_space_characters(c: char)
    ensures
        text::is_white_space(c) <==> {
            ||| '\t' <= c <= '\r'
            ||| c == ' '
            ||| c == '\u{85}'
            ||| c == '\u{a0}'
            ||| c == '\u{1680}'
            ||| '\u{2000}' <= c <= '\u{200a}'
            ||| c == '\u{2028}'
            ||| c == '\u{2029}'
            ||| c == '\u{202f}'
            ||| c == '\u{205f}'
            ||| c == '\u{3000}'
        },
{
}

/// Blank text before something that does not begin with white space is cut off, and nothing
/// else.
pub proof fn leading_white_space_is_cut(front: Seq<char>, rest: Seq<char>)
    requires
        blank(front),
        rest.len() > 0 ==> !text::is_white_space(rest[0]),
    ensures
        text::trimmed_start(front + rest) == rest,
    decreases front.len(),
{
    if front.len() > 0 {
        assert((front + rest)[0] == front[0]);
        assert((front + rest).drop_first() =~= front.drop_first() + rest);
        assert forall|i: int| 0 <= i < front.drop_first().len() implies text::is_white_space(
            #[trigger] front.drop_first()[i],
        ) by {
            assert(front.drop_first()[i] == front[i + 1]);
        }
        leading_white_space_is_cut(front.drop_first(), rest);
    } else {
        assert(front + rest =~= rest);
    }
}

/// Blank text behind something that does not end with white space is cut off, and nothing
/// else.
pub proof fn trailing_white_space_is_cut(rest: Seq<char>, back: Seq<char>)
    requires
        blank(back),
        rest.len() > 0 ==> !text::is_white_space(rest.last()),
    ensures
        text::trimmed_end(rest + back) == rest,
    decreases back.len(),
{
    if back.len() > 0 {
        assert((rest + back).last() == back[back.len() - 1]);
        assert((rest + back).drop_last() =~= rest + back.drop_last());
        trailing_white_space_is_cut(rest, back.drop_last());
    } else {
        assert(rest + back =~= rest);
    }
}

/// Trimming finds what stands between blank text.
pub proof fn trimming_finds_the_core(front: Seq<char>, core: Seq<char>, back: Seq<char>)
    requires
        blank(front),
        blank(back),
        tight(core),
    ensures
        text::trimmed(front + core + back) == core,
{
    if core.len() == 0 {
        let all = front + core + back;
        assert forall|i: int| 0 <= i < all.len() implies text::is_white_space(#[trigger] all[i]) by {
            if i < front.len() {
                assert(all[i] == front[i]);
            } else {
                assert(all[i] == back[i - front.len()]);
            }
        }
        leading_white_space_is_cut(all, seq![]);
        assert(all + seq![] =~= all);
        trailing_white_space_is_cut(seq![], seq![]);
        assert(Seq::<char>::empty() + Seq::<char>::empty() =~= seq![]);
        assert(core =~= seq![]);
    } else {
        leading_white_space_is_cut(front, core + back);
        assert(front + core + back =~= front + (core + back));
        trailing_white_space_is_cut(core, back);
    }
}

/// What is cut off at the beginning is white space, and nothing is left of it.
pub proof fn trimmed_start_is_a_rest(s: Seq<char>)
    ensures
        ({
            let rest = text::trimmed_start(s);
            let cut = s.len() - rest.len();
            &&& 0 <= cut
            &&& rest == s.skip(cut)
            &&& blank(s.take(cut))
            &&& rest.len() > 0 ==> !text::is_white_space(rest[0])
        }),
    decreases s.len(),
{
    if s.len() > 0 && text::is_white_space(s[0]) {
        let tail = s.drop_first();
        trimmed_start_is_a_rest(tail);
        let cut = tail.len() - text::trimmed_start(tail).len();
        assert(tail.skip(cut) =~= s.skip(cut + 1));
        assert forall|i: int| 0 <= i < cut + 1 implies text::is_white_space(
            #[trigger] s.take(cut + 1)[i],
        ) by {
            if i > 0 {
                assert(s.take(cut + 1)[i] == tail.take(cut)[i - 1]);
            }
        }
    } else {
        assert(s.skip(0) =~= s);
    }
}

/// What is cut off at the end is white space, and nothing is left of it.
pub proof fn trimmed_end_is_a_front(s: Seq<char>)
    ensures
        ({
            let rest = text::trimmed_end(s);
            &&& rest.len() <= s.len()
            &&& rest == s.take(rest.len() as int)
            &&& blank(s.skip(rest.len() as int))
            &&& rest.len() > 0 ==> !text::is_white_space(rest.last())
        }),
    decreases s.len(),
{
    if s.len() > 0 && text::is_white_space(s.last()) {
        let head = s.drop_last();
        trimmed_end_is_a_front(head);
        let n = text::trimmed_end(head).len() as int;
        assert(head.take(n) =~= s.take(n));
        assert forall|i: int| 0 <= i < s.skip(n).len() implies text::is_white_space(
            #[trigger] s.skip(n)[i],
        ) by {
            if i < head.skip(n).len() {
                assert(s.skip(n)[i] == head.skip(n)[i]);
            } else {
                assert(s.skip(n)[i] == s.last());
            }
        }
    } else {
        assert(s.take(s.len() as int) =~= s);
    }
}

/// Every text is blank text, what trimming leaves, and blank text; and what trimming leaves
/// is empty or has no white space at either end.
pub proof fn trimming_keeps_the_core(s: Seq<char>) -> (parts: (Seq<char>, Seq<char>))
    ensures
        blank(parts.0),
        blank(parts.1),
        tight(text::trimmed(s)),
        s == parts.0 + text::trimmed(s) + parts.1,
{
    let rest = text::trimmed_start(s);
    trimmed_start_is_a_rest(s);
    trimmed_end_is_a_front(rest);
    let core = text::trimmed(s);
    let cut = s.len() - rest.len();
    let back = rest.skip(core.len() as int);
    assert(s =~= s.take(cut) + core + back);
    if core.len() > 0 {
        assert(core[0] == rest[0]);
    }
    (s.take(cut), back)
}

// ---------------------------------------------------------------------------
// Comparing and mapping
// ---------------------------------------------------------------------------

/// A text begins with `prefix` exactly if something follows `prefix` in it.
pub proof fn beginning_is_being_followed(s: Seq<char>, prefix: Seq<char>, rest: Seq<char>)
    ensures
        text::begins_with(prefix + rest, prefix),
        text::begins_with(s, prefix) ==> s == prefix + s.skip(prefix.len() as int),
{
    text::lemma_begins_with(prefix, rest);
    if text::begins_with(s, prefix) {
        assert(s =~= s.take(prefix.len() as int) + s.skip(prefix.len() as int));
    }
}

/// Lower case changes the letters A to Z, each into its own small letter, and nothing else.
pub proof fn lowering_changes_capitals_alone(s: Seq<char>)
    ensures
        text::lowered(s).len() == s.len(),
        forall|i: int|
            0 <= i < s.len() ==> {
                let c = #[trigger] text::lowered(s)[i];
                if 'A' <= s[i] <= 'Z' {
                    c as int - 'a' as int == s[i] as int - 'A' as int
                } else {
                    c == s[i]
                }
            },
        text::lowered(text::lowered(s)) == text::lowered(s),
{
    assert(text::lowered(text::lowered(s)) =~= text::lowered(s));
}

/// A list of texts is the list of their contents, one for one.
pub proof fn texts_are_the_contents(list: Seq<String>, i: int)
    ensures
        text::texts(list).len() == list.len(),
        0 <= i < list.len() ==> text::texts(list)[i] == list[i]@,
{
}

// ---------------------------------------------------------------------------
// Numerals
// ---------------------------------------------------------------------------

/// The number that a row of decimal digits stands for.
pub open spec fn digits_value(s: Seq<char>) -> int
    decreases s.len(),
{
    if s.len() == 0 {
        0
    } else {
        10 * digits_value(s.drop_last()) + (s.last() as int - '0' as int)
    }
}

/// A numeral is made of decimal digits, has no needless zero in front, and stands for its
/// number.
pub proof fn numerals_read_back(n: nat)
    ensures
        digits_value(text::decimal(n)) == n,
        text::decimal(n).len() > 0,
        forall|i: int|
            0 <= i < text::decimal(n).len() ==> '0' <= (#[trigger] text::decimal(n)[i]) <= '9',
        text::decimal(n).len() > 1 ==> text::decimal(n)[0] != '0',
    decreases n,
{
    let s = text::decimal(n);
    assert(digits_value(seq![]) == 0);
    if n < 10 {
        assert(s.drop_last() =~= seq![]);
        assert(s.last() as int == '0' as int + n);
    } else {
        let front = text::decimal(n / 10);
        numerals_read_back(n / 10);
        assert(s.drop_last() =~= front);
        assert(s[0] == front[0]);
        if front.len() == 1 {
            assert(front.drop_last() =~= seq![]);
            assert(digits_value(front) == front.last() as int - '0' as int);
        }
    }
}

// ---------------------------------------------------------------------------
// Offsets
// ---------------------------------------------------------------------------

/// An offset between two characters is the length of the UTF-8 encoding of what stands before
/// it, and a cursor there has exactly that before it.
pub proof fn offsets_count_encoded_bytes(front: Seq<char>, rest: Seq<char>)
    ensures
        ({
            let offset = vstd::utf8::encode_utf8(front).len() as int;
            &&& text::byte_len(front) == offset
            &&& text::offset_of(front + rest, front.len() as int) == offset
            &&& text::on_boundary(front + rest, offset)
            &&& text::caret(front + rest, offset) == front.len()
        }),
{
    text::lemma_byte_len_is_utf8_len(front);
    assert((front + rest).take(front.len() as int) =~= front);
    text::lemma_caret_of_offset(front + rest, front.len() as int);
}

/// Only an offset that ends a front part of the text lies between characters.
pub proof fn boundaries_end_a_front_part(s: Seq<char>, offset: int)
    requires
        text::on_boundary(s, offset),
    ensures
        0 <= text::caret(s, offset) <= s.len(),
        offset == vstd::utf8::encode_utf8(s.take(text::caret(s, offset))).len(),
{
    text::lemma_caret_range(s, offset);
    text::lemma_byte_len_is_utf8_len(s.take(text::caret(s, offset)));
}

// ---------------------------------------------------------------------------
// Order
// ---------------------------------------------------------------------------

/// The first difference decides which text comes first, and a front part comes before the
/// whole.
pub proof fn order_is_lexicographic(
    common: Seq<char>,
    a: char,
    b: char,
    rest: Seq<char>,
    other: Seq<char>,
)
    ensures
        order::precedes(common.push(a) + rest, common.push(b) + other) <==> a < b || a == b
            && order::precedes(rest, other),
        order::precedes(common, common + rest) <==> rest.len() > 0,
        !order::precedes(common + rest, common),
    decreases common.len(),
{
    let x = common.push(a) + rest;
    let y = common.push(b) + other;
    let whole = common + rest;
    if common.len() == 0 {
        assert(x.drop_first() =~= rest);
        assert(y.drop_first() =~= other);
    } else {
        let less = common.drop_first();
        assert(x.drop_first() =~= less.push(a) + rest);
        assert(y.drop_first() =~= less.push(b) + other);
        assert(whole.drop_first() =~= less + rest);
        assert(x[0] == common[0] && y[0] == common[0] && whole[0] == common[0]);
        order_is_lexicographic(less, a, b, rest, other);
    }
}

/// A list that is put in order goes up from each text to every later one, so that none occurs
/// twice, and holds the texts that it held and no others.
pub proof fn ordered_lists_go_up(list: Seq<Seq<char>>, wanted: Seq<char>)
    ensures
        ({
            let ordered = order::sorted_unique(list);
            &&& forall|i: int, j: int|
                0 <= i < j < ordered.len() ==> order::precedes(ordered[i], ordered[j])
            &&& ordered.contains(wanted) <==> list.contains(wanted)
        }),
{
    order::sorted_unique_orders_and_keeps(list);
}

// ---------------------------------------------------------------------------
// Commands
// ---------------------------------------------------------------------------

/// A preview is the whole text, or as many characters of it as are allowed and an ellipsis.
pub proof fn previews_keep_the_front(s: Seq<char>, max: int)
    requires
        0 <= max,
    ensures
        s.len() <= max ==> command::truncated(s, max) == s,
        s.len() > max ==> {
            &&& command::truncated(s, max).len() == max + 1
            &&& command::truncated(s, max).last() == '…'
            &&& forall|i: int| 0 <= i < max ==> #[trigger] command::truncated(s, max)[i] == s[i]
        },
{
}

/// A word ends where white space or the end of the text follows it.
proof fn lemma_word_len(word: Seq<char>, rest: Seq<char>)
    requires
        solid(word),
        rest.len() > 0 ==> text::is_white_space(rest[0]),
    ensures
        command::word_len(word + rest) == word.len(),
    decreases word.len(),
{
    if word.len() > 0 {
        assert((word + rest)[0] == word[0]);
        assert((word + rest).drop_first() =~= word.drop_first() + rest);
        assert forall|i: int| 0 <= i < word.drop_first().len() implies !text::is_white_space(
            #[trigger] word.drop_first()[i],
        ) by {
            assert(word.drop_first()[i] == word[i + 1]);
        }
        lemma_word_len(word.drop_first(), rest);
    } else {
        assert(word + rest =~= rest);
    }
}

/// The leading word of a text is what stands before its first white space.
pub proof fn leading_word_ends_at_white_space(word: Seq<char>, rest: Seq<char>)
    requires
        solid(word),
        rest.len() > 0 ==> text::is_white_space(rest[0]),
    ensures
        command::first_word(word + rest) == word,
{
    lemma_word_len(word, rest);
    assert((word + rest).take(word.len() as int) =~= word);
}

/// A slash, a verb, white space and arguments are split into the verb and the arguments.
pub proof fn slash_commands_are_split(verb: Seq<char>, gap: Seq<char>, arguments: Seq<char>)
    requires
        verb.len() > 0,
        solid(verb),
        blank(gap),
        arguments.len() > 0 ==> gap.len() > 0 && !text::is_white_space(arguments[0]),
    ensures
        command::slash_parts(seq!['/'] + verb + gap + arguments) == Some((verb, arguments)),
{
    let s = seq!['/'] + verb + gap + arguments;
    let raw = s.drop_first();
    let rest = gap + arguments;
    assert(raw =~= verb + rest);
    if rest.len() > 0 {
        assert(gap.len() > 0);
        assert(rest[0] == gap[0]);
    }
    lemma_word_len(verb, rest);
    assert(raw.take(verb.len() as int) =~= verb);
    assert(raw.skip(verb.len() as int) =~= rest);
    leading_white_space_is_cut(gap, arguments);
}

/// Only a slash that a verb follows makes a slash command.
pub proof fn other_texts_are_no_slash_commands(s: Seq<char>)
    ensures
        command::slash_parts(s) is None <==> s.len() == 0 || s[0] != '/' || s.len() == 1
            || text::is_white_space(s[1]),
        command::slash_parts(s) matches Some((verb, arguments)) ==> {
            &&& verb.len() > 0
            &&& solid(verb)
            &&& s.take(verb.len() as int + 1) == seq!['/'] + verb
            &&& arguments == text::trimmed_start(s.skip(verb.len() as int + 1))
        },
{
    if s.len() > 0 && s[0] == '/' {
        let raw = s.drop_first();
        lemma_word_is_solid(raw);
        command::lemma_word_len_range(raw);
        let n = command::word_len(raw) as int;
        if s.len() > 1 {
            assert(raw[0] == s[1]);
        }
        assert(s.take(n + 1) =~= seq!['/'] + raw.take(n));
        assert(s.skip(n + 1) =~= raw.skip(n));
    }
}

/// A word holds no white space.
proof fn lemma_word_is_solid(s: Seq<char>)
    ensures
        command::word_len(s) <= s.len(),
        solid(s.take(command::word_len(s) as int)),
    decreases s.len(),
{
    if s.len() > 0 && !text::is_white_space(s[0]) {
        let tail = s.drop_first();
        lemma_word_is_solid(tail);
        let n = command::word_len(tail) as int;
        assert forall|i: int| 0 <= i < n + 1 implies !text::is_white_space(
            #[trigger] s.take(n + 1)[i],
        ) by {
            if i > 0 {
                assert(s.take(n + 1)[i] == tail.take(n)[i - 1]);
            }
        }
    }
}

/// A verb may hold ASCII letters and digits, hyphens and underscores.
pub proof fn verb_characters(c: char)
    ensures
        command::is_verb_char(c) <==> ('a' <= c && c <= 'z') || ('A' <= c && c <= 'Z') || ('0' <= c
            && c <= '9') || c == '-' || c == '_',
{
}

/// Slashes before something that begins with none are cut off.
proof fn lemma_without_slashes(slashes: Seq<char>, rest: Seq<char>)
    requires
        forall|i: int| 0 <= i < slashes.len() ==> #[trigger] slashes[i] == '/',
        rest.len() > 0 ==> rest[0] != '/',
    ensures
        command::without_slashes(slashes + rest) == rest,
    decreases slashes.len(),
{
    if slashes.len() > 0 {
        assert((slashes + rest)[0] == slashes[0]);
        assert((slashes + rest).drop_first() =~= slashes.drop_first() + rest);
        assert forall|i: int| 0 <= i < slashes.drop_first().len() implies #[trigger]
            slashes.drop_first()[i] == '/' by {
            assert(slashes.drop_first()[i] == slashes[i + 1]);
        }
        lemma_without_slashes(slashes.drop_first(), rest);
    } else {
        assert(slashes + rest =~= rest);
    }
}

/// An advertised command is its verb, whatever blank text and slashes stand around it.
pub proof fn advertised_verbs_are_bared(
    front: Seq<char>,
    slashes: Seq<char>,
    verb: Seq<char>,
    back: Seq<char>,
)
    requires
        blank(front),
        blank(back),
        forall|i: int| 0 <= i < slashes.len() ==> #[trigger] slashes[i] == '/',
        verb.len() > 0,
        forall|i: int|
            0 <= i < verb.len() ==> {
                let c = #[trigger] verb[i];
                ('a' <= c && c <= 'z') || ('A' <= c && c <= 'Z') || ('0' <= c && c <= '9') || c
                    == '-' || c == '_'
            },
    ensures
        command::normalized_verb(front + (slashes + verb) + back) == Some(verb),
{
    let core = slashes + verb;
    assert(core.last() == verb[verb.len() - 1]);
    if slashes.len() > 0 {
        assert(core[0] == slashes[0]);
    } else {
        assert(core[0] == verb[0]);
    }
    trimming_finds_the_core(front, core, back);
    assert(verb[0] != '/');
    lemma_without_slashes(slashes, verb);
}

/// What is advertised with any other character stands for no verb.
pub proof fn other_commands_are_no_verbs(s: Seq<char>)
    ensures
        command::normalized_verb(s) matches Some(verb) ==> {
            &&& verb.len() > 0
            &&& forall|i: int|
                0 <= i < verb.len() ==> {
                    let c = #[trigger] verb[i];
                    ('a' <= c && c <= 'z') || ('A' <= c && c <= 'Z') || ('0' <= c && c <= '9') || c
                        == '-' || c == '_'
                }
            &&& exists|n: int|
                0 <= n <= text::trimmed(s).len() && verb == #[trigger] text::trimmed(s).skip(n)
                    && forall|i: int| 0 <= i < n ==> text::trimmed(s)[i] == '/'
        },
{
    lemma_slashes_only(text::trimmed(s));
}

/// Only slashes are cut off in front.
proof fn lemma_slashes_only(s: Seq<char>)
    ensures
        ({
            let n = s.len() - command::without_slashes(s).len();
            &&& 0 <= n
            &&& command::without_slashes(s) == s.skip(n)
            &&& forall|i: int| 0 <= i < n ==> s[i] == '/'
        }),
    decreases s.len(),
{
    if s.len() > 0 && s[0] == '/' {
        let tail = s.drop_first();
        lemma_slashes_only(tail);
        let n = tail.len() - command::without_slashes(tail).len();
        assert(tail.skip(n) =~= s.skip(n + 1));
        assert forall|i: int| 0 <= i < n + 1 implies s[i] == '/' by {
            if i > 0 {
                assert(s[i] == tail[i - 1]);
            }
        }
    } else {
        assert(s.skip(0) =~= s);
    }
}

/// The last prompt among the first characters is where no later one is.
proof fn lemma_last_mark(s: Seq<char>, mark: int, n: int)
    requires
        -1 <= mark < n <= s.len() || mark == -1 && n == 0,
        mark >= 0 ==> command::is_prompt_mark(s, mark),
        forall|i: int| mark < i < n && i >= 0 ==> !#[trigger] command::is_prompt_mark(s, i),
    ensures
        command::last_prompt_mark(s, n) == mark,
    decreases n,
{
    if n > 0 && !command::is_prompt_mark(s, n - 1) {
        lemma_last_mark(s, mark, n - 1);
    }
}

/// What follows the last `>` that a command follows is kept, whatever stands before it.
pub proof fn the_last_prompt_decides(before: Seq<char>, rest: Seq<char>)
    requires
        text::trimmed_start(rest).len() > 0 && text::trimmed_start(rest)[0] == '/',
        forall|i: int|
            0 <= i < rest.len() && rest[i] == '>' ==> {
                let tail = text::trimmed_start(#[trigger] rest.skip(i + 1));
                tail.len() == 0 || tail[0] != '/'
            },
    ensures
        command::without_prompt(before + seq!['>'] + rest) == text::trimmed_start(rest),
{
    let s = before + seq!['>'] + rest;
    let mark = before.len() as int;
    assert(s[mark] == '>');
    assert(s.contains('>'));
    assert(s.skip(mark + 1) =~= rest);
    assert forall|i: int| mark < i < s.len() && i >= 0 implies !#[trigger] command::is_prompt_mark(
        s,
        i,
    ) by {
        let j = i - mark - 1;
        assert(s[i] == rest[j]);
        assert(s.skip(i + 1) =~= rest.skip(j + 1));
    }
    lemma_last_mark(s, mark, s.len() as int);
}

/// A text in which no command follows a `>` keeps everything but, where it holds a `>`, its
/// leading white space; one without a `>` keeps everything.
pub proof fn texts_without_a_prompt_are_kept(s: Seq<char>)
    requires
        forall|i: int|
            0 <= i < s.len() && s[i] == '>' ==> {
                let tail = text::trimmed_start(#[trigger] s.skip(i + 1));
                tail.len() == 0 || tail[0] != '/'
            },
    ensures
        command::without_prompt(s) == (if s.contains('>') {
            text::trimmed_start(s)
        } else {
            s
        }),
{
    assert forall|i: int| -1 < i < s.len() && i >= 0 implies !#[trigger] command::is_prompt_mark(
        s,
        i,
    ) by {
        if s[i] == '>' {
            let tail = text::trimmed_start(s.skip(i + 1));
            assert(tail.len() == 0 || tail[0] != '/');
        }
    }
    lemma_last_mark(s, -1, s.len() as int);
}

// ---------------------------------------------------------------------------
// The clipboard
// ---------------------------------------------------------------------------

/// The request to a terminal holds the content between the control codes, and it can be read
/// back.
pub proof fn clipboard_requests_read_back(content: Seq<char>)
    ensures
        ({
            let head = seq!['\x1b', ']', '5', '2', ';', 'c', ';'];
            let request = clipboard::clipboard_request(content);
            let middle = request.subrange(7, request.len() - 1);
            &&& request == head + middle + seq!['\x07']
            &&& clipboard::from_base64(middle) == vstd::utf8::encode_utf8(content)
        }),
{
    reveal_strlit("\x1b]52;c;");
    reveal_strlit("\x07");
    let encoded = clipboard::base64(vstd::utf8::encode_utf8(content));
    let request = clipboard::clipboard_request(content);
    assert("\x1b]52;c;"@ =~= seq!['\x1b', ']', '5', '2', ';', 'c', ';']);
    assert("\x07"@ =~= seq!['\x07']);
    assert(request.subrange(7, request.len() - 1) =~= encoded);
    clipboard::base64_can_be_read_back(vstd::utf8::encode_utf8(content));
}

/// A base64 text is made of whole groups of four symbols, one for every three bytes begun,
/// with padding in the last places alone.
pub proof fn base64_comes_in_groups(data: Seq<u8>)
    ensures
        clipboard::base64(data).len() == (data.len() + 2) / 3 * 4,
        forall|i: int|
            0 <= i < clipboard::base64(data).len() ==> {
                let c = #[trigger] clipboard::base64(data)[i];
                ||| 'A' <= c <= 'Z'
                ||| 'a' <= c <= 'z'
                ||| '0' <= c <= '9'
                ||| c == '+'
                ||| c == '/'
                ||| c == '=' && i >= clipboard::base64(data).len() - (3 - (data.len() + 2) % 3 - 1)
            },
    decreases data.len(),
{
    if data.len() > 3 {
        base64_comes_in_groups(data.skip(3));
        lemma_symbols(data.take(3));
        let rest = clipboard::base64(data.skip(3));
        assert((data.len() + 2) / 3 == (data.skip(3).len() + 2) / 3 + 1);
        assert((data.len() + 2) % 3 == (data.skip(3).len() + 2) % 3);
        assert(clipboard::base64(data) =~= clipboard::quad(data.take(3)) + rest);
        assert forall|i: int| 4 <= i < clipboard::base64(data).len() implies #[trigger]
            clipboard::base64(data)[i] == rest[i - 4] by {}
    } else if data.len() > 0 {
        lemma_symbols(data);
    }
}

/// A group holds four symbols.
proof fn lemma_symbols(data: Seq<u8>)
    requires
        0 < data.len() <= 3,
    ensures
        clipboard::quad(data).len() == 4,
        forall|i: int|
            0 <= i < 4 ==> {
                let c = #[trigger] clipboard::quad(data)[i];
                ||| 'A' <= c <= 'Z'
                ||| 'a' <= c <= 'z'
                ||| '0' <= c <= '9'
                ||| c == '+'
                ||| c == '/'
                ||| c == '=' && i > data.len()
            },
{
    let n = clipboard::group(data);
    assert(0 <= n < 16777216);
    assert(0 <= n / 262144 < 64);
    assert(0 <= n / 4096 % 64 < 64);
    assert(0 <= n / 64 % 64 < 64);
    assert(0 <= n % 64 < 64);
}

/// Doubling quotes works part by part: a quote becomes two, and everything else stays.
pub proof fn quotes_are_doubled_part_by_part(a: Seq<char>, b: Seq<char>, c: char)
    ensures
        clipboard::doubled_quotes(a + b) == clipboard::doubled_quotes(a)
            + clipboard::doubled_quotes(b),
        clipboard::doubled_quotes(seq![c]) == (if c == '\'' {
            seq!['\'', '\'']
        } else {
            seq![c]
        }),
        clipboard::doubled_quotes(seq![]) == Seq::<char>::empty(),
    decreases b.len(),
{
    reveal_with_fuel(clipboard::doubled_quotes, 2);
    assert(seq![c].drop_last() =~= seq![]);
    assert(clipboard::doubled_quotes(seq![c]) =~= (if c == '\'' {
        seq!['\'', '\'']
    } else {
        seq![c]
    }));
    if b.len() > 0 {
        quotes_are_doubled_part_by_part(a, b.drop_last(), c);
        assert((a + b).drop_last() =~= a + b.drop_last());
        assert(clipboard::doubled_quotes(a + b) =~= clipboard::doubled_quotes(a)
            + clipboard::doubled_quotes(b));
    } else {
        assert(a + b =~= a);
        assert(clipboard::doubled_quotes(a) + clipboard::doubled_quotes(b)
            =~= clipboard::doubled_quotes(a));
    }
}

} // verus!
