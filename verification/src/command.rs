//! The command line that a user types: prompt artifacts, verbs and arguments.
use vstd::prelude::*;

use crate::text;

verus! {

// ---------------------------------------------------------------------------
// Previews
// ---------------------------------------------------------------------------

/// The first `max_chars` characters of `s`, marked with an ellipsis if `s` is longer.
pub open spec fn truncated(s: Seq<char>, max_chars: int) -> Seq<char> {
    if s.len() <= max_chars {
        s
    } else {
        s.take(max_chars).push('…')
    }
}

/// A preview of at most `max_chars` characters, with an ellipsis where text was cut.
pub fn truncate_text(text: &str, max_chars: usize) -> (preview: String)
    ensures
        preview@ == truncated(text@, max_chars as int),
{
    let chars = text::chars_of(text);
    if chars.len() <= max_chars {
        text.to_owned()
    } else {
        let mut preview = text::text_of(&chars, 0, max_chars);
        assert(text@.subrange(0, max_chars as int) =~= text@.take(max_chars as int));
        preview.push('…');
        preview
    }
}

// ---------------------------------------------------------------------------
// Prompt artifacts
// ---------------------------------------------------------------------------

/// `s` starts like a command.
pub open spec fn begins_with_slash(s: Seq<char>) -> bool {
    s.len() > 0 && s[0] == '/'
}

/// The character at `i` is a `>` that a command follows.
pub open spec fn is_prompt_mark(s: Seq<char>, i: int) -> bool {
    s[i] == '>' && begins_with_slash(text::trimmed_start(s.skip(i + 1)))
}

/// The last prompt mark among the first `n` characters, or -1.
pub open spec fn last_prompt_mark(s: Seq<char>, n: int) -> int
    decreases n,
{
    if n <= 0 {
        -1
    } else if is_prompt_mark(s, n - 1) {
        n - 1
    } else {
        last_prompt_mark(s, n - 1)
    }
}

/// What is left of `s` without a pasted prompt: everything after the last `>` that a
/// command follows. Text without a `>` stays as it is.
pub open spec fn without_prompt(s: Seq<char>) -> Seq<char> {
    let mark = last_prompt_mark(s, s.len() as int);
    if !s.contains('>') {
        s
    } else if mark >= 0 {
        text::trimmed_start(s.skip(mark + 1))
    } else {
        text::trimmed_start(s)
    }
}

/// Strips a leading transcript or prompt artifact such as `You > ` or `> ` that was
/// pasted along with a command. A command always starts with `/`, so everything after
/// the last `>` whose trailing content begins with `/` is kept. Input without a `>` is
/// returned unchanged, so valid commands are never corrupted.
pub fn strip_prompt_prefix(command: &str) -> (stripped: String)
    ensures
        stripped@ == without_prompt(command@),
{
    let chars = text::chars_of(command);
    let mut n: usize = chars.len();
    let mut seen = false;
    while n > 0
        invariant
            chars@ == command@,
            n <= chars@.len(),
            last_prompt_mark(command@, command@.len() as int) == last_prompt_mark(
                command@,
                n as int,
            ),
            seen <==> exists|i: int| n <= i < command@.len() && command@[i] == '>',
        decreases n,
    {
        if chars[n - 1] == '>' {
            let tail = text::text_of(&chars, n, chars.len());
            assert(command@.subrange(n as int, command@.len() as int) =~= command@.skip(n as int));
            let rest = text::trim_start(tail.as_str());
            if text::starts_with(rest.as_str(), "/") {
                proof {
                    reveal_strlit("/");
                    lemma_begins_with_slash(rest@);
                }
                assert(command@.contains('>'));
                return rest;
            }
            proof {
                reveal_strlit("/");
                lemma_begins_with_slash(rest@);
                assert(command@[n - 1] == '>');
            }
            seen = true;
        }
        n -= 1;
    }
    if seen {
        assert(command@.contains('>'));
        text::trim_start(command)
    } else {
        assert(!command@.contains('>'));
        command.to_owned()
    }
}

/// Starting with the text `/` is starting with the character `/`.
pub proof fn lemma_begins_with_slash(s: Seq<char>)
    ensures
        text::begins_with(s, "/"@) == begins_with_slash(s),
{
    reveal_strlit("/");
    if s.len() > 0 {
        assert(s.take(1)[0] == s[0]);
        if s[0] == '/' {
            assert(s.take(1) =~= "/"@);
        }
    }
}

// ---------------------------------------------------------------------------
// Verbs and arguments
// ---------------------------------------------------------------------------

/// The length of the leading run of characters that are not white space.
pub open spec fn word_len(s: Seq<char>) -> nat
    decreases s.len(),
{
    if s.len() == 0 || text::is_white_space(s[0]) {
        0
    } else {
        1 + word_len(s.drop_first())
    }
}

/// The verb of a slash command and what follows it, if `s` is one.
pub open spec fn slash_parts(s: Seq<char>) -> Option<(Seq<char>, Seq<char>)> {
    if !begins_with_slash(s) {
        None
    } else {
        let raw = s.drop_first();
        let n = word_len(raw) as int;
        if n == 0 {
            None
        } else {
            Some((raw.take(n), text::trimmed_start(raw.skip(n))))
        }
    }
}

/// A word is no longer than the text that it begins.
pub proof fn lemma_word_len_range(s: Seq<char>)
    ensures
        word_len(s) <= s.len(),
    decreases s.len(),
{
    if s.len() > 0 && !text::is_white_space(s[0]) {
        lemma_word_len_range(s.drop_first());
    }
}

/// The end of the word that starts at `from`.
pub fn word_end(chars: &Vec<char>, from: usize) -> (to: usize)
    requires
        from <= chars@.len(),
    ensures
        to == from + word_len(chars@.skip(from as int)),
        to <= chars@.len(),
{
    let mut i: usize = from;
    while i < chars.len() && !text::white_space(chars[i])
        invariant
            from <= i <= chars@.len(),
            from + word_len(chars@.skip(from as int)) == i + word_len(chars@.skip(i as int)),
        decreases chars@.len() - i,
    {
        assert(chars@.skip(i as int).drop_first() =~= chars@.skip(i + 1));
        i += 1;
    }
    assert(chars@.skip(i as int).len() == chars@.len() - i);
    i
}

/// Splits a slash command into its verb and its arguments.
pub fn split_slash_command(command: &str) -> (parts: Option<(String, String)>)
    ensures
        match parts {
            Some((verb, arguments)) => slash_parts(command@) == Some((verb@, arguments@)),
            None => slash_parts(command@) is None,
        },
{
    let chars = text::chars_of(command);
    if chars.len() == 0 || chars[0] != '/' {
        return None;
    }
    let end = word_end(&chars, 1);
    assert(command@.skip(1) =~= command@.drop_first());
    if end == 1 {
        return None;
    }
    let verb = text::text_of(&chars, 1, end);
    let remainder = text::text_of(&chars, end, chars.len());
    assert(verb@ =~= command@.drop_first().take(end - 1));
    assert(remainder@ =~= command@.drop_first().skip(end - 1));
    Some((verb, text::trim_start(remainder.as_str())))
}

/// The leading run of `s` up to its first white space.
pub open spec fn first_word(s: Seq<char>) -> Seq<char> {
    s.take(word_len(s) as int)
}

/// The leading word of `s`.
pub fn leading_word(s: &str) -> (word: String)
    ensures
        word@ == first_word(s@),
{
    let chars = text::chars_of(s);
    let end = word_end(&chars, 0);
    assert(s@.skip(0) =~= s@);
    assert(s@.subrange(0, end as int) =~= s@.take(end as int));
    text::text_of(&chars, 0, end)
}

// ---------------------------------------------------------------------------
// Advertised verbs
// ---------------------------------------------------------------------------

/// A character that a verb may hold.
pub open spec fn is_verb_char(c: char) -> bool {
    ||| 'a' <= c <= 'z'
    ||| 'A' <= c <= 'Z'
    ||| '0' <= c <= '9'
    ||| c == '-'
    ||| c == '_'
}

/// `s` without its leading slashes.
pub open spec fn without_slashes(s: Seq<char>) -> Seq<char>
    decreases s.len(),
{
    if s.len() > 0 && s[0] == '/' {
        without_slashes(s.drop_first())
    } else {
        s
    }
}

/// A verb consists of verb characters, at least one.
pub open spec fn is_verb(s: Seq<char>) -> bool {
    s.len() > 0 && forall|i: int| 0 <= i < s.len() ==> is_verb_char(#[trigger] s[i])
}

/// The verb that the advertised command `s` stands for, if it is one.
pub open spec fn normalized_verb(s: Seq<char>) -> Option<Seq<char>> {
    let verb = without_slashes(text::trimmed(s));
    if is_verb(verb) {
        Some(verb)
    } else {
        None
    }
}

/// Brings an advertised command into the form of a bare verb.
pub fn normalize_backend_command(command: String) -> (verb: Option<String>)
    ensures
        text::opt_text(verb) == normalized_verb(command@),
{
    let bare = text::trim(command.as_str());
    let chars = text::chars_of(bare.as_str());
    let mut from: usize = 0;
    assert(bare@.skip(0) =~= bare@);
    while from < chars.len() && chars[from] == '/'
        invariant
            chars@ == bare@,
            from <= chars@.len(),
            without_slashes(bare@) == without_slashes(bare@.skip(from as int)),
        decreases chars@.len() - from,
    {
        assert(bare@.skip(from as int).drop_first() =~= bare@.skip(from + 1));
        from += 1;
    }
    let verb = text::text_of(&chars, from, chars.len());
    assert(verb@ =~= bare@.skip(from as int));
    if from == chars.len() {
        return None;
    }
    let mut i: usize = from;
    while i < chars.len()
        invariant
            chars@ == bare@,
            from <= i <= chars@.len(),
            verb@ == bare@.skip(from as int),
            forall|j: int| from <= j < i ==> is_verb_char(#[trigger] chars@[j]),
            normalized_verb(command@) == (if is_verb(verb@) {
                Some(verb@)
            } else {
                None
            }),
        decreases chars@.len() - i,
    {
        let c = chars[i];
        if !(('a' <= c && c <= 'z') || ('A' <= c && c <= 'Z') || ('0' <= c && c <= '9') || c == '-'
            || c == '_') {
            assert(verb@[i - from] == c);
            return None;
        }
        i += 1;
    }
    assert forall|j: int| 0 <= j < verb@.len() implies is_verb_char(#[trigger] verb@[j]) by {
        assert(chars@[j + from] == verb@[j]);
    }
    Some(verb)
}

// ---------------------------------------------------------------------------
// Laws
// ---------------------------------------------------------------------------

/// The last prompt mark is a mark, and there is none behind it.
proof fn lemma_last_prompt_mark(s: Seq<char>, n: int)
    ensures
        -1 <= last_prompt_mark(s, n),
        last_prompt_mark(s, n) >= 0 ==> last_prompt_mark(s, n) < n && is_prompt_mark(
            s,
            last_prompt_mark(s, n),
        ),
        forall|i: int|
            last_prompt_mark(s, n) < i < n && i >= 0 ==> !#[trigger] is_prompt_mark(s, i),
    decreases n,
{
    if n > 0 && !is_prompt_mark(s, n - 1) {
        lemma_last_prompt_mark(s, n - 1);
    }
}

/// Trimming leaves the rest of the text from some place on, which is not white space.
proof fn lemma_trimmed_start(s: Seq<char>) -> (from: int)
    ensures
        0 <= from <= s.len(),
        text::trimmed_start(s) == s.skip(from),
        from < s.len() ==> !text::is_white_space(s[from]),
    decreases s.len(),
{
    if s.len() > 0 && text::is_white_space(s[0]) {
        let from = lemma_trimmed_start(s.drop_first());
        assert(s.drop_first().skip(from) =~= s.skip(from + 1));
        from + 1
    } else {
        assert(s.skip(0) =~= s);
        0
    }
}

/// A rest of `s` has the marks that `s` has there.
proof fn lemma_marks_of_rest(s: Seq<char>, from: int)
    requires
        0 <= from <= s.len(),
    ensures
        forall|i: int|
            0 <= i < s.skip(from).len() ==> #[trigger] is_prompt_mark(s.skip(from), i)
                == is_prompt_mark(s, from + i),
{
    assert forall|i: int| 0 <= i < s.skip(from).len() implies #[trigger] is_prompt_mark(
        s.skip(from),
        i,
    ) == is_prompt_mark(s, from + i) by {
        assert(s.skip(from).skip(i + 1) =~= s.skip(from + i + 1));
    }
}

/// A pasted prompt is stripped, whatever stands before it, and a command without a prompt is
/// left untouched.
pub proof fn pasted_prompts_are_stripped(prompt: Seq<char>, command: Seq<char>)
    requires
        begins_with_slash(command),
        !command.contains('>'),
    ensures
        without_prompt(prompt + "> "@ + command) == command,
        without_prompt(command) == command,
{
    reveal_strlit("> ");
    let s = prompt + "> "@ + command;
    let m = prompt.len() as int;
    assert(s[m] == '>');
    assert(s.contains('>'));
    let rest = s.skip(m + 1);
    assert(rest[0] == ' ');
    assert(rest.drop_first() =~= command);
    assert(text::trimmed_start(command) == command);
    assert(text::trimmed_start(rest) == command);
    assert(is_prompt_mark(s, m));
    lemma_last_prompt_mark(s, s.len() as int);
    let last = last_prompt_mark(s, s.len() as int);
    if last > m {
        assert(s[last] == '>');
        if last > m + 1 {
            assert(command[last - m - 2] == '>');
            assert(command.contains('>'));
        }
    }
    assert(last == m);
}

/// Stripping twice strips no more than stripping once.
pub proof fn stripping_is_idempotent(s: Seq<char>)
    ensures
        without_prompt(without_prompt(s)) == without_prompt(s),
{
    let n = s.len() as int;
    let mark = last_prompt_mark(s, n);
    lemma_last_prompt_mark(s, n);
    if s.contains('>') {
        let start = if mark >= 0 {
            mark + 1
        } else {
            0
        };
        assert(s.skip(0) =~= s);
        let from = lemma_trimmed_start(s.skip(start));
        let kept = without_prompt(s);
        assert(s.skip(start).skip(from) =~= s.skip(start + from));
        assert(kept == s.skip(start + from));
        lemma_marks_of_rest(s, start + from);
        lemma_last_prompt_mark(kept, kept.len() as int);
        let again = last_prompt_mark(kept, kept.len() as int);
        if again >= 0 {
            assert(is_prompt_mark(s, start + from + again));
        }
        if kept.len() > 0 {
            assert(kept[0] == s.skip(start)[from]);
        }
        assert(text::trimmed_start(kept) == kept);
    }
}

} // verus!
