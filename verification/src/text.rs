//! Text as a sequence of characters: trimming, byte widths, decimal numerals and
//! the small building blocks that messages are glued together from.
use vstd::prelude::*;

verus! {

/// `String::push` appends one character.
pub assume_specification[ String::push ](s: &mut String, ch: char)
    ensures
        final(s)@ == old(s)@.push(ch),
;

/// Collects the characters of `s`.
pub fn chars_of(s: &str) -> (chars: Vec<char>)
    ensures
        chars@ == s@,
{
    let mut chars: Vec<char> = Vec::new();
    for c in it: s.chars()
        invariant
            chars@ == it.seq().take(it.index() as int),
            it.seq() == s@,
    {
        chars.push(c);
    }
    chars
}

/// The characters `from..to` as an owned text.
pub fn text_of(chars: &Vec<char>, from: usize, to: usize) -> (text: String)
    requires
        from <= to <= chars@.len(),
    ensures
        text@ == chars@.subrange(from as int, to as int),
{
    let mut text = String::new();
    let mut i: usize = from;
    while i < to
        invariant
            from <= i <= to <= chars@.len(),
            text@ == chars@.subrange(from as int, i as int),
        decreases to - i,
    {
        text.push(chars[i]);
        i += 1;
    }
    text
}


// ---------------------------------------------------------------------------
// Gluing messages
// ---------------------------------------------------------------------------

/// `a` followed by `b`.
pub fn glue(a: &str, b: &str) -> (text: String)
    ensures
        text@ == a@ + b@,
{
    let mut text = a.to_owned();
    text.append(b);
    text
}

/// `a`, `b` and `c` in a row.
pub fn glue3(a: &str, b: &str, c: &str) -> (text: String)
    ensures
        text@ == a@ + b@ + c@,
{
    let mut text = glue(a, b);
    text.append(c);
    text
}

/// `a`, `b`, `c` and `d` in a row.
pub fn glue4(a: &str, b: &str, c: &str, d: &str) -> (text: String)
    ensures
        text@ == a@ + b@ + c@ + d@,
{
    let mut text = glue3(a, b, c);
    text.append(d);
    text
}

/// `a`, `b`, `c`, `d` and `e` in a row.
pub fn glue5(a: &str, b: &str, c: &str, d: &str, e: &str) -> (text: String)
    ensures
        text@ == a@ + b@ + c@ + d@ + e@,
{
    let mut text = glue4(a, b, c, d);
    text.append(e);
    text
}

// ---------------------------------------------------------------------------
// Lists of texts
// ---------------------------------------------------------------------------

/// The contents of each text in a list.
pub open spec fn texts(list: Seq<String>) -> Seq<Seq<char>> {
    list.map_values(|item: String| item@)
}

/// The contents of an optional text.
pub open spec fn opt_text(text: Option<String>) -> Option<Seq<char>> {
    match text {
        Some(inner) => Some(inner@),
        None => None,
    }
}

/// One more text adds its content behind the others.
pub broadcast proof fn lemma_texts_push(list: Seq<String>, item: String)
    ensures
        #[trigger] texts(list.push(item)) == texts(list).push(item@),
{
    assert(texts(list.push(item)) =~= texts(list).push(item@));
}

// ---------------------------------------------------------------------------
// Comparing texts
// ---------------------------------------------------------------------------

/// `s` begins with `prefix`.
pub open spec fn begins_with(s: Seq<char>, prefix: Seq<char>) -> bool {
    prefix.len() <= s.len() && s.take(prefix.len() as int) == prefix
}

/// A text begins with its own front part.
pub proof fn lemma_begins_with(front: Seq<char>, rest: Seq<char>)
    ensures
        begins_with(front + rest, front),
{
    assert((front + rest).take(front.len() as int) =~= front);
}

/// Whether `a` and `b` hold the same characters.
pub fn same_text(a: &str, b: &str) -> (same: bool)
    ensures
        same == (a@ == b@),
{
    let left = chars_of(a);
    let right = chars_of(b);
    if left.len() != right.len() {
        return false;
    }
    let mut i: usize = 0;
    while i < left.len()
        invariant
            left@ == a@,
            right@ == b@,
            left@.len() == right@.len(),
            i <= left@.len(),
            forall|j: int| 0 <= j < i ==> left@[j] == right@[j],
        decreases left@.len() - i,
    {
        if left[i] != right[i] {
            assert(a@[i as int] != b@[i as int]);
            return false;
        }
        i += 1;
    }
    assert(a@ =~= b@);
    true
}

/// Whether `s` begins with `prefix`.
pub fn starts_with(s: &str, prefix: &str) -> (yes: bool)
    ensures
        yes == begins_with(s@, prefix@),
{
    let whole = chars_of(s);
    let head = chars_of(prefix);
    if head.len() > whole.len() {
        return false;
    }
    let mut i: usize = 0;
    while i < head.len()
        invariant
            whole@ == s@,
            head@ == prefix@,
            head@.len() <= whole@.len(),
            i <= head@.len(),
            forall|j: int| 0 <= j < i ==> whole@[j] == head@[j],
        decreases head@.len() - i,
    {
        if whole[i] != head[i] {
            assert(s@.take(prefix@.len() as int)[i as int] != prefix@[i as int]);
            return false;
        }
        i += 1;
    }
    assert(s@.take(prefix@.len() as int) =~= prefix@);
    true
}

/// Whether `list` holds the text `wanted`.
pub fn contains_text(list: &Vec<String>, wanted: &str) -> (found: bool)
    ensures
        found == texts(list@).contains(wanted@),
{
    let mut i: usize = 0;
    while i < list.len()
        invariant
            i <= list@.len(),
            forall|j: int| 0 <= j < i ==> (#[trigger] list@[j])@ != wanted@,
        decreases list@.len() - i,
    {
        if same_text(list[i].as_str(), wanted) {
            assert(texts(list@)[i as int] == wanted@);
            return true;
        }
        i += 1;
    }
    assert forall|j: int| 0 <= j < texts(list@).len() implies texts(list@)[j] != wanted@ by {
        assert(list@[j]@ != wanted@);
    }
    false
}

// ---------------------------------------------------------------------------
// White space
// ---------------------------------------------------------------------------

/// The Unicode `White_Space` property.
pub open spec fn is_white_space(c: char) -> bool {
    let u = c as u32;
    ||| 0x09 <= u <= 0x0d
    ||| u == 0x20
    ||| u == 0x85
    ||| u == 0xa0
    ||| u == 0x1680
    ||| 0x2000 <= u <= 0x200a
    ||| u == 0x2028
    ||| u == 0x2029
    ||| u == 0x202f
    ||| u == 0x205f
    ||| u == 0x3000
}

/// Whether `c` is white space.
pub fn white_space(c: char) -> (yes: bool)
    ensures
        yes == is_white_space(c),
{
    let u: u32 = c as u32;
    (0x09 <= u && u <= 0x0d) || u == 0x20 || u == 0x85 || u == 0xa0 || u == 0x1680 || (0x2000 <= u
        && u <= 0x200a) || u == 0x2028 || u == 0x2029 || u == 0x202f || u == 0x205f || u == 0x3000
}

/// `s` without its leading white space.
pub open spec fn trimmed_start(s: Seq<char>) -> Seq<char>
    decreases s.len(),
{
    if s.len() > 0 && is_white_space(s[0]) {
        trimmed_start(s.drop_first())
    } else {
        s
    }
}

/// `s` without its trailing white space.
pub open spec fn trimmed_end(s: Seq<char>) -> Seq<char>
    decreases s.len(),
{
    if s.len() > 0 && is_white_space(s.last()) {
        trimmed_end(s.drop_last())
    } else {
        s
    }
}

/// `s` without white space at either end.
pub open spec fn trimmed(s: Seq<char>) -> Seq<char> {
    trimmed_end(trimmed_start(s))
}

/// `s` without its leading white space.
pub fn trim_start(s: &str) -> (rest: String)
    ensures
        rest@ == trimmed_start(s@),
{
    let chars = chars_of(s);
    let mut i: usize = 0;
    assert(s@.skip(0) =~= s@);
    while i < chars.len() && white_space(chars[i])
        invariant
            chars@ == s@,
            i <= chars@.len(),
            trimmed_start(s@) == trimmed_start(s@.skip(i as int)),
        decreases chars@.len() - i,
    {
        assert(s@.skip(i as int).drop_first() =~= s@.skip(i + 1));
        i += 1;
    }
    assert(s@.subrange(i as int, s@.len() as int) =~= s@.skip(i as int));
    text_of(&chars, i, chars.len())
}

/// `s` without its trailing white space.
pub fn trim_end(s: &str) -> (rest: String)
    ensures
        rest@ == trimmed_end(s@),
{
    let chars = chars_of(s);
    let mut i: usize = chars.len();
    assert(s@.take(s@.len() as int) =~= s@);
    while i > 0 && white_space(chars[i - 1])
        invariant
            chars@ == s@,
            i <= chars@.len(),
            trimmed_end(s@) == trimmed_end(s@.take(i as int)),
        decreases i,
    {
        assert(s@.take(i as int).drop_last() =~= s@.take(i - 1));
        i -= 1;
    }
    assert(s@.subrange(0, i as int) =~= s@.take(i as int));
    text_of(&chars, 0, i)
}

/// `s` without white space at either end.
pub fn trim(s: &str) -> (rest: String)
    ensures
        rest@ == trimmed(s@),
{
    let head = trim_start(s);
    trim_end(head.as_str())
}

// ---------------------------------------------------------------------------
// Letter case
// ---------------------------------------------------------------------------

/// The upper case of `s`, as `str::to_uppercase` maps it.
pub uninterp spec fn upper_case(s: Seq<char>) -> Seq<char>;

/// Maps `s` to upper case with `str::to_uppercase`, whose Unicode mapping is named
/// [`upper_case`]; nothing more is claimed of it.
#[verifier::external_body]
pub(crate) fn to_upper_case(s: &str) -> (upper: String)
    ensures
        upper@ == upper_case(s@),
{
    s.to_uppercase()
}

/// `c` in lower case where it is an ASCII letter.
pub open spec fn ascii_lower(c: char) -> char {
    if 'A' <= c <= 'Z' {
        (c as u32 + 32) as char
    } else {
        c
    }
}

/// `s` with its ASCII letters in lower case.
pub open spec fn lowered(s: Seq<char>) -> Seq<char> {
    s.map_values(|c: char| ascii_lower(c))
}

/// `s` with its ASCII letters in lower case.
pub fn to_ascii_lower(s: &str) -> (lower: String)
    ensures
        lower@ == lowered(s@),
{
    let mut lower = String::new();
    let chars = chars_of(s);
    let mut i: usize = 0;
    while i < chars.len()
        invariant
            chars@ == s@,
            i <= chars@.len(),
            lower@ == lowered(s@.take(i as int)),
        decreases chars@.len() - i,
    {
        let c = chars[i];
        let ghost before = lower@;
        if 'A' <= c && c <= 'Z' {
            lower.push((c as u8 + 32) as char);
        } else {
            lower.push(c);
        }
        assert(lower@ == before.push(ascii_lower(c)));
        assert(lowered(s@.take(i + 1)) =~= lowered(s@.take(i as int)).push(ascii_lower(c)));
        i += 1;
    }
    assert(s@.take(i as int) =~= s@);
    lower
}

// ---------------------------------------------------------------------------
// Byte offsets
// ---------------------------------------------------------------------------

/// The number of bytes that `c` takes in UTF-8.
pub open spec fn width(c: char) -> nat {
    let u = c as u32;
    if u < 0x80 {
        1
    } else if u < 0x800 {
        2
    } else if u < 0x10000 {
        3
    } else {
        4
    }
}

/// The number of bytes that `s` takes in UTF-8.
pub open spec fn byte_len(s: Seq<char>) -> nat
    decreases s.len(),
{
    if s.len() == 0 {
        0
    } else {
        byte_len(s.drop_last()) + width(s.last())
    }
}

/// The byte offset at which the `k`-th character of `s` starts.
pub open spec fn offset_of(s: Seq<char>, k: int) -> nat {
    byte_len(s.take(k))
}

/// How many characters of `s` lie wholly before the byte `offset`.
pub open spec fn caret(s: Seq<char>, offset: int) -> int
    decreases s.len(),
{
    if s.len() == 0 || byte_len(s) <= offset {
        s.len() as int
    } else {
        caret(s.drop_last(), offset)
    }
}

/// `offset` falls between two characters of `s`, or at either end.
pub open spec fn on_boundary(s: Seq<char>, offset: int) -> bool {
    offset_of(s, caret(s, offset)) == offset
}

/// The lengths of two parts add up.
pub proof fn lemma_byte_len_concat(a: Seq<char>, b: Seq<char>)
    ensures
        byte_len(a + b) == byte_len(a) + byte_len(b),
    decreases b.len(),
{
    if b.len() == 0 {
        assert(a + b =~= a);
    } else {
        assert((a + b).drop_last() =~= a + b.drop_last());
        lemma_byte_len_concat(a, b.drop_last());
    }
}

/// `byte_len` is the length of the UTF-8 encoding.
pub proof fn lemma_byte_len_is_utf8_len(s: Seq<char>)
    ensures
        byte_len(s) == vstd::utf8::encode_utf8(s).len(),
    decreases s.len(),
{
    if s.len() > 0 {
        let head = s.take(1);
        let rest = s.drop_first();
        assert(s =~= head + rest);
        lemma_byte_len_concat(head, rest);
        assert(head.drop_last() =~= Seq::<char>::empty());
        assert(byte_len(Seq::<char>::empty()) == 0);
        assert(byte_len(head) == width(s[0]));
        vstd::utf8::char_is_scalar(s[0]);
        assert(vstd::utf8::encode_scalar(s[0] as u32).len() == width(s[0]));
        lemma_byte_len_is_utf8_len(rest);
    }
}

/// Every character takes at least one byte.
pub proof fn lemma_offset_increases(s: Seq<char>, i: int, j: int)
    requires
        0 <= i <= j <= s.len(),
    ensures
        offset_of(s, i) + (j - i) <= offset_of(s, j),
    decreases j - i,
{
    if i < j {
        lemma_offset_increases(s, i, j - 1);
        assert(s.take(j).drop_last() =~= s.take(j - 1));
    }
}

/// The start of the `k`-th character is a boundary, with `k` characters before it.
pub proof fn lemma_caret_of_offset(s: Seq<char>, k: int)
    requires
        0 <= k <= s.len(),
    ensures
        caret(s, offset_of(s, k) as int) == k,
        on_boundary(s, offset_of(s, k) as int),
    decreases s.len(),
{
    assert(s.take(s.len() as int) =~= s);
    lemma_offset_increases(s, k, s.len() as int);
    if k < s.len() {
        assert(s.drop_last().take(k) =~= s.take(k));
        lemma_caret_of_offset(s.drop_last(), k);
    }
}

/// A cursor has no more characters before it than there are.
pub proof fn lemma_caret_range(s: Seq<char>, offset: int)
    ensures
        0 <= caret(s, offset) <= s.len(),
    decreases s.len(),
{
    if s.len() > 0 && byte_len(s) > offset {
        lemma_caret_range(s.drop_last(), offset);
    }
}

/// The number of bytes that `c` takes in UTF-8.
pub fn char_width(c: char) -> (bytes: usize)
    ensures
        bytes == width(c),
{
    let u: u32 = c as u32;
    if u < 0x80 {
        1
    } else if u < 0x800 {
        2
    } else if u < 0x10000 {
        3
    } else {
        4
    }
}

/// The length of `s` in bytes.
pub fn byte_length(s: &str) -> (bytes: usize)
    ensures
        bytes == byte_len(s@),
{
    proof {
        lemma_byte_len_is_utf8_len(s@);
    }
    let bytes = s.as_bytes();
    bytes.len()
}

/// How many characters lie before the byte `offset`.
pub fn caret_at(s: &str, offset: usize) -> (k: usize)
    requires
        on_boundary(s@, offset as int),
    ensures
        k == caret(s@, offset as int),
        k <= s@.len(),
{
    let chars = chars_of(s);
    let count = chars.len();
    let mut k: usize = 0;
    let mut bytes: usize = 0;
    let ghost goal = caret(s@, offset as int);
    proof {
        lemma_caret_range(s@, offset as int);
    }
    while bytes < offset
        invariant
            chars@ == s@,
            count == s@.len(),
            0 <= goal <= count,
            offset_of(s@, goal) == offset,
            k <= goal,
            bytes == offset_of(s@, k as int),
        decreases offset - bytes,
    {
        proof {
            lemma_offset_increases(s@, k as int, goal);
            if k < goal {
                lemma_offset_increases(s@, k as int + 1, goal);
            }
            assert(s@.take(k as int + 1).drop_last() =~= s@.take(k as int));
        }
        bytes += char_width(chars[k]);
        k += 1;
    }
    proof {
        lemma_offset_increases(s@, k as int, goal);
    }
    k
}

/// The start of the character before the byte `index`, or 0 at the beginning.
pub fn previous_char_boundary(text: &str, index: usize) -> (previous: usize)
    requires
        on_boundary(text@, index as int),
    ensures
        caret(text@, index as int) == 0 ==> previous == 0,
        caret(text@, index as int) > 0 ==> previous == offset_of(
            text@,
            caret(text@, index as int) - 1,
        ),
{
    let k = caret_at(text, index);
    if k == 0 {
        0
    } else {
        let chars = chars_of(text);
        proof {
            assert(text@.take(k as int).drop_last() =~= text@.take(k - 1));
        }
        index - char_width(chars[k - 1])
    }
}

/// The end of the character after the byte `index`, or `index` at the end.
pub fn next_char_boundary(text: &str, index: usize) -> (next: usize)
    requires
        on_boundary(text@, index as int),
    ensures
        caret(text@, index as int) == text@.len() ==> next == index,
        caret(text@, index as int) < text@.len() ==> next == offset_of(
            text@,
            caret(text@, index as int) + 1,
        ),
{
    let k = caret_at(text, index);
    let chars = chars_of(text);
    if k == chars.len() {
        index
    } else {
        let total = byte_length(text);
        proof {
            assert(text@.take(k + 1).drop_last() =~= text@.take(k as int));
            lemma_offset_increases(text@, k + 1, text@.len() as int);
            assert(text@.take(text@.len() as int) =~= text@);
        }
        index + char_width(chars[k])
    }
}

// ---------------------------------------------------------------------------
// Numerals
// ---------------------------------------------------------------------------

/// The decimal digit of `n`.
pub open spec fn digit(n: nat) -> char
    recommends
        n < 10,
{
    (('0' as u32) + n) as char
}

/// The decimal numeral of `n`.
pub open spec fn decimal(n: nat) -> Seq<char>
    decreases n,
{
    if n < 10 {
        seq![digit(n)]
    } else {
        decimal(n / 10).push(digit(n % 10))
    }
}

/// The decimal digit of `n`.
fn digit_char(n: u64) -> (c: char)
    requires
        n < 10,
    ensures
        c == digit(n as nat),
{
    (48 + n as u8) as char
}

/// The decimal numeral of `n`.
pub fn numeral(n: u64) -> (text: String)
    ensures
        text@ == decimal(n as nat),
    decreases n,
{
    if n < 10 {
        let mut text = String::new();
        text.push(digit_char(n));
        assert(text@ =~= seq![digit(n as nat)]);
        text
    } else {
        let mut text = numeral(n / 10);
        text.push(digit_char(n % 10));
        text
    }
}

} // verus!
