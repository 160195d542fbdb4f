//! Clipboard text as a terminal control sequence.
use vstd::prelude::*;

use crate::text;

verus! {

/// The base64 symbol of a six-bit value.
pub open spec fn symbol(n: int) -> char
    recommends
        0 <= n < 64,
{
    if n < 26 {
        ('A' as u32 + n) as char
    } else if n < 52 {
        ('a' as u32 + (n - 26)) as char
    } else if n < 62 {
        ('0' as u32 + (n - 52)) as char
    } else if n == 62 {
        '+'
    } else {
        '/'
    }
}

/// The byte at `i`, or zero past the end.
pub open spec fn byte_or_zero(data: Seq<u8>, i: int) -> int {
    if i < data.len() {
        data[i] as int
    } else {
        0
    }
}

/// The first three bytes of `data` as one number, padded with zeros.
pub open spec fn group(data: Seq<u8>) -> int {
    byte_or_zero(data, 0) * 65536 + byte_or_zero(data, 1) * 256 + byte_or_zero(data, 2)
}

/// The four symbols that stand for the first three bytes of `data`.
pub open spec fn quad(data: Seq<u8>) -> Seq<char> {
    let n = group(data);
    seq![
        symbol(n / 262144),
        symbol(n / 4096 % 64),
        if data.len() > 1 {
            symbol(n / 64 % 64)
        } else {
            '='
        },
        if data.len() > 2 {
            symbol(n % 64)
        } else {
            '='
        },
    ]
}

/// The padded base64 encoding of `data`.
pub open spec fn base64(data: Seq<u8>) -> Seq<char>
    decreases data.len(),
{
    if data.len() == 0 {
        seq![]
    } else if data.len() <= 3 {
        quad(data)
    } else {
        quad(data) + base64(data.skip(3))
    }
}

/// The base64 symbol of a six-bit value.
fn symbol_char(n: u32) -> (c: char)
    requires
        n < 64,
    ensures
        c == symbol(n as int),
{
    if n < 26 {
        (65 + n as u8) as char
    } else if n < 52 {
        (71 + n as u8) as char
    } else if n < 62 {
        (n as u8 - 4) as char
    } else if n == 62 {
        '+'
    } else {
        '/'
    }
}

/// The padded base64 encoding of `data`.
pub fn base64_encode(data: &[u8]) -> (encoded: String)
    ensures
        encoded@ == base64(data@),
{
    let mut out = String::new();
    let mut i: usize = 0;
    assert(data@.skip(0) =~= data@);
    while i < data.len()
        invariant
            i <= data@.len(),
            out@ + base64(data@.skip(i as int)) == base64(data@),
        decreases data@.len() - i,
    {
        let ghost rest = data@.skip(i as int);
        let left = data.len() - i;
        let b0: u32 = data[i] as u32;
        let b1: u32 = if left > 1 {
            data[i + 1] as u32
        } else {
            0
        };
        let b2: u32 = if left > 2 {
            data[i + 2] as u32
        } else {
            0
        };
        let n: u32 = b0 * 65536 + b1 * 256 + b2;
        assert(n == group(rest));
        let ghost before = out@;
        out.push(symbol_char(n / 262144));
        out.push(symbol_char(n / 4096 % 64));
        out.push(
            if left > 1 {
                symbol_char(n / 64 % 64)
            } else {
                '='
            },
        );
        out.push(
            if left > 2 {
                symbol_char(n % 64)
            } else {
                '='
            },
        );
        assert(out@ =~= before + quad(rest));
        if left > 3 {
            assert(rest.skip(3) =~= data@.skip(i + 3));
            assert(out@ + base64(rest.skip(3)) =~= before + base64(rest));
            i += 3;
        } else {
            i = data.len();
            assert(data@.skip(i as int) =~= Seq::<u8>::empty());
            assert(out@ + base64(data@.skip(i as int)) =~= before + base64(rest));
        }
    }
    assert(data@.skip(i as int) =~= Seq::<u8>::empty());
    assert(out@ + base64(data@.skip(i as int)) =~= out@);
    out
}

/// The control sequence that asks a terminal to put `content` on the clipboard.
pub open spec fn clipboard_request(content: Seq<char>) -> Seq<char> {
    "\x1b]52;c;"@ + base64(vstd::utf8::encode_utf8(content)) + "\x07"@
}

/// The control sequence that asks a terminal to put `text` on the clipboard.
pub fn clipboard_sequence(text: &str) -> (sequence: String)
    ensures
        sequence@ == clipboard_request(text@),
{
    let encoded = base64_encode(text.as_bytes());
    text::glue3("\x1b]52;c;", encoded.as_str(), "\x07")
}

/// `s` with every single quote doubled.
pub open spec fn doubled_quotes(s: Seq<char>) -> Seq<char>
    decreases s.len(),
{
    if s.len() == 0 {
        seq![]
    } else if s.last() == '\'' {
        doubled_quotes(s.drop_last()).push('\'').push('\'')
    } else {
        doubled_quotes(s.drop_last()).push(s.last())
    }
}

/// Doubles every single quote.
fn double_quotes(s: &str) -> (doubled: String)
    ensures
        doubled@ == doubled_quotes(s@),
{
    let chars = text::chars_of(s);
    let mut doubled = String::new();
    let mut i: usize = 0;
    assert(s@.take(0) =~= seq![]);
    while i < chars.len()
        invariant
            chars@ == s@,
            i <= chars@.len(),
            doubled@ == doubled_quotes(s@.take(i as int)),
        decreases chars@.len() - i,
    {
        let c = chars[i];
        proof {
            assert(s@.take(i + 1).drop_last() =~= s@.take(i as int));
            assert(s@.take(i + 1).last() == c);
        }
        doubled.push(c);
        if c == '\'' {
            doubled.push(c);
        }
        i += 1;
    }
    assert(s@.take(i as int) =~= s@);
    doubled
}

/// The PowerShell command that puts the file at `path` on the clipboard.
pub fn set_clipboard_command(path: &str) -> (command: String)
    ensures
        command@ == "Set-Clipboard -LiteralPath '"@ + doubled_quotes(path@) + "'"@,
{
    let quoted = double_quotes(path);
    text::glue3("Set-Clipboard -LiteralPath '", quoted.as_str(), "'")
}

// ---------------------------------------------------------------------------
// Reading back
// ---------------------------------------------------------------------------

/// The six-bit value of a base64 symbol; the padding counts as zero.
pub open spec fn symbol_value(c: char) -> int {
    if 'A' <= c <= 'Z' {
        c as u32 - 'A' as u32
    } else if 'a' <= c <= 'z' {
        c as u32 - 'a' as u32 + 26
    } else if '0' <= c <= '9' {
        c as u32 - '0' as u32 + 52
    } else if c == '+' {
        62
    } else if c == '/' {
        63
    } else {
        0
    }
}

/// The bytes that one quad of symbols stands for.
pub open spec fn quad_bytes(s: Seq<char>) -> Seq<u8> {
    let n = symbol_value(s[0]) * 262144 + symbol_value(s[1]) * 4096 + symbol_value(s[2]) * 64
        + symbol_value(s[3]);
    if s[2] == '=' {
        seq![(n / 65536) as u8]
    } else if s[3] == '=' {
        seq![(n / 65536) as u8, (n / 256 % 256) as u8]
    } else {
        seq![(n / 65536) as u8, (n / 256 % 256) as u8, (n % 256) as u8]
    }
}

/// The bytes that a sequence of quads stands for.
pub open spec fn from_base64(s: Seq<char>) -> Seq<u8>
    decreases s.len(),
{
    if s.len() < 4 {
        seq![]
    } else {
        quad_bytes(s.take(4)) + from_base64(s.skip(4))
    }
}

/// A symbol stands for one value, and is not the padding.
proof fn lemma_symbol_value(n: int)
    requires
        0 <= n < 64,
    ensures
        symbol_value(symbol(n)) == n,
        symbol(n) != '=',
{
}

/// A group of three bytes is made of four sextets.
proof fn lemma_sextets(n: int)
    requires
        0 <= n < 16777216,
    ensures
        0 <= n / 262144 < 64,
        n == n / 262144 * 262144 + n / 4096 % 64 * 4096 + n / 64 % 64 * 64 + n % 64,
{
    assert(n / 64 == n / 4096 * 64 + n / 64 % 64);
    assert(n / 4096 == n / 262144 * 64 + n / 4096 % 64);
}

/// A group gives its three bytes back.
proof fn lemma_bytes(b0: int, b1: int, b2: int)
    requires
        0 <= b0 < 256,
        0 <= b1 < 256,
        0 <= b2 < 256,
    ensures
        ({
            let n = b0 * 65536 + b1 * 256 + b2;
            &&& n / 65536 == b0
            &&& n / 256 % 256 == b1
            &&& n % 256 == b2
            &&& b2 == 0 ==> n % 64 == 0
            &&& b1 == 0 && b2 == 0 ==> n / 64 % 64 == 0
        }),
{
    let n = b0 * 65536 + b1 * 256 + b2;
    assert(n / 256 == b0 * 256 + b1);
    if b1 == 0 && b2 == 0 {
        assert(n / 64 == b0 * 1024);
    }
}

/// Four symbols give the bytes back that they encode.
proof fn lemma_quad_round_trip(data: Seq<u8>)
    requires
        data.len() > 0,
    ensures
        quad_bytes(quad(data)) == data.take(if data.len() < 3 {
            data.len() as int
        } else {
            3
        }),
{
    let n = group(data);
    lemma_bytes(byte_or_zero(data, 0), byte_or_zero(data, 1), byte_or_zero(data, 2));
    lemma_sextets(n);
    lemma_symbol_value(n / 262144);
    lemma_symbol_value(n / 4096 % 64);
    lemma_symbol_value(n / 64 % 64);
    lemma_symbol_value(n % 64);
    let q = quad(data);
    assert(symbol_value(q[2]) == n / 64 % 64);
    assert(symbol_value(q[3]) == n % 64);
    assert(quad_bytes(q) =~= data.take(if data.len() < 3 {
        data.len() as int
    } else {
        3
    }));
}

/// Reading an encoding back gives the encoded bytes.
pub proof fn base64_can_be_read_back(data: Seq<u8>)
    ensures
        from_base64(base64(data)) == data,
    decreases data.len(),
{
    if data.len() > 0 {
        lemma_quad_round_trip(data);
        let q = quad(data);
        let s = base64(data);
        assert(s.take(4) =~= q);
        if data.len() <= 3 {
            assert(s.skip(4) =~= Seq::<char>::empty());
            assert(from_base64(s.skip(4)) =~= Seq::<u8>::empty());
            assert(data.take(data.len() as int) =~= data);
            assert(from_base64(s) =~= data);
        } else {
            assert(s.skip(4) =~= base64(data.skip(3)));
            base64_can_be_read_back(data.skip(3));
            assert(data.take(3) + data.skip(3) =~= data);
        }
    } else {
        assert(from_base64(base64(data)) =~= data);
    }
}

} // verus!
