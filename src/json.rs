//! What the library takes from rustc_serialize's JSON support, quoting a string
//! and reading the top level of a JSON document, and the limits within which
//! its parser is given a document.

use rustc_serialize::json::Json;
use vstd::prelude::*;
use vstd::utf8::encode_utf8;

verus! {

/// A lowercase hexadecimal digit.
pub open spec fn hex_digit(n: nat) -> char {
    seq!['0', '1', '2', '3', '4', '5', '6', '7', '8', '9', 'a', 'b', 'c', 'd', 'e', 'f'][n as int]
}

/// How one character stands inside a JSON string literal: quote and backslash
/// behind a backslash, the five short escapes, `\u00XX` for the other control
/// characters and for DEL, and every other character as it is.
pub open spec fn escaped_char(c: char) -> Seq<char> {
    if c == '"' {
        seq!['\\', '"']
    } else if c == '\\' {
        seq!['\\', '\\']
    } else if c == '\x08' {
        seq!['\\', 'b']
    } else if c == '\t' {
        seq!['\\', 't']
    } else if c == '\n' {
        seq!['\\', 'n']
    } else if c == '\x0c' {
        seq!['\\', 'f']
    } else if c == '\r' {
        seq!['\\', 'r']
    } else if (c as u32) < 0x20 || (c as u32) == 0x7f {
        seq!['\\', 'u', '0', '0', hex_digit((c as u32 / 16) as nat), hex_digit((c as u32 % 16) as nat)]
    } else {
        seq![c]
    }
}

/// The characters of `s`, each escaped.
pub open spec fn escaped(s: Seq<char>) -> Seq<char>
    decreases s.len(),
{
    if s.len() == 0 {
        seq![]
    } else {
        escaped(s.drop_last()) + escaped_char(s.last())
    }
}

/// The JSON string literal for `s`, quotes included.
pub open spec fn json_quoted(s: Seq<char>) -> Seq<char> {
    seq!['"'] + escaped(s) + seq!['"']
}

/// The deepest nesting of arrays and objects that the parser is given.
pub const MAX_DEPTH: u32 = 128;

/// The longest object key, in bytes as written, that the parser is given.
/// The parser keeps the keys of the open objects in one buffer indexed by `u16`;
/// `MAX_DEPTH` keys of this length stay below 65536 bytes.
pub const MAX_KEY: u32 = 511;

/// The most digits that an exponent may have. The parser sums them in a
/// `usize` without a check; nine stay in range where `usize` has 32 bits.
pub const MAX_EXPONENT_DIGITS: u32 = 9;

/// Where a left-to-right reading of a JSON text stands: inside a string or not,
/// just after a backslash in one, the depth of open arrays and objects, the
/// length of the current or last string (counted up to `MAX_KEY + 1`), whether
/// that string may still turn out to be a key, whether the last byte outside
/// whitespace was a comma, and whether an exponent is being read, with the
/// number of its digits so far.
#[derive(Clone, Copy, PartialEq, Eq, Structural)]
pub struct Scan {
    pub in_string: bool,
    pub escaped: bool,
    pub depth: u32,
    pub run: u32,
    pub pending: bool,
    pub after_comma: bool,
    pub in_exponent: bool,
    pub exponent_digits: u32,
}

/// The reading before the first byte.
pub open spec fn scan_start() -> Scan {
    Scan {
        in_string: false,
        escaped: false,
        depth: 0,
        run: 0,
        pending: false,
        after_comma: false,
        in_exponent: false,
        exponent_digits: 0,
    }
}

/// A string length one byte longer, counted up to `MAX_KEY + 1`.
pub open spec fn longer(run: u32) -> u32 {
    if run > MAX_KEY {
        run
    } else {
        (run + 1) as u32
    }
}

/// The reading after a byte outside strings that is neither whitespace nor
/// part of an exponent: no key is pending, no comma is open, no exponent runs.
pub open spec fn plain(st: Scan) -> Scan {
    Scan { pending: false, after_comma: false, in_exponent: false, ..st }
}

/// The reading after one more byte, or `None` where that byte:
/// opens a level beyond `MAX_DEPTH`; closes a level that was not opened;
/// closes an object right after a comma; is the colon after a key longer than
/// `MAX_KEY`; or is an exponent digit beyond `MAX_EXPONENT_DIGITS`.
pub open spec fn scan_step(st: Scan, c: u8) -> Option<Scan> {
    if st.in_string {
        if st.escaped {
            Some(Scan { escaped: false, run: longer(st.run), ..st })
        } else if c == 0x5c {
            Some(Scan { escaped: true, run: longer(st.run), ..st })
        } else if c == 0x22 {
            Some(Scan { in_string: false, pending: true, ..st })
        } else {
            Some(Scan { run: longer(st.run), ..st })
        }
    } else if c == 0x22 {
        Some(Scan { in_string: true, escaped: false, run: 0, ..plain(st) })
    } else if c == 0x3a {
        if st.pending && st.run > MAX_KEY {
            None
        } else {
            Some(plain(st))
        }
    } else if c == 0x5b || c == 0x7b {
        if st.depth >= MAX_DEPTH {
            None
        } else {
            Some(Scan { depth: (st.depth + 1) as u32, ..plain(st) })
        }
    } else if c == 0x5d || c == 0x7d {
        if st.depth == 0 || (c == 0x7d && st.after_comma) {
            None
        } else {
            Some(Scan { depth: (st.depth - 1) as u32, ..plain(st) })
        }
    } else if c == 0x20 || c == 0x09 || c == 0x0a || c == 0x0d {
        Some(Scan { in_exponent: false, ..st })
    } else if c == 0x2c {
        Some(Scan { after_comma: true, ..plain(st) })
    } else if c == 0x65 || c == 0x45 {
        Some(Scan { in_exponent: true, exponent_digits: 0, ..plain(st) })
    } else if c == 0x2b || c == 0x2d {
        Some(Scan { in_exponent: st.in_exponent && st.exponent_digits == 0, ..plain(st) })
    } else if 0x30 <= c <= 0x39 && st.in_exponent {
        if st.exponent_digits >= MAX_EXPONENT_DIGITS {
            None
        } else {
            Some(Scan { exponent_digits: (st.exponent_digits + 1) as u32, ..st })
        }
    } else {
        Some(plain(st))
    }
}

/// The reading after all of `b`, or `None` where some byte of it is refused.
pub open spec fn scan(b: Seq<u8>) -> Option<Scan>
    decreases b.len(),
{
    if b.len() == 0 {
        Some(scan_start())
    } else {
        match scan(b.drop_last()) {
            Some(st) => scan_step(st, b.last()),
            None => None,
        }
    }
}

/// Whether `s` stays within what rustc_serialize's parser handles without
/// panicking or exhausting the stack: fewer than 2^32 bytes (array indexes are
/// `u32`), nesting at most `MAX_DEPTH` deep, no key longer than `MAX_KEY`
/// bytes, no object closed right after a comma, and no exponent longer than
/// `MAX_EXPONENT_DIGITS` digits.
pub open spec fn within_parser_limits(s: Seq<char>) -> bool {
    encode_utf8(s).len() < 0x1_0000_0000 && scan(encode_utf8(s)) is Some
}

fn scan_step_exec(st: Scan, c: u8) -> (r: Option<Scan>)
    ensures
        r == scan_step(st, c),
{
    let longer = if st.run > MAX_KEY {
        st.run
    } else {
        st.run + 1
    };
    let plain = Scan { pending: false, after_comma: false, in_exponent: false, ..st };
    if st.in_string {
        if st.escaped {
            Some(Scan { escaped: false, run: longer, ..st })
        } else if c == 0x5c {
            Some(Scan { escaped: true, run: longer, ..st })
        } else if c == 0x22 {
            Some(Scan { in_string: false, pending: true, ..st })
        } else {
            Some(Scan { run: longer, ..st })
        }
    } else if c == 0x22 {
        Some(Scan { in_string: true, escaped: false, run: 0, ..plain })
    } else if c == 0x3a {
        if st.pending && st.run > MAX_KEY {
            None
        } else {
            Some(plain)
        }
    } else if c == 0x5b || c == 0x7b {
        if st.depth >= MAX_DEPTH {
            None
        } else {
            Some(Scan { depth: st.depth + 1, ..plain })
        }
    } else if c == 0x5d || c == 0x7d {
        if st.depth == 0 || (c == 0x7d && st.after_comma) {
            None
        } else {
            Some(Scan { depth: st.depth - 1, ..plain })
        }
    } else if c == 0x20 || c == 0x09 || c == 0x0a || c == 0x0d {
        Some(Scan { in_exponent: false, ..st })
    } else if c == 0x2c {
        Some(Scan { after_comma: true, ..plain })
    } else if c == 0x65 || c == 0x45 {
        Some(Scan { in_exponent: true, exponent_digits: 0, ..plain })
    } else if c == 0x2b || c == 0x2d {
        Some(Scan { in_exponent: st.in_exponent && st.exponent_digits == 0, ..plain })
    } else if 0x30 <= c && c <= 0x39 && st.in_exponent {
        if st.exponent_digits >= MAX_EXPONENT_DIGITS {
            None
        } else {
            Some(Scan { exponent_digits: st.exponent_digits + 1, ..st })
        }
    } else {
        Some(plain)
    }
}

proof fn lemma_scan_stays_refused(b: Seq<u8>, k: int)
    requires
        0 <= k <= b.len(),
        scan(b.take(k)) is None,
    ensures
        scan(b) is None,
    decreases b.len() - k,
{
    if k == b.len() {
        assert(b.take(k) =~= b);
    } else {
        assert(b.take(k + 1).drop_last() =~= b.take(k));
        lemma_scan_stays_refused(b, k + 1);
    }
}

/// Tests whether `s` stays within the parser's limits.
pub fn fits_parser_limits(s: &str) -> (r: bool)
    ensures
        r == within_parser_limits(s@),
{
    let bytes = s.as_bytes();
    if bytes.len() as u64 >= 0x1_0000_0000u64 {
        return false;
    }
    let mut st = Scan {
        in_string: false,
        escaped: false,
        depth: 0,
        run: 0,
        pending: false,
        after_comma: false,
        in_exponent: false,
        exponent_digits: 0,
    };
    let mut i: usize = 0;
    proof {
        assert(bytes@.take(0) =~= Seq::<u8>::empty());
    }
    while i < bytes.len()
        invariant
            i <= bytes@.len(),
            bytes@ == encode_utf8(s@),
            bytes@.len() < 0x1_0000_0000,
            scan(bytes@.take(i as int)) == Some(st),
        decreases bytes.len() - i,
    {
        proof {
            assert(bytes@.take(i + 1).drop_last() =~= bytes@.take(i as int));
        }
        match scan_step_exec(st, bytes[i]) {
            Some(next) => {
                st = next;
            },
            None => {
                proof {
                    lemma_scan_stays_refused(bytes@, i + 1);
                }
                return false;
            },
        }
        i = i + 1;
    }
    proof {
        assert(bytes@.take(bytes@.len() as int) =~= bytes@);
    }
    true
}

/// The top level of a JSON document: an object, an array with the compact
/// encoding of each of its elements in order, or anything else (another value,
/// or no valid document at all).
pub enum Shape {
    Object,
    Array(Seq<Seq<char>>),
    Other,
}

/// The top level of `s` as rustc_serialize parses it.
pub uninterp spec fn json_shape(s: Seq<char>) -> Shape;

/// The top level of a parsed JSON document, as far as the decoding needs it.
pub enum TopLevel {
    Object,
    Array(Vec<String>),
    Other,
}

impl View for TopLevel {
    type V = Shape;

    open spec fn view(&self) -> Shape {
        match self {
            TopLevel::Object => Shape::Object,
            TopLevel::Array(items) => Shape::Array(items@.map_values(|e: String| e@)),
            TopLevel::Other => Shape::Other,
        }
    }
}

/// Relies on `rustc_serialize::json::encode` applied to a `&str`: its
/// `escape_str` writes the string between quotes, each byte escaped as
/// `escaped_char` states (every escaped byte is ASCII, so bytes and characters
/// agree). It writes into a `String`, whose
/// `fmt::Write` never fails, so it always returns `Ok`.
#[verifier::external_body]
pub(crate) fn quote(s: &str) -> (r: String)
    ensures
        r@ == json_quoted(s@),
{
    rustc_serialize::json::encode(&s).unwrap()
}

/// Relies on `rustc_serialize::json::Json::from_str`, which parses a whole JSON
/// document, and on `Json`'s `Display`, which encodes each array element
/// compactly (it only fails where the formatter does, and a `String`'s never does).
/// The parser recurses once per level of nesting, keeps the keys of the open
/// objects in a buffer indexed by `u16`, counts array elements in a `u32`,
/// sums exponent digits in a `usize` without a check, and on a `}` right after
/// a comma pops one level too many, which later panics ("invalid state"):
/// `within_parser_limits` keeps clear of all five.
#[verifier::external_body]
pub(crate) fn parse_top(s: &str) -> (r: TopLevel)
    requires
        within_parser_limits(s@),
    ensures
        r@ == json_shape(s@),
{
    match Json::from_str(s) {
        Ok(Json::Object(_)) => TopLevel::Object,
        Ok(Json::Array(items)) => TopLevel::Array(items.iter().map(|e| e.to_string()).collect()),
        _ => TopLevel::Other,
    }
}

} // verus!
