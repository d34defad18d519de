//! Conversion between raw bytes and their hexadecimal text form.

use vstd::prelude::*;

verus! {

/// The Unicode `White_Space` property.
pub open spec fn is_white_space(c: char) -> bool {
    let u = c as u32;
    ||| 0x09 <= u <= 0x0D
    ||| u == 0x20
    ||| u == 0x85
    ||| u == 0xA0
    ||| u == 0x1680
    ||| 0x2000 <= u <= 0x200A
    ||| u == 0x2028
    ||| u == 0x2029
    ||| u == 0x202F
    ||| u == 0x205F
    ||| u == 0x3000
}

/// Characters that may separate hex digits in the input and are ignored.
pub open spec fn is_separator(c: char) -> bool {
    is_white_space(c) || c == ':'
}

/// The input with every separator removed, other characters kept in order.
pub open spec fn hex_digits(s: Seq<char>) -> Seq<char>
    decreases s.len(),
{
    if s.len() == 0 {
        Seq::empty()
    } else if is_separator(s.last()) {
        hex_digits(s.drop_last())
    } else {
        hex_digits(s.drop_last()).push(s.last())
    }
}

/// The value of a hexadecimal digit, either case.
pub open spec fn digit_value(c: char) -> Option<u8> {
    let u = c as u32;
    if 0x30 <= u <= 0x39 {
        Some((u - 0x30) as u8)
    } else if 0x41 <= u <= 0x46 {
        Some((u - 0x41 + 10) as u8)
    } else if 0x61 <= u <= 0x66 {
        Some((u - 0x61 + 10) as u8)
    } else {
        None
    }
}

/// Whether the `k`-th pair of `d` is made of two hex digits.
pub open spec fn pair_valid(d: Seq<char>, k: int) -> bool {
    digit_value(d[2 * k]) is Some && digit_value(d[2 * k + 1]) is Some
}

/// The byte that the `k`-th pair of `d` denotes.
pub open spec fn pair_byte(d: Seq<char>, k: int) -> u8 {
    (digit_value(d[2 * k])->0 * 16 + digit_value(d[2 * k + 1])->0) as u8
}

/// The bytes that the hex text `s` denotes, or `None` when it is not valid hex.
pub open spec fn hex_decoding(s: Seq<char>) -> Option<Seq<u8>> {
    let d = hex_digits(s);
    if d.len() % 2 == 0 && forall|k: int| 0 <= k < d.len() / 2 ==> #[trigger] pair_valid(d, k) {
        Some(Seq::new((d.len() / 2) as nat, |k: int| pair_byte(d, k)))
    } else {
        None
    }
}

/// `k` is the first pair of `d` that is not two hex digits.
pub open spec fn first_invalid_pair(d: Seq<char>, k: int) -> bool {
    &&& 0 <= k < d.len() / 2
    &&& !pair_valid(d, k)
    &&& forall|j: int| 0 <= j < k ==> #[trigger] pair_valid(d, j)
}

/// `e` is the error that the hex text `s` is rejected with: an odd number of
/// digits, else the first pair that is not two hex digits.
pub open spec fn hex_error_for(s: Seq<char>, e: HexError) -> bool {
    let d = hex_digits(s);
    match e {
        HexError::OddLength { digits } => d.len() % 2 == 1 && digits == d.len(),
        HexError::InvalidByte { pair, index } => {
            &&& d.len() % 2 == 0
            &&& first_invalid_pair(d, index as int)
            &&& pair@ == d.subrange(2 * index, 2 * index + 2)
        },
    }
}

/// Upper-case digit for a value below sixteen.
pub open spec fn digit_char(n: u8) -> char {
    if n < 10 {
        (0x30 + n) as char
    } else {
        (0x41 + n - 10) as char
    }
}

/// The two upper-case digits of one byte.
pub open spec fn byte_text(x: u8) -> Seq<char> {
    seq![digit_char(x / 16), digit_char(x % 16)]
}

/// Each byte as two upper-case digits, consecutive bytes joined by one space.
pub open spec fn hex_text(b: Seq<u8>) -> Seq<char>
    decreases b.len(),
{
    if b.len() == 0 {
        Seq::empty()
    } else if b.len() == 1 {
        byte_text(b[0])
    } else {
        hex_text(b.drop_last()) + seq![' '] + byte_text(b.last())
    }
}

proof fn lemma_hex_digits_concat(a: Seq<char>, b: Seq<char>)
    ensures
        hex_digits(a + b) == hex_digits(a) + hex_digits(b),
    decreases b.len(),
{
    if b.len() == 0 {
        assert(a + b == a);
        assert(hex_digits(b) == Seq::<char>::empty());
        assert(hex_digits(a) + hex_digits(b) == hex_digits(a));
    } else {
        lemma_hex_digits_concat(a, b.drop_last());
        assert((a + b).drop_last() == a + b.drop_last());
        assert((a + b).last() == b.last());
        if !is_separator(b.last()) {
            assert(hex_digits(a) + hex_digits(b.drop_last()).push(b.last()) == (hex_digits(a)
                + hex_digits(b.drop_last())).push(b.last()));
        }
    }
}

proof fn lemma_digit_round_trip(n: u8)
    requires
        n < 16,
    ensures
        digit_value(digit_char(n)) == Some(n),
        !is_separator(digit_char(n)),
{
}

proof fn lemma_byte_text_digits(x: u8)
    ensures
        hex_digits(byte_text(x)) == byte_text(x),
{
    let t = byte_text(x);
    lemma_digit_round_trip(x / 16);
    lemma_digit_round_trip(x % 16);
    assert(t.drop_last().drop_last() == Seq::<char>::empty());
    assert(hex_digits(Seq::<char>::empty()) == Seq::<char>::empty());
    assert(hex_digits(t.drop_last()) == Seq::<char>::empty().push(t[0]));
    assert(Seq::<char>::empty().push(t[0]) == seq![t[0]]);
    assert(seq![t[0]].push(t[1]) == t);
}

proof fn lemma_digits_of_hex_text(b: Seq<u8>)
    ensures
        hex_digits(hex_text(b)).len() == 2 * b.len(),
        forall|k: int|
            0 <= k < b.len() ==> {
                &&& #[trigger] hex_digits(hex_text(b))[2 * k] == digit_char(b[k] / 16)
                &&& hex_digits(hex_text(b))[2 * k + 1] == digit_char(b[k] % 16)
            },
    decreases b.len(),
{
    if b.len() == 1 {
        lemma_byte_text_digits(b[0]);
    } else if b.len() > 1 {
        let p = b.drop_last();
        let x = b.last();
        lemma_digits_of_hex_text(p);
        lemma_hex_digits_concat(hex_text(p) + seq![' '], byte_text(x));
        lemma_hex_digits_concat(hex_text(p), seq![' ']);
        assert(seq![' '].drop_last() == Seq::<char>::empty());
        assert(hex_digits(Seq::<char>::empty()) == Seq::<char>::empty());
        assert(is_separator(seq![' '].last()));
        assert(hex_digits(seq![' ']) == Seq::<char>::empty());
        lemma_byte_text_digits(x);
        let d = hex_digits(hex_text(b));
        assert(d == hex_digits(hex_text(p)) + byte_text(x));
        assert forall|k: int| 0 <= k < b.len() implies {
            &&& #[trigger] d[2 * k] == digit_char(b[k] / 16)
            &&& d[2 * k + 1] == digit_char(b[k] % 16)
        } by {
            let e = hex_digits(hex_text(p));
            if k < p.len() {
                assert(b[k] == p[k]);
                assert(d[2 * k] == e[2 * k]);
                assert(d[2 * k + 1] == e[2 * k + 1]);
            } else {
                assert(k == p.len());
                assert(b[k] == x);
                assert(d[2 * k] == byte_text(x)[0]);
                assert(d[2 * k + 1] == byte_text(x)[1]);
            }
        }
    }
}

/// Formatting bytes as hex text and decoding that text gives the bytes back.
pub proof fn lemma_format_then_parse(b: Seq<u8>)
    ensures
        hex_decoding(hex_text(b)) == Some(b),
{
    lemma_digits_of_hex_text(b);
    let d = hex_digits(hex_text(b));
    assert forall|k: int| 0 <= k < d.len() / 2 implies #[trigger] pair_valid(d, k) && pair_byte(
        d,
        k,
    ) == b[k] by {
        assert(d[2 * k] == digit_char(b[k] / 16));
        lemma_digit_round_trip(b[k] / 16);
        lemma_digit_round_trip(b[k] % 16);
        assert((b[k] / 16) * 16 + b[k] % 16 == b[k]);
    }
    assert(Seq::new((d.len() / 2) as nat, |k: int| pair_byte(d, k)) == b);
}

/// Why a text is not valid hex.
#[derive(Debug, PartialEq, Eq)]
pub enum HexError {
    /// After separators are removed an odd number of characters is left.
    OddLength { digits: usize },
    /// The pair at byte position `index` is not two hex digits.
    InvalidByte { pair: String, index: usize },
}

/// Relies on char::is_whitespace: true exactly for the characters with the
/// Unicode White_Space property.
#[verifier::external_body]
fn char_is_whitespace(c: char) -> (r: bool)
    ensures
        r == is_white_space(c),
{
    c.is_whitespace()
}

/// Relies on String::push: appends one character.
#[verifier::external_body]
fn push_char(s: &mut String, c: char)
    ensures
        final(s)@ == old(s)@.push(c),
{
    s.push(c)
}

fn hex_value(c: char) -> (r: Option<u8>)
    ensures
        r == digit_value(c),
{
    let u = c as u32;
    if 0x30 <= u && u <= 0x39 {
        Some((u - 0x30) as u8)
    } else if 0x41 <= u && u <= 0x46 {
        Some((u - 0x41 + 10) as u8)
    } else if 0x61 <= u && u <= 0x66 {
        Some((u - 0x61 + 10) as u8)
    } else {
        None
    }
}

fn upper_digit(n: u8) -> (r: char)
    requires
        n < 16,
    ensures
        r == digit_char(n),
{
    if n < 10 {
        (0x30 + n) as char
    } else {
        (0x41 + n - 10) as char
    }
}

fn strip_separators(s: &str) -> (r: Vec<char>)
    ensures
        r@ == hex_digits(s@),
{
    let mut out: Vec<char> = Vec::new();
    let ghost text = s@;
    for c in it: s.chars()
        invariant
            it.seq() == text,
            out@ == hex_digits(text.subrange(0, it.index() as int)),
    {
        assert(text.subrange(0, it.index() + 1).drop_last() == text.subrange(0, it.index() as int));
        if !(char_is_whitespace(c) || c == ':') {
            out.push(c);
        }
    }
    assert(text.subrange(0, text.len() as int) == text);
    out
}

/// Decodes hex text into bytes. Whitespace and colons are ignored; the
/// remaining characters, which must be even in number, are read in pairs,
/// each pair two hex digits of either case.
pub fn parse_hex(hex_str: &str) -> (r: Result<Vec<u8>, HexError>)
    ensures
        r is Ok <==> hex_decoding(hex_str@) is Some,
        match r {
            Ok(v) => hex_decoding(hex_str@) == Some(v@),
            Err(e) => hex_error_for(hex_str@, e),
        },
{
    let digits = strip_separators(hex_str);
    let ghost d = digits@;
    if digits.len() % 2 != 0 {
        return Err(HexError::OddLength { digits: digits.len() });
    }
    let n = digits.len() / 2;
    let mut out: Vec<u8> = Vec::new();
    let mut k: usize = 0;
    while k < n
        invariant
            d == digits@,
            d == hex_digits(hex_str@),
            n == d.len() / 2,
            d.len() % 2 == 0,
            k <= n,
            out@.len() == k,
            forall|j: int| 0 <= j < k ==> #[trigger] pair_valid(d, j),
            forall|j: int| 0 <= j < k ==> out@[j] == pair_byte(d, j),
        decreases n - k,
    {
        assert(2 * k + 1 < digits.len());
        let hi = digits[2 * k];
        let lo = digits[2 * k + 1];
        match (hex_value(hi), hex_value(lo)) {
            (Some(h), Some(l)) => {
                out.push(h * 16 + l);
            },
            _ => {
                assert(!pair_valid(d, k as int));
                assert(hex_decoding(hex_str@) is None);
                assert(first_invalid_pair(d, k as int));
                let mut pair = String::new();
                push_char(&mut pair, hi);
                push_char(&mut pair, lo);
                assert(pair@ == d.subrange(2 * k, 2 * k + 2));
                return Err(HexError::InvalidByte { pair, index: k });
            },
        }
        k = k + 1;
    }
    assert(out@ == Seq::new((d.len() / 2) as nat, |j: int| pair_byte(d, j)));
    Ok(out)
}

/// Renders each byte as two upper-case hex digits, joined by single spaces.
pub fn format_hex(bytes: &[u8]) -> (r: String)
    ensures
        r@ == hex_text(bytes@),
{
    let mut out = String::new();
    let mut i: usize = 0;
    while i < bytes.len()
        invariant
            i <= bytes@.len(),
            out@ == hex_text(bytes@.subrange(0, i as int)),
        decreases bytes@.len() - i,
    {
        let x = bytes[i];
        assert(bytes@.subrange(0, i + 1).drop_last() == bytes@.subrange(0, i as int));
        if i > 0 {
            push_char(&mut out, ' ');
        }
        push_char(&mut out, upper_digit(x / 16));
        push_char(&mut out, upper_digit(x % 16));
        i = i + 1;
    }
    assert(bytes@.subrange(0, i as int) == bytes@);
    out
}

} // verus!
