//! Text helpers: string comparison and building, decimal and hexadecimal text.

use vstd::prelude::*;

verus! {

/// Compares two string slices for equality (std `PartialEq` for `str`);
/// trusted to return whether both hold the same characters.
#[verifier::external_body]
pub fn str_eq(a: &str, b: &str) -> (res: bool)
    ensures
        res == (a@ == b@),
{
    a == b
}

/// Appends one character to a string (std `String::push`); trusted to add
/// exactly that character at the end.
#[verifier::external_body]
pub fn push_char(s: &mut String, c: char)
    ensures
        final(s)@ == old(s)@.push(c),
{
    s.push(c)
}

/// Makes an owned string from a slice.
pub fn owned(s: &str) -> (res: String)
    ensures
        res@ == s@,
{
    String::from_str(s)
}

/// The character of a decimal digit.
pub open spec fn digit_char(d: int) -> char {
    if d == 0 { '0' }
    else if d == 1 { '1' }
    else if d == 2 { '2' }
    else if d == 3 { '3' }
    else if d == 4 { '4' }
    else if d == 5 { '5' }
    else if d == 6 { '6' }
    else if d == 7 { '7' }
    else if d == 8 { '8' }
    else { '9' }
}

/// The decimal text of a natural number, without sign or leading zeros.
pub open spec fn decimal(n: nat) -> Seq<char>
    decreases n,
{
    if n < 10 {
        seq![digit_char(n as int)]
    } else {
        decimal(n / 10).push(digit_char((n % 10) as int))
    }
}

/// The number decimal digits spell (most significant first).
pub open spec fn digits_value(s: Seq<char>) -> nat
    decreases s.len(),
{
    if s.len() == 0 {
        0
    } else {
        digits_value(s.drop_last()) * 10 + ((s.last() as u32 - '0' as u32) as nat)
    }
}

/// Whether every character is an ASCII decimal digit.
pub open spec fn all_decimal_digits(s: Seq<char>) -> bool {
    forall|i: int| 0 <= i < s.len() ==> '0' <= #[trigger] s[i] && s[i] <= '9'
}

/// The number a text spells as `str::parse` reads an unsigned integer type
/// whose largest value is `max`: an optional `+`, then one or more decimal
/// digits, with a value that fits.
pub open spec fn unsigned_of_text(s: Seq<char>, max: nat) -> Option<nat> {
    let d = if s.len() > 0 && s[0] == '+' { s.skip(1) } else { s };
    if d.len() > 0 && all_decimal_digits(d) && digits_value(d) <= max {
        Some(digits_value(d))
    } else {
        None
    }
}

fn exec_digit_char(d: u64) -> (c: char)
    requires
        d < 10,
    ensures
        c == digit_char(d as int),
{
    if d == 0 { '0' }
    else if d == 1 { '1' }
    else if d == 2 { '2' }
    else if d == 3 { '3' }
    else if d == 4 { '4' }
    else if d == 5 { '5' }
    else if d == 6 { '6' }
    else if d == 7 { '7' }
    else if d == 8 { '8' }
    else { '9' }
}

/// The two-digit decimal text of a number below one hundred, zero-padded.
pub open spec fn two_digits(v: int) -> Seq<char> {
    seq![digit_char(v / 10), digit_char(v % 10)]
}

/// Appends the two-digit, zero-padded decimal text of `v` to `s`.
pub fn append_two_digits(s: &mut String, v: u32)
    requires
        v < 100,
    ensures
        final(s)@ == old(s)@ + two_digits(v as int),
{
    let tens = exec_digit_char((v / 10) as u64);
    let ones = exec_digit_char((v % 10) as u64);
    push_char(s, tens);
    push_char(s, ones);
    assert(final(s)@ =~= old(s)@ + two_digits(v as int));
}

/// Appends the decimal text of `n` to `s`.
pub fn append_decimal(s: &mut String, n: u64)
    ensures
        final(s)@ == old(s)@ + decimal(n as nat),
    decreases n,
{
    if n >= 10 {
        append_decimal(s, n / 10);
    }
    let c = exec_digit_char(n % 10);
    push_char(s, c);
    proof {
        assert(decimal(n as nat) =~= if n < 10 {
            seq![digit_char(n as int)]
        } else {
            decimal((n / 10) as nat).push(digit_char((n % 10) as int))
        });
    }
}

/// The decimal text of `n`, as `n.to_string()` gives it.
pub fn u64_to_decimal(n: u64) -> (res: String)
    ensures
        res@ == decimal(n as nat),
{
    let mut s = String::new();
    append_decimal(&mut s, n);
    assert(s@ =~= decimal(n as nat));
    s
}

/// The lowercase hexadecimal digit of a value below sixteen.
pub open spec fn hex_digit(d: int) -> char {
    if d < 10 { digit_char(d) }
    else if d == 10 { 'a' }
    else if d == 11 { 'b' }
    else if d == 12 { 'c' }
    else if d == 13 { 'd' }
    else if d == 14 { 'e' }
    else { 'f' }
}

/// Lowercase hexadecimal text of bytes: two digits per byte, high nibble first.
pub open spec fn hex_text(bytes: Seq<u8>) -> Seq<char> {
    Seq::new(
        (2 * bytes.len()) as nat,
        |i: int|
            if i % 2 == 0 {
                hex_digit((bytes[i / 2] / 16) as int)
            } else {
                hex_digit((bytes[i / 2] % 16) as int)
            },
    )
}

/// The value of a hexadecimal digit, of either case.
pub open spec fn hex_value(c: char) -> Option<u8> {
    if '0' <= c && c <= '9' {
        Some((c as u32 - '0' as u32) as u8)
    } else if 'a' <= c && c <= 'f' {
        Some((c as u32 - 'a' as u32 + 10) as u8)
    } else if 'A' <= c && c <= 'F' {
        Some((c as u32 - 'A' as u32 + 10) as u8)
    } else {
        None
    }
}

/// The text after an optional `0x` or `0X` prefix.
pub open spec fn strip_hex_prefix(s: Seq<char>) -> Seq<char> {
    if s.len() >= 2 && s[0] == '0' && (s[1] == 'x' || s[1] == 'X') {
        s.skip(2)
    } else {
        s
    }
}

/// Whether every character of `s` is a hexadecimal digit.
pub open spec fn all_hex_digits(s: Seq<char>) -> bool {
    forall|i: int| 0 <= i < s.len() ==> (#[trigger] hex_value(s[i])) is Some
}

/// Decoding of hexadecimal text: an optional `0x`/`0X` prefix, then an even
/// number of hexadecimal digits, two per byte; anything else is refused.
pub open spec fn hex_bytes(s: Seq<char>) -> Option<Seq<u8>> {
    let body = strip_hex_prefix(s);
    if body.len() % 2 == 0 && all_hex_digits(body) {
        Some(
            Seq::new(
                (body.len() / 2) as nat,
                |i: int|
                    (hex_value(body[2 * i]).unwrap() * 16 + hex_value(body[2 * i + 1]).unwrap()) as u8,
            ),
        )
    } else {
        None
    }
}

proof fn lemma_hex_digit_value(d: int)
    requires
        0 <= d < 16,
    ensures
        hex_value(hex_digit(d)) == Some(d as u8),
        hex_digit(d) != 'x' && hex_digit(d) != 'X',
{
}

/// Hexadecimal text decodes to the bytes it was written from.
pub proof fn law_hex_round_trip(bytes: Seq<u8>)
    ensures
        hex_bytes(hex_text(bytes)) == Some(bytes),
{
    let t = hex_text(bytes);
    if t.len() >= 2 {
        lemma_hex_digit_value((bytes[0] % 16) as int);
        assert(t[1] == hex_digit((bytes[0] % 16) as int));
    }
    assert(strip_hex_prefix(t) == t);
    assert forall|i: int| 0 <= i < t.len() implies (#[trigger] hex_value(t[i])) is Some by {
        lemma_hex_digit_value((bytes[i / 2] / 16) as int);
        lemma_hex_digit_value((bytes[i / 2] % 16) as int);
    }
    assert(t.len() % 2 == 0);
    let r = hex_bytes(t).unwrap();
    assert(r.len() == bytes.len());
    assert forall|i: int| 0 <= i < bytes.len() implies r[i] == bytes[i] by {
        let b = bytes[i];
        lemma_hex_digit_value((b / 16) as int);
        lemma_hex_digit_value((b % 16) as int);
        assert((2 * i) / 2 == i && (2 * i) % 2 == 0);
        assert((2 * i + 1) / 2 == i && (2 * i + 1) % 2 == 1);
        assert(t[2 * i] == hex_digit((b / 16) as int));
        assert(t[2 * i + 1] == hex_digit((b % 16) as int));
        assert((b / 16) * 16 + b % 16 == b);
    }
    assert(r =~= bytes);
}

/// Lowercase hexadecimal encoding (`hex::encode` as re-exported by ethers);
/// trusted to write two lowercase digits per byte, high nibble first.
#[verifier::external_body]
pub fn hex_encode(bytes: &[u8]) -> (res: String)
    ensures
        res@ == hex_text(bytes@),
{
    ethers::utils::hex::encode(bytes)
}

/// Hexadecimal decoding (`hex::decode` as re-exported by ethers); trusted to
/// accept exactly an optional `0x`/`0X` prefix followed by an even number of
/// digits of either case, and to return the bytes they spell.
#[verifier::external_body]
pub fn hex_decode(s: &str) -> (res: Option<Vec<u8>>)
    ensures
        match res {
            Some(v) => hex_bytes(s@) == Some(v@),
            None => hex_bytes(s@) is None,
        },
{
    ethers::utils::hex::decode(s).ok()
}

/// Whether two byte strings are equal.
pub fn bytes_eq(a: &[u8], b: &[u8]) -> (res: bool)
    ensures
        res == (a@ == b@),
{
    if a.len() != b.len() {
        return false;
    }
    let mut i: usize = 0;
    while i < a.len()
        invariant
            a@.len() == b@.len(),
            0 <= i <= a@.len(),
            forall|k: int| 0 <= k < i ==> a@[k] == b@[k],
        decreases a@.len() - i,
    {
        if a[i] != b[i] {
            return false;
        }
        i = i + 1;
    }
    assert(a@ =~= b@);
    true
}

} // verus!
