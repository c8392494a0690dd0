//! References to functions supplied by the user of the library (condition
//! checks, result processors): the library records which function a step
//! uses; the caller, which holds the functions, applies them.

use vstd::prelude::*;
use crate::text::{hex_digit, push_char};

verus! {

/// A user-supplied function: the built-in check that accepts every value,
/// the built-in processor that gives null for every value, or a function of
/// the caller's, known by its address.
#[derive(Debug, PartialEq, Eq, Clone, Copy)]
pub enum FunctionRef {
    AcceptAll,
    GiveNull,
    At(usize),
}

/// Lowercase hexadecimal digits of a number, without leading zeros.
pub open spec fn hex_number(n: nat) -> Seq<char>
    decreases n,
{
    if n < 16 {
        seq![hex_digit(n as int)]
    } else {
        hex_number(n / 16).push(hex_digit((n % 16) as int))
    }
}

fn exec_hex_digit(d: usize) -> (c: char)
    requires
        d < 16,
    ensures
        c == hex_digit(d as int),
{
    if d == 0 { '0' }
    else if d == 1 { '1' }
    else if d == 2 { '2' }
    else if d == 3 { '3' }
    else if d == 4 { '4' }
    else if d == 5 { '5' }
    else if d == 6 { '6' }
    else if d == 7 { '7' }
    else if d == 8 { '8' }
    else if d == 9 { '9' }
    else if d == 10 { 'a' }
    else if d == 11 { 'b' }
    else if d == 12 { 'c' }
    else if d == 13 { 'd' }
    else if d == 14 { 'e' }
    else { 'f' }
}

fn append_hex_number(s: &mut String, n: usize)
    ensures
        final(s)@ == old(s)@ + hex_number(n as nat),
    decreases n,
{
    if n >= 16 {
        append_hex_number(s, n / 16);
    }
    let c = exec_hex_digit(n % 16);
    push_char(s, c);
    proof {
        assert(hex_number(n as nat) =~= if n < 16 {
            seq![hex_digit(n as int)]
        } else {
            hex_number((n / 16) as nat).push(hex_digit((n % 16) as int))
        });
    }
}

/// The text a function reference is shown by: its address as `{:p}` shows a
/// pointer (`0x` and lowercase hexadecimal digits), or the name of the
/// built-in function.
pub open spec fn function_text(f: FunctionRef) -> Seq<char> {
    match f {
        FunctionRef::AcceptAll => "accept-all"@,
        FunctionRef::GiveNull => "give-null"@,
        FunctionRef::At(address) => "0x"@ + hex_number(address as nat),
    }
}

impl FunctionRef {
    pub fn text(&self) -> (res: String)
        ensures
            res@ == function_text(*self),
    {
        match self {
            FunctionRef::AcceptAll => String::from_str("accept-all"),
            FunctionRef::GiveNull => String::from_str("give-null"),
            FunctionRef::At(address) => {
                let mut s = String::from_str("0x");
                append_hex_number(&mut s, *address);
                s
            },
        }
    }
}

} // verus!
