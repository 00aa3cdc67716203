//! Digit rendering: fixed-width lowercase hex for call ids and auth
//! tokens, and decimal for snapshot reference ids.

use vstd::prelude::*;

verus! {

/// The lowercase hex digit for a value in `0..16`.
pub open spec fn hex_char(n: int) -> char {
    if n == 0 {
        '0'
    } else if n == 1 {
        '1'
    } else if n == 2 {
        '2'
    } else if n == 3 {
        '3'
    } else if n == 4 {
        '4'
    } else if n == 5 {
        '5'
    } else if n == 6 {
        '6'
    } else if n == 7 {
        '7'
    } else if n == 8 {
        '8'
    } else if n == 9 {
        '9'
    } else if n == 10 {
        'a'
    } else if n == 11 {
        'b'
    } else if n == 12 {
        'c'
    } else if n == 13 {
        'd'
    } else if n == 14 {
        'e'
    } else {
        'f'
    }
}

/// Whether `c` is a lowercase hex digit.
pub open spec fn is_hex_char(c: char) -> bool {
    ('0' <= c && c <= '9') || ('a' <= c && c <= 'f')
}

/// The last `d` hex digits of `t`, most significant first, zero padded.
pub open spec fn hex_seq(t: int, d: nat) -> Seq<char>
    decreases d,
{
    if d == 0 {
        Seq::empty()
    } else {
        hex_seq(t / 16, (d - 1) as nat) + seq![hex_char(t % 16)]
    }
}

/// A `u128` as exactly 32 lowercase hex digits, zero padded.
pub open spec fn hex32_of(t: u128) -> Seq<char> {
    hex_seq(t as int, 32)
}

/// `hex_seq` renders exactly `d` digits, all of them lowercase hex digits.
pub proof fn lemma_hex_seq_wf(t: int, d: nat)
    requires
        t >= 0,
    ensures
        hex_seq(t, d).len() == d,
        forall|i: int| 0 <= i < d ==> is_hex_char(#[trigger] hex_seq(t, d)[i]),
    decreases d,
{
    if d > 0 {
        lemma_hex_seq_wf(t / 16, (d - 1) as nat);
    }
}

/// A one-character string for a hex digit value.
fn hex_digit_str(n: u8) -> (r: &'static str)
    requires
        n < 16,
    ensures
        r@ == seq![hex_char(n as int)],
{
    proof {
        reveal_strlit("0");
        reveal_strlit("1");
        reveal_strlit("2");
        reveal_strlit("3");
        reveal_strlit("4");
        reveal_strlit("5");
        reveal_strlit("6");
        reveal_strlit("7");
        reveal_strlit("8");
        reveal_strlit("9");
        reveal_strlit("a");
        reveal_strlit("b");
        reveal_strlit("c");
        reveal_strlit("d");
        reveal_strlit("e");
        reveal_strlit("f");
    }
    let r = match n {
        0 => "0",
        1 => "1",
        2 => "2",
        3 => "3",
        4 => "4",
        5 => "5",
        6 => "6",
        7 => "7",
        8 => "8",
        9 => "9",
        10 => "a",
        11 => "b",
        12 => "c",
        13 => "d",
        14 => "e",
        _ => "f",
    };
    proof {
        assert(r@ =~= seq![hex_char(n as int)]);
    }
    r
}

/// The last `d` hex digits of `t`, most significant first.
fn hex_digits(t: u128, d: usize) -> (r: String)
    ensures
        r@ == hex_seq(t as int, d as nat),
    decreases d,
{
    if d == 0 {
        String::new()
    } else {
        let mut s = hex_digits(t / 16, d - 1);
        let nib = (t % 16) as u8;
        s.append(hex_digit_str(nib));
        s
    }
}

/// A `u128` rendered as exactly 32 lowercase hex digits, zero padded.
pub fn hex32(t: u128) -> (r: String)
    ensures
        r@ == hex32_of(t),
        r@.len() == 32,
    {
    proof {
        lemma_hex_seq_wf(t as int, 32);
    }
    hex_digits(t, 32)
}

/// The decimal digit char for a value in `0..10`.
pub open spec fn dec_char(n: int) -> char {
    if n == 0 {
        '0'
    } else if n == 1 {
        '1'
    } else if n == 2 {
        '2'
    } else if n == 3 {
        '3'
    } else if n == 4 {
        '4'
    } else if n == 5 {
        '5'
    } else if n == 6 {
        '6'
    } else if n == 7 {
        '7'
    } else if n == 8 {
        '8'
    } else {
        '9'
    }
}

/// `n` in decimal, most significant digit first, no leading zeros.
pub open spec fn dec_seq(n: nat) -> Seq<char>
    decreases n,
{
    if n < 10 {
        seq![dec_char(n as int)]
    } else {
        dec_seq(n / 10) + seq![dec_char((n % 10) as int)]
    }
}

fn dec_digit_str(n: u64) -> (r: &'static str)
    requires
        n < 10,
    ensures
        r@ == seq![dec_char(n as int)],
{
    proof {
        reveal_strlit("0");
        reveal_strlit("1");
        reveal_strlit("2");
        reveal_strlit("3");
        reveal_strlit("4");
        reveal_strlit("5");
        reveal_strlit("6");
        reveal_strlit("7");
        reveal_strlit("8");
        reveal_strlit("9");
    }
    let r = match n {
        0 => "0",
        1 => "1",
        2 => "2",
        3 => "3",
        4 => "4",
        5 => "5",
        6 => "6",
        7 => "7",
        8 => "8",
        _ => "9",
    };
    proof {
        assert(r@ =~= seq![dec_char(n as int)]);
    }
    r
}

/// `n` rendered in decimal.
pub fn dec_str(n: u64) -> (r: String)
    ensures
        r@ == dec_seq(n as nat),
    decreases n,
{
    if n < 10 {
        let mut s = String::new();
        s.append(dec_digit_str(n));
        s
    } else {
        let mut s = dec_str(n / 10);
        s.append(dec_digit_str(n % 10));
        s
    }
}

} // verus!
