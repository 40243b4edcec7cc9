//! Plain-text rendering of numbers: decimal, hexadecimal, and left padding.
//!
//! The inventory report and the diagnostic log lines are built from these
//! pieces.  Each spec function states the exact character sequence the
//! executable renderer produces.

use vstd::prelude::*;

verus! {

/// The decimal digit character for a value below ten.
pub open spec fn dec_digit(d: nat) -> char {
    if d == 0 {
        '0'
    } else if d == 1 {
        '1'
    } else if d == 2 {
        '2'
    } else if d == 3 {
        '3'
    } else if d == 4 {
        '4'
    } else if d == 5 {
        '5'
    } else if d == 6 {
        '6'
    } else if d == 7 {
        '7'
    } else if d == 8 {
        '8'
    } else {
        '9'
    }
}

/// The lower-case hexadecimal digit character for a value below sixteen.
pub open spec fn hex_digit_lower(d: nat) -> char {
    if d < 10 {
        dec_digit(d)
    } else if d == 10 {
        'a'
    } else if d == 11 {
        'b'
    } else if d == 12 {
        'c'
    } else if d == 13 {
        'd'
    } else if d == 14 {
        'e'
    } else {
        'f'
    }
}

/// The upper-case hexadecimal digit character for a value below sixteen.
pub open spec fn hex_digit_upper(d: nat) -> char {
    if d < 10 {
        dec_digit(d)
    } else if d == 10 {
        'A'
    } else if d == 11 {
        'B'
    } else if d == 12 {
        'C'
    } else if d == 13 {
        'D'
    } else if d == 14 {
        'E'
    } else {
        'F'
    }
}

/// Decimal rendering of a natural number, most significant digit first,
/// with no leading zeros (zero itself renders as "0").
pub open spec fn spec_dec(n: nat) -> Seq<char>
    decreases n,
{
    if n < 10 {
        seq![dec_digit(n)]
    } else {
        spec_dec(n / 10) + seq![dec_digit(n % 10)]
    }
}

/// Lower-case hexadecimal rendering with no leading zeros.
pub open spec fn spec_hex_lower(n: nat) -> Seq<char>
    decreases n,
{
    if n < 16 {
        seq![hex_digit_lower(n)]
    } else {
        spec_hex_lower(n / 16) + seq![hex_digit_lower(n % 16)]
    }
}

/// Upper-case hexadecimal rendering of a 32-bit value, zero-padded to
/// exactly eight digits, most significant nibble first.
pub open spec fn spec_hex8(v: u32) -> Seq<char> {
    seq![
        hex_digit_upper(((v >> 28) & 0xf) as nat),
        hex_digit_upper(((v >> 24) & 0xf) as nat),
        hex_digit_upper(((v >> 20) & 0xf) as nat),
        hex_digit_upper(((v >> 16) & 0xf) as nat),
        hex_digit_upper(((v >> 12) & 0xf) as nat),
        hex_digit_upper(((v >> 8) & 0xf) as nat),
        hex_digit_upper(((v >> 4) & 0xf) as nat),
        hex_digit_upper((v & 0xf) as nat),
    ]
}

/// A run of `n` space characters.
pub open spec fn spec_spaces(n: nat) -> Seq<char>
    decreases n,
{
    if n == 0 {
        Seq::<char>::empty()
    } else {
        spec_spaces((n - 1) as nat) + seq![' ']
    }
}

/// `s` padded on the left with spaces up to width `w`; a sequence already
/// at least `w` long is returned unchanged.
pub open spec fn spec_pad_left(s: Seq<char>, w: nat) -> Seq<char> {
    if s.len() >= w {
        s
    } else {
        spec_spaces((w - s.len()) as nat) + s
    }
}

/// The one-character string for a decimal digit.
fn dec_digit_str(d: u64) -> (r: &'static str)
    requires
        d < 10,
    ensures
        r@ == seq![dec_digit(d as nat)],
{
    if d == 0 {
        proof {
            reveal_strlit("0");
        }
        let r = "0";
        proof {
            assert(r@ =~= seq![dec_digit(d as nat)]);
        }
        r
    } else if d == 1 {
        proof {
            reveal_strlit("1");
        }
        let r = "1";
        proof {
            assert(r@ =~= seq![dec_digit(d as nat)]);
        }
        r
    } else if d == 2 {
        proof {
            reveal_strlit("2");
        }
        let r = "2";
        proof {
            assert(r@ =~= seq![dec_digit(d as nat)]);
        }
        r
    } else if d == 3 {
        proof {
            reveal_strlit("3");
        }
        let r = "3";
        proof {
            assert(r@ =~= seq![dec_digit(d as nat)]);
        }
        r
    } else if d == 4 {
        proof {
            reveal_strlit("4");
        }
        let r = "4";
        proof {
            assert(r@ =~= seq![dec_digit(d as nat)]);
        }
        r
    } else if d == 5 {
        proof {
            reveal_strlit("5");
        }
        let r = "5";
        proof {
            assert(r@ =~= seq![dec_digit(d as nat)]);
        }
        r
    } else if d == 6 {
        proof {
            reveal_strlit("6");
        }
        let r = "6";
        proof {
            assert(r@ =~= seq![dec_digit(d as nat)]);
        }
        r
    } else if d == 7 {
        proof {
            reveal_strlit("7");
        }
        let r = "7";
        proof {
            assert(r@ =~= seq![dec_digit(d as nat)]);
        }
        r
    } else if d == 8 {
        proof {
            reveal_strlit("8");
        }
        let r = "8";
        proof {
            assert(r@ =~= seq![dec_digit(d as nat)]);
        }
        r
    } else {
        proof {
            reveal_strlit("9");
        }
        let r = "9";
        proof {
            assert(r@ =~= seq![dec_digit(d as nat)]);
        }
        r
    }
}

/// The one-character string for a lower-case hexadecimal digit.
fn hex_digit_lower_str(d: u64) -> (r: &'static str)
    requires
        d < 16,
    ensures
        r@ == seq![hex_digit_lower(d as nat)],
{
    if d < 10 {
        let r = dec_digit_str(d);
        proof {
            assert(r@ =~= seq![hex_digit_lower(d as nat)]);
        }
        r
    } else if d == 10 {
        proof {
            reveal_strlit("a");
        }
        let r = "a";
        proof {
            assert(r@ =~= seq![hex_digit_lower(d as nat)]);
        }
        r
    } else if d == 11 {
        proof {
            reveal_strlit("b");
        }
        let r = "b";
        proof {
            assert(r@ =~= seq![hex_digit_lower(d as nat)]);
        }
        r
    } else if d == 12 {
        proof {
            reveal_strlit("c");
        }
        let r = "c";
        proof {
            assert(r@ =~= seq![hex_digit_lower(d as nat)]);
        }
        r
    } else if d == 13 {
        proof {
            reveal_strlit("d");
        }
        let r = "d";
        proof {
            assert(r@ =~= seq![hex_digit_lower(d as nat)]);
        }
        r
    } else if d == 14 {
        proof {
            reveal_strlit("e");
        }
        let r = "e";
        proof {
            assert(r@ =~= seq![hex_digit_lower(d as nat)]);
        }
        r
    } else {
        proof {
            reveal_strlit("f");
        }
        let r = "f";
        proof {
            assert(r@ =~= seq![hex_digit_lower(d as nat)]);
        }
        r
    }
}

/// The one-character string for an upper-case hexadecimal digit.
fn hex_digit_upper_str(d: u32) -> (r: &'static str)
    requires
        d < 16,
    ensures
        r@ == seq![hex_digit_upper(d as nat)],
{
    if d < 10 {
        let r = dec_digit_str(d as u64);
        proof {
            assert(r@ =~= seq![hex_digit_upper(d as nat)]);
        }
        r
    } else if d == 10 {
        proof {
            reveal_strlit("A");
        }
        let r = "A";
        proof {
            assert(r@ =~= seq![hex_digit_upper(d as nat)]);
        }
        r
    } else if d == 11 {
        proof {
            reveal_strlit("B");
        }
        let r = "B";
        proof {
            assert(r@ =~= seq![hex_digit_upper(d as nat)]);
        }
        r
    } else if d == 12 {
        proof {
            reveal_strlit("C");
        }
        let r = "C";
        proof {
            assert(r@ =~= seq![hex_digit_upper(d as nat)]);
        }
        r
    } else if d == 13 {
        proof {
            reveal_strlit("D");
        }
        let r = "D";
        proof {
            assert(r@ =~= seq![hex_digit_upper(d as nat)]);
        }
        r
    } else if d == 14 {
        proof {
            reveal_strlit("E");
        }
        let r = "E";
        proof {
            assert(r@ =~= seq![hex_digit_upper(d as nat)]);
        }
        r
    } else {
        proof {
            reveal_strlit("F");
        }
        let r = "F";
        proof {
            assert(r@ =~= seq![hex_digit_upper(d as nat)]);
        }
        r
    }
}

/// Decimal rendering of a 64-bit value.
pub fn dec_string(v: u64) -> (r: String)
    ensures
        r@ == spec_dec(v as nat),
    decreases v,
{
    if v < 10 {
        let mut r = String::new();
        r.append(dec_digit_str(v));
        proof {
            assert(r@ =~= spec_dec(v as nat));
        }
        r
    } else {
        assert(v / 10 < v) by (nonlinear_arith)
            requires
                v >= 10,
        ;
        let mut r = dec_string(v / 10);
        r.append(dec_digit_str(v % 10));
        proof {
            assert(r@ =~= spec_dec(v as nat));
        }
        r
    }
}

/// Lower-case hexadecimal rendering of a 32-bit value, no leading zeros.
pub fn hex_lower_string(v: u32) -> (r: String)
    ensures
        r@ == spec_hex_lower(v as nat),
    decreases v,
{
    if v < 16 {
        let mut r = String::new();
        r.append(hex_digit_lower_str(v as u64));
        proof {
            assert(r@ =~= spec_hex_lower(v as nat));
        }
        r
    } else {
        assert(v / 16 < v) by (nonlinear_arith)
            requires
                v >= 16,
        ;
        let mut r = hex_lower_string(v / 16);
        r.append(hex_digit_lower_str((v % 16) as u64));
        proof {
            assert(r@ =~= spec_hex_lower(v as nat));
        }
        r
    }
}

/// Upper-case, eight-digit, zero-padded hexadecimal rendering of a 32-bit
/// value: the form status codes take in diagnostic log lines.
pub fn hex8_string(v: u32) -> (r: String)
    ensures
        r@ == spec_hex8(v),
{
    let mut r = String::new();
    assert((v >> 28) & 0xf < 16 && (v >> 24) & 0xf < 16 && (v >> 20) & 0xf < 16 && (v >> 16)
        & 0xf < 16 && (v >> 12) & 0xf < 16 && (v >> 8) & 0xf < 16 && (v >> 4) & 0xf < 16 && v & 0xf
        < 16) by (bit_vector);
    r.append(hex_digit_upper_str((v >> 28) & 0xf));
    r.append(hex_digit_upper_str((v >> 24) & 0xf));
    r.append(hex_digit_upper_str((v >> 20) & 0xf));
    r.append(hex_digit_upper_str((v >> 16) & 0xf));
    r.append(hex_digit_upper_str((v >> 12) & 0xf));
    r.append(hex_digit_upper_str((v >> 8) & 0xf));
    r.append(hex_digit_upper_str((v >> 4) & 0xf));
    r.append(hex_digit_upper_str(v & 0xf));
    proof {
        assert(r@ =~= spec_hex8(v));
    }
    r
}

/// `text` padded on the left with spaces to width `w`.
pub fn pad_left(text: String, w: usize) -> (r: String)
    ensures
        r@ == spec_pad_left(text@, w as nat),
{
    let len = text.as_str().unicode_len();
    if len >= w {
        return text;
    }
    let mut r = String::new();
    let mut i: usize = 0;
    while i < w - len
        invariant
            r@ =~= spec_spaces(i as nat),
            i <= w - len,
            len == text@.len(),
            len < w,
        decreases w - len - i,
    {
        r.append(" ");
        proof {
            reveal_strlit(" ");
            assert(" "@ =~= seq![' ']);
        }
        i += 1;
    }
    r.append(text.as_str());
    proof {
        assert(r@ =~= spec_pad_left(text@, w as nat));
    }
    r
}

} // verus!
