//! Hexadecimal rendering for diagnostics.
//!
//! An open enumeration value whose raw integer matches no known name is
//! rendered as a hexadecimal literal, so diagnostics never fail and never
//! lose the exact bits of an unknown value.
use vstd::prelude::*;
use vstd::string::StringExecFns;

verus! {

/// The character for one hexadecimal digit.
pub open spec fn spec_hex_char(d: u8) -> char {
    if d == 0 {
        '0'
    } else if d == 1 {
        '1'
    } else if d == 2 {
        '2'
    } else if d == 3 {
        '3'
    } else if d == 4 {
        '4'
    } else if d == 5 {
        '5'
    } else if d == 6 {
        '6'
    } else if d == 7 {
        '7'
    } else if d == 8 {
        '8'
    } else if d == 9 {
        '9'
    } else if d == 10 {
        'a'
    } else if d == 11 {
        'b'
    } else if d == 12 {
        'c'
    } else if d == 13 {
        'd'
    } else if d == 14 {
        'e'
    } else {
        'f'
    }
}

/// The `n` low hexadecimal digits of `v`, most significant first.
pub open spec fn spec_hex_digits(v: u32, n: nat) -> Seq<char>
    recommends
        n <= 8,
{
    Seq::new(n, |i: int| spec_hex_char(((v >> ((4 * (n - 1 - i)) as u32)) & 0xf) as u8))
}

/// A hexadecimal literal: `0x` followed by the `n` low digits of `v`.
pub open spec fn spec_hex_render(v: u32, n: nat) -> Seq<char>
    recommends
        n <= 8,
{
    seq!['0', 'x'] + spec_hex_digits(v, n)
}

/// The one-character string for a hexadecimal digit.
fn hex_char_str(d: u8) -> (r: &'static str)
    requires
        d < 16,
    ensures
        r@ == seq![spec_hex_char(d)],
{
    let r: &'static str = if d == 0 {
        "0"
    } else if d == 1 {
        "1"
    } else if d == 2 {
        "2"
    } else if d == 3 {
        "3"
    } else if d == 4 {
        "4"
    } else if d == 5 {
        "5"
    } else if d == 6 {
        "6"
    } else if d == 7 {
        "7"
    } else if d == 8 {
        "8"
    } else if d == 9 {
        "9"
    } else if d == 10 {
        "a"
    } else if d == 11 {
        "b"
    } else if d == 12 {
        "c"
    } else if d == 13 {
        "d"
    } else if d == 14 {
        "e"
    } else {
        "f"
    };
    proof {
        reveal_strlit("0");
        reveal_strlit("1");
        reveal_strlit("2");
        reveal_strlit("3");
        reveal_strlit("4");
        reveal_strlit("5");
        reveal_strlit("6");
        reveal_strlit("7");
        reveal_strlit("8");
        reveal_strlit("9");
        reveal_strlit("a");
        reveal_strlit("b");
        reveal_strlit("c");
        reveal_strlit("d");
        reveal_strlit("e");
        reveal_strlit("f");
        assert(r@ =~= seq![spec_hex_char(d)]);
    }
    r
}

/// Renders the `n` low hexadecimal digits of `v` as a `0x` literal,
/// most significant digit first.
pub fn render_hex(v: u32, n: usize) -> (s: String)
    requires
        1 <= n <= 8,
    ensures
        s@ == spec_hex_render(v, n as nat),
{
    let mut s = String::from_str("0x");
    proof {
        reveal_strlit("0x");
        assert(s@ =~= seq!['0', 'x']);
    }
    let mut i: usize = 0;
    while i < n
        invariant
            1 <= n <= 8,
            i <= n,
            s@ == seq!['0', 'x'] + spec_hex_digits(v, n as nat).subrange(0, i as int),
        decreases n - i,
    {
        let shift: u32 = (4 * (n - 1 - i)) as u32;
        let d: u8 = ((v >> shift) & 0xf) as u8;
        proof {
            assert(((v >> shift) & 0xf) < 16) by (bit_vector);
            assert(spec_hex_digits(v, n as nat)[i as int] == spec_hex_char(d));
        }
        s.append(hex_char_str(d));
        proof {
            assert(spec_hex_digits(v, n as nat).subrange(0, i + 1) =~= spec_hex_digits(
                v,
                n as nat,
            ).subrange(0, i as int).push(spec_hex_char(d)));
        }
        i = i + 1;
    }
    proof {
        assert(spec_hex_digits(v, n as nat).subrange(0, n as int) =~= spec_hex_digits(v, n as nat));
        assert(s@ =~= spec_hex_render(v, n as nat));
    }
    s
}

} // verus!
