//! Textual formatting of field values: decimal numbers, the fixed-width
//! hexadecimal checksum form, and dotted-decimal IPv4 addresses.

use vstd::prelude::*;
use vstd::string::*;

verus! {

/// The decimal digit character for `d` (meaningful for `d < 10`).
pub open spec fn dec_digit(d: nat) -> char {
    if d == 0 {
        '0'
    } else if d == 1 {
        '1'
    } else if d == 2 {
        '2'
    } else if d == 3 {
        '3'
    } else if d == 4 {
        '4'
    } else if d == 5 {
        '5'
    } else if d == 6 {
        '6'
    } else if d == 7 {
        '7'
    } else if d == 8 {
        '8'
    } else {
        '9'
    }
}

/// Decimal text of `n`: most significant digit first, no leading zeros,
/// a single `'0'` for zero.
pub open spec fn dec_str(n: nat) -> Seq<char>
    decreases n,
{
    if n < 10 {
        seq![dec_digit(n)]
    } else {
        dec_str(n / 10) + seq![dec_digit(n % 10)]
    }
}

/// The lowercase hexadecimal digit character for `d` (meaningful for `d < 16`).
pub open spec fn hex_digit(d: nat) -> char {
    if d < 10 {
        dec_digit(d)
    } else if d == 10 {
        'a'
    } else if d == 11 {
        'b'
    } else if d == 12 {
        'c'
    } else if d == 13 {
        'd'
    } else if d == 14 {
        'e'
    } else {
        'f'
    }
}

/// Checksum display form: `0x` followed by exactly four zero-padded
/// lowercase hexadecimal digits.
pub open spec fn checksum_str(n: nat) -> Seq<char> {
    "0x"@ + seq![
        hex_digit(n / 0x1000 % 16),
        hex_digit(n / 0x100 % 16),
        hex_digit(n / 0x10 % 16),
        hex_digit(n % 16),
    ]
}

/// Dotted-decimal text of a 32-bit IPv4 address in host byte order,
/// most significant octet first.
pub open spec fn ipv4_str(addr: nat) -> Seq<char> {
    dec_str(addr / 0x1000000 % 256) + "."@ + dec_str(addr / 0x10000 % 256) + "."@ + dec_str(
        addr / 0x100 % 256,
    ) + "."@ + dec_str(addr % 256)
}

/// The views of a name/value row list, as the contracts speak of them.
pub open spec fn row_views(rows: Seq<(String, String)>) -> Seq<(Seq<char>, Seq<char>)> {
    rows.map_values(|r: (String, String)| (r.0@, r.1@))
}

fn dec_digit_str(d: u16) -> (r: &'static str)
    requires
        d < 10,
    ensures
        r@ == seq![dec_digit(d as nat)],
{
    proof {
        reveal_strlit("0");
        reveal_strlit("1");
        reveal_strlit("2");
        reveal_strlit("3");
        reveal_strlit("4");
        reveal_strlit("5");
        reveal_strlit("6");
        reveal_strlit("7");
        reveal_strlit("8");
        reveal_strlit("9");
    }
    let r = match d {
        0 => "0",
        1 => "1",
        2 => "2",
        3 => "3",
        4 => "4",
        5 => "5",
        6 => "6",
        7 => "7",
        8 => "8",
        _ => "9",
    };
    proof {
        assert(r@ =~= seq![dec_digit(d as nat)]);
    }
    r
}

fn hex_digit_str(d: u16) -> (r: &'static str)
    requires
        d < 16,
    ensures
        r@ == seq![hex_digit(d as nat)],
{
    if d < 10 {
        dec_digit_str(d)
    } else {
        proof {
            reveal_strlit("a");
            reveal_strlit("b");
            reveal_strlit("c");
            reveal_strlit("d");
            reveal_strlit("e");
            reveal_strlit("f");
        }
        let r = match d {
            10 => "a",
            11 => "b",
            12 => "c",
            13 => "d",
            14 => "e",
            _ => "f",
        };
        proof {
            assert(r@ =~= seq![hex_digit(d as nat)]);
        }
        r
    }
}

/// Decimal text of `n`, e.g. `0` formats as `"0"` and `20` as `"20"`.
pub fn dec_string(n: u16) -> (r: String)
    ensures
        r@ == dec_str(n as nat),
    decreases n,
{
    if n < 10 {
        String::from_str(dec_digit_str(n))
    } else {
        let prefix = dec_string(n / 10);
        prefix.concat(dec_digit_str(n % 10))
    }
}

/// Checksum display form of `n`: zero-padded `0x`-prefixed lowercase
/// hexadecimal, always six characters, e.g. `0` formats as `"0x0000"`.
pub fn checksum_string(n: u16) -> (r: String)
    ensures
        r@ == checksum_str(n as nat),
{
    let mut s = String::from_str("0x");
    s.append(hex_digit_str(n / 0x1000));
    s.append(hex_digit_str(n / 0x100 % 16));
    s.append(hex_digit_str(n / 0x10 % 16));
    s.append(hex_digit_str(n % 16));
    proof {
        assert(s@ =~= checksum_str(n as nat));
    }
    s
}

/// Dotted-decimal text of `addr`, e.g. `0xe0000001` formats as
/// `"224.0.0.1"`.
pub fn ipv4_string(addr: u32) -> (r: String)
    ensures
        r@ == ipv4_str(addr as nat),
{
    let o1: u32 = addr / 0x1000000 % 256;
    let o2: u32 = addr / 0x10000 % 256;
    let o3: u32 = addr / 0x100 % 256;
    let o4: u32 = addr % 256;
    let mut s = dec_string(o1 as u16);
    s.append(".");
    let p2 = dec_string(o2 as u16);
    s.append(p2.as_str());
    s.append(".");
    let p3 = dec_string(o3 as u16);
    s.append(p3.as_str());
    s.append(".");
    let p4 = dec_string(o4 as u16);
    s.append(p4.as_str());
    proof {
        assert(s@ =~= ipv4_str(addr as nat));
    }
    s
}

/// Checksum formatting is deterministic and of fixed shape: for every
/// 16-bit value the display form has exactly six characters, starts with
/// `0x`, and continues with four lowercase hexadecimal digits.
pub proof fn lemma_checksum_str_shape(n: u16)
    ensures
        checksum_str(n as nat).len() == 6,
        checksum_str(n as nat)[0] == '0',
        checksum_str(n as nat)[1] == 'x',
        forall|i: int|
            2 <= i < 6 ==> is_lower_hex_digit(#[trigger] checksum_str(n as nat)[i]),
{
    reveal_strlit("0x");
    assert(checksum_str(n as nat).len() == 6);
    assert(checksum_str(n as nat)[0] == '0');
    assert(checksum_str(n as nat)[1] == 'x');
    assert forall|i: int| 2 <= i < 6 implies is_lower_hex_digit(
        #[trigger] checksum_str(n as nat)[i],
    ) by {
        assert(is_lower_hex_digit(hex_digit(n as nat / 0x1000 % 16)));
        assert(is_lower_hex_digit(hex_digit(n as nat / 0x100 % 16)));
        assert(is_lower_hex_digit(hex_digit(n as nat / 0x10 % 16)));
        assert(is_lower_hex_digit(hex_digit(n as nat % 16)));
    }
}

/// Whether `c` is one of the sixteen lowercase hexadecimal digit characters.
pub open spec fn is_lower_hex_digit(c: char) -> bool {
    c == '0' || c == '1' || c == '2' || c == '3' || c == '4' || c == '5' || c == '6' || c == '7'
        || c == '8' || c == '9' || c == 'a' || c == 'b' || c == 'c' || c == 'd' || c == 'e'
        || c == 'f'
}

} // verus!
