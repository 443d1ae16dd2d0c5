//! Display text derived from wire values: decimal numbers, dotted-quad IPv4
//! addresses, and protocol names.

use vstd::prelude::*;
use vstd::string::StringExecFns;

verus! {

/// The decimal digit character for `d` (0 through 9).
pub open spec fn digit_char(d: int) -> char {
    if d == 0 {
        '0'
    } else if d == 1 {
        '1'
    } else if d == 2 {
        '2'
    } else if d == 3 {
        '3'
    } else if d == 4 {
        '4'
    } else if d == 5 {
        '5'
    } else if d == 6 {
        '6'
    } else if d == 7 {
        '7'
    } else if d == 8 {
        '8'
    } else {
        '9'
    }
}

/// The decimal text of a byte-sized value, without leading zeros.
pub open spec fn dec_u8_text(n: int) -> Seq<char> {
    if n < 10 {
        seq![digit_char(n)]
    } else if n < 100 {
        seq![digit_char(n / 10), digit_char(n % 10)]
    } else {
        seq![digit_char(n / 100), digit_char((n / 10) % 10), digit_char(n % 10)]
    }
}

/// The dotted-quad text of a 32-bit IPv4 address value, highest octet first.
pub open spec fn dotted_quad(a: u32) -> Seq<char> {
    dec_u8_text(a as int / 0x1000000) + seq!['.'] + dec_u8_text((a as int / 0x10000) % 0x100)
        + seq!['.'] + dec_u8_text((a as int / 0x100) % 0x100) + seq!['.'] + dec_u8_text(
        a as int % 0x100,
    )
}

/// The advisory display name of an IP protocol number.
pub open spec fn spec_protocol_name(p: u8) -> Seq<char> {
    if p == 1 {
        "ICMP"@
    } else if p == 6 {
        "TCP"@
    } else if p == 17 {
        "UDP"@
    } else if p == 47 {
        "GRE"@
    } else if p == 50 {
        "ESP"@
    } else if p == 51 {
        "AH"@
    } else if p == 89 {
        "OSPF"@
    } else {
        "Unknown("@ + dec_u8_text(p as int) + ")"@
    }
}

fn digit_str(d: u8) -> (r: &'static str)
    requires
        d < 10,
    ensures
        r@ == seq![digit_char(d as int)],
{
    match d {
        0 => {
            proof {
                reveal_strlit("0");
                assert("0"@ =~= seq![digit_char(0)]);
            }
            "0"
        },
        1 => {
            proof {
                reveal_strlit("1");
                assert("1"@ =~= seq![digit_char(1)]);
            }
            "1"
        },
        2 => {
            proof {
                reveal_strlit("2");
                assert("2"@ =~= seq![digit_char(2)]);
            }
            "2"
        },
        3 => {
            proof {
                reveal_strlit("3");
                assert("3"@ =~= seq![digit_char(3)]);
            }
            "3"
        },
        4 => {
            proof {
                reveal_strlit("4");
                assert("4"@ =~= seq![digit_char(4)]);
            }
            "4"
        },
        5 => {
            proof {
                reveal_strlit("5");
                assert("5"@ =~= seq![digit_char(5)]);
            }
            "5"
        },
        6 => {
            proof {
                reveal_strlit("6");
                assert("6"@ =~= seq![digit_char(6)]);
            }
            "6"
        },
        7 => {
            proof {
                reveal_strlit("7");
                assert("7"@ =~= seq![digit_char(7)]);
            }
            "7"
        },
        8 => {
            proof {
                reveal_strlit("8");
                assert("8"@ =~= seq![digit_char(8)]);
            }
            "8"
        },
        _ => {
            proof {
                reveal_strlit("9");
                assert("9"@ =~= seq![digit_char(9)]);
            }
            "9"
        },
    }
}

/// Renders a byte-sized value as decimal text.
pub fn u8_decimal(n: u8) -> (r: String)
    ensures
        r@ == dec_u8_text(n as int),
{
    if n < 10 {
        String::from_str(digit_str(n))
    } else if n < 100 {
        let mut s = String::from_str(digit_str(n / 10));
        s.append(digit_str(n % 10));
        proof {
            assert(s@ =~= dec_u8_text(n as int));
        }
        s
    } else {
        let mut s = String::from_str(digit_str(n / 100));
        s.append(digit_str((n / 10) % 10));
        s.append(digit_str(n % 10));
        proof {
            assert(s@ =~= dec_u8_text(n as int));
        }
        s
    }
}

/// Renders a 32-bit IPv4 address value as dotted-quad text.
pub fn ipv4_text(a: u32) -> (r: String)
    ensures
        r@ == dotted_quad(a),
{
    let mut s = u8_decimal((a / 0x1000000) as u8);
    s.append(".");
    let o1 = u8_decimal(((a / 0x10000) % 0x100) as u8);
    s.append(o1.as_str());
    s.append(".");
    let o2 = u8_decimal(((a / 0x100) % 0x100) as u8);
    s.append(o2.as_str());
    s.append(".");
    let o3 = u8_decimal((a % 0x100) as u8);
    s.append(o3.as_str());
    proof {
        reveal_strlit(".");
        assert("."@ =~= seq!['.']);
        assert(s@ =~= dotted_quad(a));
    }
    s
}

/// The advisory display name of an IP protocol number; any value outside the
/// fixed table is rendered as `Unknown(N)`.
pub fn get_protocol_name(protocol_num: u8) -> (r: String)
    ensures
        r@ == spec_protocol_name(protocol_num),
{
    match protocol_num {
        1 => String::from_str("ICMP"),
        6 => String::from_str("TCP"),
        17 => String::from_str("UDP"),
        47 => String::from_str("GRE"),
        50 => String::from_str("ESP"),
        51 => String::from_str("AH"),
        89 => String::from_str("OSPF"),
        _ => {
            let mut s = String::from_str("Unknown(");
            let digits = u8_decimal(protocol_num);
            s.append(digits.as_str());
            s.append(")");
            s
        },
    }
}

} // verus!
