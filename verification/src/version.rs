//! The native library's version descriptor and its rendering.
//!
//! The native version struct carries three small non-negative parts; the
//! descriptor here holds them as plain values, is immutable once built, and
//! renders as `"{major}.{minor}.{patch}"`.

use vstd::prelude::*;
use vstd::string::StringExecFns;

verus! {

/// The digit character for `d`.
pub open spec fn digit_char(d: nat) -> char {
    if d == 0 {
        '0'
    } else if d == 1 {
        '1'
    } else if d == 2 {
        '2'
    } else if d == 3 {
        '3'
    } else if d == 4 {
        '4'
    } else if d == 5 {
        '5'
    } else if d == 6 {
        '6'
    } else if d == 7 {
        '7'
    } else if d == 8 {
        '8'
    } else {
        '9'
    }
}

/// The decimal rendering of `n`, most significant digit first, without
/// leading zeros (`0` renders as "0").
pub open spec fn dec_str(n: nat) -> Seq<char>
    decreases n,
{
    if n < 10 {
        seq![digit_char(n)]
    } else {
        dec_str(n / 10).push(digit_char(n % 10))
    }
}

/// The version of the linked native library: purely informational, with no
/// identity beyond equality and formatting.
#[derive(Clone, Copy, Debug, PartialEq, Eq, Structural)]
pub struct ImageVersion {
    pub major: u8,
    pub minor: u8,
    pub patch: u8,
}

/// The `"{major}.{minor}.{patch}"` rendering of a version.
pub open spec fn version_str(v: ImageVersion) -> Seq<char> {
    dec_str(v.major as nat) + seq!['.'] + dec_str(v.minor as nat) + seq!['.'] + dec_str(
        v.patch as nat,
    )
}

/// The digit character for `d`, as a one-character string.
fn digit_str(d: u8) -> (r: &'static str)
    requires
        d < 10,
    ensures
        r@ == seq![digit_char(d as nat)],
{
    match d {
        0 => {
            proof {
                reveal_strlit("0");
                assert("0"@ =~= seq![digit_char(0)]);
            }
            "0"
        },
        1 => {
            proof {
                reveal_strlit("1");
                assert("1"@ =~= seq![digit_char(1)]);
            }
            "1"
        },
        2 => {
            proof {
                reveal_strlit("2");
                assert("2"@ =~= seq![digit_char(2)]);
            }
            "2"
        },
        3 => {
            proof {
                reveal_strlit("3");
                assert("3"@ =~= seq![digit_char(3)]);
            }
            "3"
        },
        4 => {
            proof {
                reveal_strlit("4");
                assert("4"@ =~= seq![digit_char(4)]);
            }
            "4"
        },
        5 => {
            proof {
                reveal_strlit("5");
                assert("5"@ =~= seq![digit_char(5)]);
            }
            "5"
        },
        6 => {
            proof {
                reveal_strlit("6");
                assert("6"@ =~= seq![digit_char(6)]);
            }
            "6"
        },
        7 => {
            proof {
                reveal_strlit("7");
                assert("7"@ =~= seq![digit_char(7)]);
            }
            "7"
        },
        8 => {
            proof {
                reveal_strlit("8");
                assert("8"@ =~= seq![digit_char(8)]);
            }
            "8"
        },
        _ => {
            proof {
                reveal_strlit("9");
                assert("9"@ =~= seq![digit_char(9)]);
            }
            "9"
        },
    }
}

/// Appends the decimal rendering of `n` to `out`.
fn push_decimal(out: &mut String, n: u8)
    ensures
        final(out)@ == old(out)@ + dec_str(n as nat),
{
    if n < 10 {
        out.append(digit_str(n));
    } else if n < 100 {
        let hi = n / 10;
        let lo = n % 10;
        out.append(digit_str(hi));
        out.append(digit_str(lo));
        proof {
            assert(dec_str(n as nat) == dec_str(hi as nat).push(digit_char(lo as nat)));
            assert(dec_str(hi as nat) == seq![digit_char(hi as nat)]);
            assert(out@ =~= old(out)@ + dec_str(n as nat));
        }
    } else {
        let m = n / 10;
        let d0 = m / 10;
        let d1 = m % 10;
        let d2 = n % 10;
        out.append(digit_str(d0));
        out.append(digit_str(d1));
        out.append(digit_str(d2));
        proof {
            assert(dec_str(n as nat) == dec_str(m as nat).push(digit_char(d2 as nat)));
            assert(dec_str(m as nat) == dec_str(d0 as nat).push(digit_char(d1 as nat)));
            assert(dec_str(d0 as nat) == seq![digit_char(d0 as nat)]);
            assert(out@ =~= old(out)@ + dec_str(n as nat));
        }
    }
}

impl ImageVersion {
    /// Builds the descriptor from the three fields of the native version
    /// struct.
    pub fn from_sdl_version(major: u8, minor: u8, patch: u8) -> (v: ImageVersion)
        ensures
            v == (ImageVersion { major, minor, patch }),
    {
        ImageVersion { major, minor, patch }
    }

    /// Renders this version as `"{major}.{minor}.{patch}"`.
    pub fn to_str(&self) -> (r: String)
        ensures
            r@ == version_str(*self),
    {
        proof {
            reveal_strlit(".");
            assert("."@ =~= seq!['.']);
        }
        let mut s = String::new();
        push_decimal(&mut s, self.major);
        s.append(".");
        push_decimal(&mut s, self.minor);
        s.append(".");
        push_decimal(&mut s, self.patch);
        proof {
            assert(s@ =~= version_str(*self));
        }
        s
    }
}

} // verus!
