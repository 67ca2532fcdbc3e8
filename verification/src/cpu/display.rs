use vstd::prelude::*;
use vstd::string::StringExecFns;

use crate::cpu::model::{describe, flag_char, hex_byte, hex_digit, status_chars};
use crate::cpu::state::{
    CPU, FLAG_B, FLAG_CARRY, FLAG_DECIMAL, FLAG_INTERRUPT_DISABLE, FLAG_NEGATIVE, FLAG_OVERFLOW,
    FLAG_ZERO,
};

verus! {

/// The hexadecimal digit of `n` as a one-character string.
fn hex_digit_str(n: u8) -> (s: &'static str)
    requires
        n < 16,
    ensures
        s@ == seq![hex_digit(n as int)],
{
    match n {
        0 => {
            proof {
                reveal_strlit("0");
            }
            "0"
        },
        1 => {
            proof {
                reveal_strlit("1");
            }
            "1"
        },
        2 => {
            proof {
                reveal_strlit("2");
            }
            "2"
        },
        3 => {
            proof {
                reveal_strlit("3");
            }
            "3"
        },
        4 => {
            proof {
                reveal_strlit("4");
            }
            "4"
        },
        5 => {
            proof {
                reveal_strlit("5");
            }
            "5"
        },
        6 => {
            proof {
                reveal_strlit("6");
            }
            "6"
        },
        7 => {
            proof {
                reveal_strlit("7");
            }
            "7"
        },
        8 => {
            proof {
                reveal_strlit("8");
            }
            "8"
        },
        9 => {
            proof {
                reveal_strlit("9");
            }
            "9"
        },
        10 => {
            proof {
                reveal_strlit("A");
            }
            "A"
        },
        11 => {
            proof {
                reveal_strlit("B");
            }
            "B"
        },
        12 => {
            proof {
                reveal_strlit("C");
            }
            "C"
        },
        13 => {
            proof {
                reveal_strlit("D");
            }
            "D"
        },
        14 => {
            proof {
                reveal_strlit("E");
            }
            "E"
        },
        _ => {
            proof {
                reveal_strlit("F");
            }
            "F"
        },
    }
}

/// Append the two hexadecimal digits of `v`.
fn append_hex_byte(out: &mut String, v: u8)
    ensures
        final(out)@ == old(out)@ + hex_byte(v),
{
    out.append(hex_digit_str(v / 16));
    out.append(hex_digit_str(v % 16));
    proof {
        assert(final(out)@ =~= old(out)@ + hex_byte(v));
    }
}

/// Append `label` when a bit of `mask` is set in `status`, else `-`.
fn append_flag(out: &mut String, status: u8, mask: u8, label: &'static str)
    requires
        label@.len() == 1,
    ensures
        final(out)@ == old(out)@.push(flag_char(status, mask, label@[0])),
{
    if status & mask != 0 {
        out.append(label);
    } else {
        proof {
            reveal_strlit("-");
        }
        out.append("-");
    }
    proof {
        assert(final(out)@ =~= old(out)@.push(flag_char(status, mask, label@[0])));
    }
}

impl CPU {
    /// The registers and flags on one line, such as
    /// `PC=0xC123  A=0x10  X=0x20  Y=0x30  SP=0x7F  STATUS=[NV-B--Z-]`.
    pub fn to_string(&self) -> (line: String)
        ensures
            line@ == describe(self@),
    {
        let mut out = String::new();
        out.append("PC=0x");
        append_hex_byte(&mut out, (self.program_counter >> 8) as u8);
        append_hex_byte(&mut out, (self.program_counter & 0xFF) as u8);
        out.append("  A=0x");
        append_hex_byte(&mut out, self.register_a);
        out.append("  X=0x");
        append_hex_byte(&mut out, self.register_x);
        out.append("  Y=0x");
        append_hex_byte(&mut out, self.register_y);
        out.append("  SP=0x");
        append_hex_byte(&mut out, self.sp);
        out.append("  STATUS=[");
        let ghost before_flags = out@;
        proof {
            reveal_strlit("N");
            reveal_strlit("V");
            reveal_strlit("-");
            reveal_strlit("B");
            reveal_strlit("D");
            reveal_strlit("I");
            reveal_strlit("Z");
            reveal_strlit("C");
        }
        append_flag(&mut out, self.status, FLAG_NEGATIVE, "N");
        append_flag(&mut out, self.status, FLAG_OVERFLOW, "V");
        out.append("-");
        append_flag(&mut out, self.status, FLAG_B, "B");
        append_flag(&mut out, self.status, FLAG_DECIMAL, "D");
        append_flag(&mut out, self.status, FLAG_INTERRUPT_DISABLE, "I");
        append_flag(&mut out, self.status, FLAG_ZERO, "Z");
        append_flag(&mut out, self.status, FLAG_CARRY, "C");
        proof {
            assert(out@ =~= before_flags + status_chars(self.status));
            crate::cpu::lemma_word_split(self.program_counter);
        }
        out.append("]");
        proof {
            assert(out@ =~= describe(self@));
        }
        out
    }
}

} // verus!
