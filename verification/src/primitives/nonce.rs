//! The nonce of a ping.

use vstd::prelude::*;
use vstd::string::StringExecFns;

verus! {

/// The upper-case hexadecimal digit of a nibble.
pub open spec fn hex_digit_upper(nibble: int) -> char {
    if nibble < 10 {
        (48 + nibble) as char
    } else {
        (55 + nibble) as char
    }
}

/// The nibble of `value` at hexadecimal position `i`, counted from the most
/// significant of its sixteen.
pub open spec fn nibble_at(value: u64, i: int) -> int {
    ((value >> ((60 - 4 * i) as u64)) & 0xf) as int
}

/// `value` in sixteen upper-case hexadecimal digits, most significant first.
pub open spec fn hex_upper_u64(value: u64) -> Seq<char> {
    Seq::new(16, |i: int| hex_digit_upper(nibble_at(value, i)))
}

/// `c` is an upper-case hexadecimal digit.
pub open spec fn is_hex_upper(c: char) -> bool {
    ('0' <= c <= '9') || ('A' <= c <= 'F')
}

/// The value of the upper-case hexadecimal digit `c`.
pub open spec fn hex_digit_value(c: char) -> int {
    if '0' <= c <= '9' {
        c as int - '0' as int
    } else {
        c as int - 'A' as int + 10
    }
}

/// The number written by the hexadecimal digits `s`, most significant first.
pub open spec fn hex_number(s: Seq<char>) -> int
    decreases s.len(),
{
    if s.len() == 0 {
        0
    } else {
        hex_number(s.drop_last()) * 16 + hex_digit_value(s.last())
    }
}

proof fn lemma_shift_step(v: u64, s: u64)
    by (bit_vector)
    requires
        s <= 56,
    ensures
        (v >> ((s + 4) as u64)) * 16 + ((v >> s) & 15) == v >> s,
{
}

proof fn lemma_top_nibble(v: u64)
    by (bit_vector)
    ensures
        (v >> 60u64) & 15 == v >> 60u64,
{
}

proof fn lemma_hex_prefix(value: u64, k: int)
    requires
        1 <= k <= 16,
    ensures
        hex_number(hex_upper_u64(value).take(k)) == value >> ((64 - 4 * k) as u64),
    decreases k,
{
    let t = hex_upper_u64(value).take(k);
    assert(t.drop_last() =~= hex_upper_u64(value).take(k - 1));
    let n = nibble_at(value, k - 1);
    let s = (64 - 4 * k) as u64;
    assert(0 <= n < 16) by {
        assert((value >> s) & 0xf < 16) by (bit_vector);
    }
    assert(t.last() == hex_digit_upper(n));
    assert(hex_digit_value(hex_digit_upper(n)) == n);
    assert(hex_number(t) == hex_number(t.drop_last()) * 16 + n);
    if k == 1 {
        assert(hex_upper_u64(value).take(0) =~= Seq::<char>::empty());
        lemma_top_nibble(value);
    } else {
        lemma_hex_prefix(value, k - 1);
        lemma_shift_step(value, s);
        assert((64 - 4 * (k - 1)) as u64 == (s + 4) as u64);
    }
}

/// The text of a nonce is sixteen upper-case hexadecimal digits that read
/// back, most significant first, as the nonce's value.
pub proof fn lemma_nonce_text(value: u64)
    ensures
        hex_upper_u64(value).len() == 16,
        forall|i: int| 0 <= i < 16 ==> is_hex_upper(#[trigger] hex_upper_u64(value)[i]),
        hex_number(hex_upper_u64(value)) == value,
{
    assert forall|i: int| 0 <= i < 16 implies is_hex_upper(#[trigger] hex_upper_u64(value)[i]) by {
        let s = (60 - 4 * i) as u64;
        assert((value >> s) & 0xf < 16) by (bit_vector);
    }
    lemma_hex_prefix(value, 16);
    assert(hex_upper_u64(value).take(16) =~= hex_upper_u64(value));
    assert(value >> 0u64 == value) by (bit_vector);
}

fn hex_digit_upper_str(nibble: u64) -> (r: &'static str)
    requires
        nibble < 16,
    ensures
        r@ == seq![hex_digit_upper(nibble as int)],
{
    if nibble == 0 {
        proof {
            reveal_strlit("0");
        }
        "0"
    } else if nibble == 1 {
        proof {
            reveal_strlit("1");
        }
        "1"
    } else if nibble == 2 {
        proof {
            reveal_strlit("2");
        }
        "2"
    } else if nibble == 3 {
        proof {
            reveal_strlit("3");
        }
        "3"
    } else if nibble == 4 {
        proof {
            reveal_strlit("4");
        }
        "4"
    } else if nibble == 5 {
        proof {
            reveal_strlit("5");
        }
        "5"
    } else if nibble == 6 {
        proof {
            reveal_strlit("6");
        }
        "6"
    } else if nibble == 7 {
        proof {
            reveal_strlit("7");
        }
        "7"
    } else if nibble == 8 {
        proof {
            reveal_strlit("8");
        }
        "8"
    } else if nibble == 9 {
        proof {
            reveal_strlit("9");
        }
        "9"
    } else if nibble == 10 {
        proof {
            reveal_strlit("A");
        }
        "A"
    } else if nibble == 11 {
        proof {
            reveal_strlit("B");
        }
        "B"
    } else if nibble == 12 {
        proof {
            reveal_strlit("C");
        }
        "C"
    } else if nibble == 13 {
        proof {
            reveal_strlit("D");
        }
        "D"
    } else if nibble == 14 {
        proof {
            reveal_strlit("E");
        }
        "E"
    } else {
        proof {
            reveal_strlit("F");
        }
        "F"
    }
}

/// A number-used-once, specifically one used in pings.
// Note: This nonce used to be a `u32`, but that is too small - since we immediately disconnect when
//       a duplicate ping is generated, a `u32` has a ~ 1/(2^32) chance of a consecutive collision.
//
//       If we ping every 5 seconds, this is a ~ 0.01% chance over a month, which is too high over
//       thousands over nodes. At 64 bits, in theory the upper bound is 0.0000000002%, which is
//       better (the period of the RNG used should be >> 64 bits).
//
//       While we do check for consecutive ping nonces being generated, we still like the lower
//       collision chance for repeated pings being sent.
#[derive(Clone, Copy, Debug, PartialEq, Eq, Structural, Hash)]
pub struct Nonce(pub u64);

impl Nonce {
    /// Creates a nonce.
    pub fn new(value: u64) -> (r: Self)
        ensures
            r.0 == value,
    {
        Nonce(value)
    }

    /// The displayed form of the nonce: sixteen upper-case hexadecimal digits.
    pub fn to_string(&self) -> (r: String)
        ensures
            r@ == hex_upper_u64(self.0),
    {
        let mut out = String::new();
        let mut i: u64 = 0;
        while i < 16
            invariant
                i <= 16,
                out@ == hex_upper_u64(self.0).take(i as int),
            decreases 16 - i,
        {
            let shift: u64 = 60 - 4 * i;
            let nibble: u64 = (self.0 >> shift) & 0xf;
            proof {
                let v = self.0;
                assert((v >> shift) & 0xf < 16) by (bit_vector);
            }
            out.append(hex_digit_upper_str(nibble));
            proof {
                assert(out@ =~= hex_upper_u64(self.0).take(i + 1));
            }
            i = i + 1;
        }
        proof {
            assert(hex_upper_u64(self.0).take(16) =~= hex_upper_u64(self.0));
        }
        out
    }
}

} // verus!
