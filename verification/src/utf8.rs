//! The payload validity rule: a frame body must be well-formed UTF-8.
//!
//! [`is_valid_utf8`] states the encoding rules byte class by byte class
//! (ASCII, two- to four-byte sequences, with the restricted ranges that rule
//! out overlong forms, surrogates, and code points past U+10FFFF), and
//! [`validate_utf8`] is a verified checker for it.

use vstd::prelude::*;
use vstd::seq_lib::lemma_seq_skip_of_skip;

verus! {

/// A continuation byte `10xxxxxx`.
pub open spec fn is_cont(b: u8) -> bool {
    0x80 <= b && b <= 0xBF
}

/// How many bytes a well-formed sequence starting with `b0` occupies,
/// or 0 when no well-formed sequence starts with `b0`.
pub open spec fn seq_len_of(b0: u8) -> int {
    if b0 < 0x80 {
        1
    } else if 0xC2 <= b0 && b0 <= 0xDF {
        2
    } else if 0xE0 <= b0 && b0 <= 0xEF {
        3
    } else if 0xF0 <= b0 && b0 <= 0xF4 {
        4
    } else {
        0
    }
}

/// The bytes `s` begin with one well-formed UTF-8 sequence of
/// `seq_len_of(s[0])` bytes.
pub open spec fn valid_head(s: Seq<u8>) -> bool
    recommends
        s.len() > 0,
{
    let b0 = s[0];
    if b0 < 0x80 {
        true
    } else if 0xC2 <= b0 && b0 <= 0xDF {
        s.len() >= 2 && is_cont(s[1])
    } else if b0 == 0xE0 {
        s.len() >= 3 && 0xA0 <= s[1] && s[1] <= 0xBF && is_cont(s[2])
    } else if 0xE1 <= b0 && b0 <= 0xEC {
        s.len() >= 3 && is_cont(s[1]) && is_cont(s[2])
    } else if b0 == 0xED {
        s.len() >= 3 && 0x80 <= s[1] && s[1] <= 0x9F && is_cont(s[2])
    } else if 0xEE <= b0 && b0 <= 0xEF {
        s.len() >= 3 && is_cont(s[1]) && is_cont(s[2])
    } else if b0 == 0xF0 {
        s.len() >= 4 && 0x90 <= s[1] && s[1] <= 0xBF && is_cont(s[2]) && is_cont(s[3])
    } else if 0xF1 <= b0 && b0 <= 0xF3 {
        s.len() >= 4 && is_cont(s[1]) && is_cont(s[2]) && is_cont(s[3])
    } else if b0 == 0xF4 {
        s.len() >= 4 && 0x80 <= s[1] && s[1] <= 0x8F && is_cont(s[2]) && is_cont(s[3])
    } else {
        false
    }
}

/// The bytes `s` are a well-formed UTF-8 string: a run of well-formed
/// sequences with nothing left over.
pub open spec fn is_valid_utf8(s: Seq<u8>) -> bool
    decreases s.len(),
{
    if s.len() == 0 {
        true
    } else {
        valid_head(s) && is_valid_utf8(s.skip(seq_len_of(s[0])))
    }
}

/// Check whether `bytes` are well-formed UTF-8.
pub fn validate_utf8(bytes: &[u8]) -> (ok: bool)
    ensures
        ok == is_valid_utf8(bytes@),
{
    let n = bytes.len();
    let mut i: usize = 0;
    proof {
        assert(bytes@.skip(0) =~= bytes@);
    }
    while i < n
        invariant
            i <= n,
            n == bytes@.len(),
            is_valid_utf8(bytes@) == is_valid_utf8(bytes@.skip(i as int)),
        decreases n - i,
    {
        let ghost rest = bytes@.skip(i as int);
        proof {
            assert(rest.len() == n - i);
            assert(rest[0] == bytes@[i as int]);
        }
        let b0 = bytes[i];
        let step: usize;
        if b0 < 0x80 {
            step = 1;
        } else if 0xC2 <= b0 && b0 <= 0xDF {
            if n - i < 2 || !cont_byte(bytes[i + 1]) {
                proof {
                    assert(!valid_head(rest));
                }
                return false;
            }
            step = 2;
        } else if b0 == 0xE0 {
            if n - i < 3 || !(0xA0 <= bytes[i + 1] && bytes[i + 1] <= 0xBF)
                || !cont_byte(bytes[i + 2]) {
                proof {
                    assert(!valid_head(rest));
                }
                return false;
            }
            step = 3;
        } else if 0xE1 <= b0 && b0 <= 0xEC {
            if n - i < 3 || !cont_byte(bytes[i + 1]) || !cont_byte(bytes[i + 2]) {
                proof {
                    assert(!valid_head(rest));
                }
                return false;
            }
            step = 3;
        } else if b0 == 0xED {
            if n - i < 3 || !(0x80 <= bytes[i + 1] && bytes[i + 1] <= 0x9F)
                || !cont_byte(bytes[i + 2]) {
                proof {
                    assert(!valid_head(rest));
                }
                return false;
            }
            step = 3;
        } else if 0xEE <= b0 && b0 <= 0xEF {
            if n - i < 3 || !cont_byte(bytes[i + 1]) || !cont_byte(bytes[i + 2]) {
                proof {
                    assert(!valid_head(rest));
                }
                return false;
            }
            step = 3;
        } else if b0 == 0xF0 {
            if n - i < 4 || !(0x90 <= bytes[i + 1] && bytes[i + 1] <= 0xBF)
                || !cont_byte(bytes[i + 2]) || !cont_byte(bytes[i + 3]) {
                proof {
                    assert(!valid_head(rest));
                }
                return false;
            }
            step = 4;
        } else if 0xF1 <= b0 && b0 <= 0xF3 {
            if n - i < 4 || !cont_byte(bytes[i + 1]) || !cont_byte(bytes[i + 2])
                || !cont_byte(bytes[i + 3]) {
                proof {
                    assert(!valid_head(rest));
                }
                return false;
            }
            step = 4;
        } else if b0 == 0xF4 {
            if n - i < 4 || !(0x80 <= bytes[i + 1] && bytes[i + 1] <= 0x8F)
                || !cont_byte(bytes[i + 2]) || !cont_byte(bytes[i + 3]) {
                proof {
                    assert(!valid_head(rest));
                }
                return false;
            }
            step = 4;
        } else {
            proof {
                assert(!valid_head(rest));
            }
            return false;
        }
        proof {
            assert(step == seq_len_of(rest[0]));
            assert(valid_head(rest));
            assert(is_valid_utf8(rest) == is_valid_utf8(rest.skip(step as int)));
            lemma_seq_skip_of_skip(bytes@, i as int, step as int);
            assert(rest.skip(step as int) == bytes@.skip(i + step));
        }
        i = i + step;
    }
    proof {
        assert(bytes@.skip(i as int).len() == 0);
    }
    true
}

/// Check for a continuation byte `10xxxxxx`.
pub fn cont_byte(b: u8) -> (r: bool)
    ensures
        r == is_cont(b),
{
    0x80 <= b && b <= 0xBF
}

} // verus!
