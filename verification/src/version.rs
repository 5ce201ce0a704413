//! Dotted numeric version strings, as platform probes report them.

use vstd::prelude::*;

use crate::utils::{spec_split, split_string};

verus! {

pub open spec fn is_digit_char(c: char) -> bool {
    48 <= c as u32 && c as u32 <= 57
}

pub open spec fn digit_of(c: char) -> nat {
    (c as u32 - 48) as nat
}

pub open spec fn all_digits(s: Seq<char>) -> bool {
    forall|i: int| 0 <= i < s.len() ==> is_digit_char(s[i])
}

/// The number written by a sequence of decimal digits.
pub open spec fn digits_val(s: Seq<char>) -> nat
    decreases s.len(),
{
    if s.len() == 0 {
        0
    } else {
        digits_val(s.drop_last()) * 10 + digit_of(s.last())
    }
}

/// A non-empty, all-digit sequence whose value fits in a `u64`.
pub open spec fn spec_parse_u64(s: Seq<char>) -> Option<u64> {
    if s.len() >= 1 && all_digits(s) && digits_val(s) <= u64::MAX {
        Some(digits_val(s) as u64)
    } else {
        None
    }
}

proof fn lemma_digits_prefix_le(s: Seq<char>, j: int)
    requires
        0 <= j <= s.len(),
    ensures
        digits_val(s.take(j)) <= digits_val(s),
    decreases s.len() - j,
{
    if j == s.len() {
        assert(s.take(j) =~= s);
    } else {
        assert(s.take(j + 1).drop_last() =~= s.take(j));
        assert(digits_val(s.take(j + 1)) == digits_val(s.take(j)) * 10 + digit_of(
            s.take(j + 1).last(),
        ));
        assert(digits_val(s.take(j)) * 10 >= digits_val(s.take(j))) by (nonlinear_arith);
        lemma_digits_prefix_le(s, j + 1);
    }
}

/// Parses a decimal number; rejects empty input, non-digits and overflow.
pub fn parse_u64(s: &str) -> (r: Option<u64>)
    ensures
        r == spec_parse_u64(s@),
{
    let n = s.unicode_len();
    if n == 0 {
        return None;
    }
    let mut val: u64 = 0;
    let mut i: usize = 0;
    while i < n
        invariant
            0 <= i <= n,
            n == s@.len(),
            forall|j: int| 0 <= j < i ==> is_digit_char(s@[j]),
            val == digits_val(s@.take(i as int)),
        decreases n - i,
    {
        let c = s.get_char(i);
        let u = c as u32;
        if u < 48 || u > 57 {
            return None;
        }
        let d = (u - 48) as u64;
        proof {
            assert(s@.take(i as int + 1).drop_last() =~= s@.take(i as int));
        }
        if val > (u64::MAX - d) / 10 {
            proof {
                let big = digits_val(s@.take(i as int + 1));
                assert(big == val * 10 + d);
                assert(val * 10 + d > u64::MAX) by (nonlinear_arith)
                    requires
                        val > (u64::MAX - d) / 10,
                        d <= 9,
                ;
                if spec_parse_u64(s@) is Some {
                    lemma_digits_prefix_le(s@, i as int + 1);
                    assert(false);
                }
            }
            return None;
        }
        val = val * 10 + d;
        i += 1;
    }
    proof {
        assert(s@.take(n as int) =~= s@);
    }
    Some(val)
}

/// A dotted numeric version; missing components count as zero.
#[derive(Clone, Copy, Debug, PartialEq, Eq, Structural)]
pub struct VersionNumber {
    pub major: u64,
    pub minor: u64,
    pub patch: u64,
}

/// The version written as one to three dot-separated decimal groups.
pub open spec fn spec_version_of(s: Seq<char>) -> Option<VersionNumber> {
    let groups = spec_split(s, '.');
    if 1 <= groups.len() <= 3 && (forall|i: int|
        0 <= i < groups.len() ==> spec_parse_u64(groups[i]) is Some) {
        Some(
            VersionNumber {
                major: spec_parse_u64(groups[0]).unwrap(),
                minor: if groups.len() >= 2 {
                    spec_parse_u64(groups[1]).unwrap()
                } else {
                    0
                },
                patch: if groups.len() >= 3 {
                    spec_parse_u64(groups[2]).unwrap()
                } else {
                    0
                },
            },
        )
    } else {
        None
    }
}

impl VersionNumber {
    /// Strictly later in lexicographic component order.
    pub open spec fn spec_newer_than(&self, other: &VersionNumber) -> bool {
        self.major > other.major || (self.major == other.major && (self.minor > other.minor || (
        self.minor == other.minor && self.patch > other.patch)))
    }

    pub open spec fn spec_zero() -> VersionNumber {
        VersionNumber { major: 0, minor: 0, patch: 0 }
    }

    pub fn zero() -> (r: VersionNumber)
        ensures
            r == VersionNumber::spec_zero(),
    {
        VersionNumber { major: 0, minor: 0, patch: 0 }
    }

    /// Parses a version string such as "1.2" or "10.0.3".
    pub fn from_str(s: &str) -> (r: Option<VersionNumber>)
        ensures
            r == spec_version_of(s@),
    {
        let groups = split_string(s, '.');
        if groups.len() == 0 || groups.len() > 3 {
            return None;
        }
        proof {
            assert(groups.deep_view()[0] == groups@[0]@);
        }
        let major = match parse_u64(groups[0].as_str()) {
            Some(v) => v,
            None => {
                return None;
            },
        };
        let minor = if groups.len() >= 2 {
            proof {
                assert(groups.deep_view()[1] == groups@[1]@);
            }
            match parse_u64(groups[1].as_str()) {
                Some(v) => v,
                None => {
                    return None;
                },
            }
        } else {
            0
        };
        let patch = if groups.len() >= 3 {
            proof {
                assert(groups.deep_view()[2] == groups@[2]@);
            }
            match parse_u64(groups[2].as_str()) {
                Some(v) => v,
                None => {
                    return None;
                },
            }
        } else {
            0
        };
        Some(VersionNumber { major, minor, patch })
    }

    pub fn is_newer_than(&self, other: &VersionNumber) -> (r: bool)
        ensures
            r == self.spec_newer_than(other),
    {
        self.major > other.major || (self.major == other.major && (self.minor > other.minor || (
        self.minor == other.minor && self.patch > other.patch)))
    }

    pub fn is_same_or_newer_than(&self, other: &VersionNumber) -> (r: bool)
        ensures
            r == (self.spec_newer_than(other) || *self == *other),
    {
        let newer = self.is_newer_than(other);
        newer || (self.major == other.major && self.minor == other.minor && self.patch
            == other.patch)
    }
}

} // verus!
