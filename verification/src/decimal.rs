//! A fixed-point decimal with 18 fractional digits, the ledger's spread-limit
//! scale. The order book only stores and forwards these values, so the type
//! carries its atomics as a plain integer. A decimal can be parsed from its
//! string form, verified down to the byte.
use crate::error::StdError;
use crate::search::{find_first, lemma_find_first_is_none, lemma_find_first_is_some};
use vstd::prelude::*;
use vstd::string::StringSliceAdditionalSpecFns;

verus! {

/// The number of atomics in one whole unit: 10^18.
pub const DECIMAL_FRACTIONAL: u128 = 1_000_000_000_000_000_000;

/// A decimal value `atomics / 10^18`.
#[derive(Clone, Copy, Debug, PartialEq, Eq, Structural)]
pub struct Decimal {
    pub atomics: u128,
}

impl Decimal {
    /// The value `atomics / 10^18`.
    pub fn new(atomics: u128) -> (r: Self)
        ensures
            r.atomics == atomics,
    {
        Decimal { atomics }
    }

    /// The value `p / 100`.
    pub fn percent(p: u64) -> (r: Self)
        ensures
            r.atomics == p * (DECIMAL_FRACTIONAL / 100),
    {
        Decimal { atomics: (p as u128) * (DECIMAL_FRACTIONAL / 100) }
    }

    /// Zero.
    pub fn zero() -> (r: Self)
        ensures
            r.atomics == 0,
    {
        Decimal { atomics: 0 }
    }
}

/// An ASCII decimal digit.
pub open spec fn is_digit(b: u8) -> bool {
    48 <= b <= 57
}

/// Every byte is a decimal digit.
pub open spec fn all_digits(s: Seq<u8>) -> bool {
    forall|i: int| 0 <= i < s.len() ==> is_digit(#[trigger] s[i])
}

/// The number the digit bytes spell out.
pub open spec fn digits_val(s: Seq<u8>) -> nat
    decreases s.len(),
{
    if s.len() == 0 {
        0
    } else {
        digits_val(s.drop_last()) * 10 + (s.last() - 48) as nat
    }
}

/// A longer digit string never spells a smaller number.
pub proof fn lemma_digits_val_prefix(s: Seq<u8>, j: int)
    requires
        0 <= j <= s.len(),
    ensures
        digits_val(s.take(j)) <= digits_val(s),
    decreases s.len(),
{
    if j < s.len() {
        assert(s.take(j) =~= s.drop_last().take(j));
        lemma_digits_val_prefix(s.drop_last(), j);
    } else {
        assert(s.take(j) =~= s);
    }
}

/// 10 raised to `k`, for scaling fractional digits.
pub open spec fn pow10_u128(k: nat) -> nat
    decreases k,
{
    if k == 0 {
        1
    } else {
        10 * pow10_u128((k - 1) as nat)
    }
}

/// What parsing a decimal string yields: the digits before an optional dot
/// are the whole part, the at most 18 digits after it the fractional part,
/// and the value is their combination in atomics — or the first malformed
/// part's error, or a range error when the value does not fit.
pub open spec fn parse_decimal_spec(s: Seq<u8>) -> Result<Decimal, StdError> {
    let split = find_first(s, |b: u8| b == 46u8);
    let whole = match split {
        None => s,
        Some(i) => s.take(i),
    };
    if !(whole.len() > 0 && all_digits(whole) && digits_val(whole) <= u128::MAX) {
        Err(StdError::DecimalParseWhole)
    } else {
        match split {
            None => if digits_val(whole) * (DECIMAL_FRACTIONAL as nat) > u128::MAX {
                Err(StdError::DecimalRangeExceeded)
            } else {
                Ok(Decimal { atomics: (digits_val(whole) * (DECIMAL_FRACTIONAL as nat)) as u128 })
            },
            Some(i) => {
                let frac = s.skip(i + 1);
                if !(frac.len() > 0 && all_digits(frac) && frac.len() <= 18) {
                    Err(StdError::DecimalParseFractional)
                } else {
                    let atomics = digits_val(whole) * (DECIMAL_FRACTIONAL as nat) + digits_val(frac)
                        * pow10_u128((18 - frac.len()) as nat);
                    if atomics > u128::MAX {
                        Err(StdError::DecimalRangeExceeded)
                    } else {
                        Ok(Decimal { atomics: atomics as u128 })
                    }
                }
            },
        }
    }
}

/// Reads the number the digit bytes of `s[from..to]` spell out, or `None`
/// when the range is empty, holds a non-digit, or spells a number over
/// `u128::MAX`.
#[verifier::loop_isolation(false)]
fn read_digits(s: &[u8], from: usize, to: usize) -> (r: Option<u128>)
    requires
        from <= to <= s@.len(),
    ensures
        ({
            let part = s@.subrange(from as int, to as int);
            match r {
                Some(v) => part.len() > 0 && all_digits(part) && digits_val(part) == v,
                None => !(part.len() > 0 && all_digits(part) && digits_val(part) <= u128::MAX),
            }
        }),
{
    let ghost part = s@.subrange(from as int, to as int);
    if from == to {
        return None;
    }
    let mut acc: u128 = 0;
    let mut i: usize = from;
    while i < to
        invariant
            from <= i <= to,
            all_digits(part.take(i - from)),
            digits_val(part.take(i - from)) == acc,
        decreases to - i,
    {
        let b = s[i];
        if !(48 <= b && b <= 57) {
            proof {
                assert(part[i - from] == s@[i as int]);
                assert(!all_digits(part));
            }
            return None;
        }
        let d = b - 48;
        proof {
            assert(part.take(i - from + 1).drop_last() =~= part.take(i - from));
            assert(part.take(i - from + 1).last() == s@[i as int]);
        }
        let grown = match acc.checked_mul(10) {
            Some(g) => g.checked_add(d as u128),
            None => None,
        };
        acc = match grown {
            Some(acc2) => acc2,
            None => {
                proof {
                    lemma_digits_val_prefix(part, i - from + 1);
                }
                return None;
            },
        };
        i += 1;
    }
    proof {
        assert(part.take(to - from) =~= part);
    }
    Some(acc)
}

/// 10 raised to a sum is the product of the powers.
pub proof fn lemma_pow10_add(a: nat, b: nat)
    ensures
        pow10_u128(a) * pow10_u128(b) == pow10_u128(a + b),
    decreases a,
{
    if a == 0 {
        assert(pow10_u128(a) * pow10_u128(b) == pow10_u128(b)) by (nonlinear_arith)
            requires
                pow10_u128(a) == 1,
        ;
    } else {
        lemma_pow10_add((a - 1) as nat, b);
        assert(pow10_u128(a + b) == 10 * pow10_u128((a - 1) as nat + b));
        assert(pow10_u128(a) == 10 * pow10_u128((a - 1) as nat));
        assert(pow10_u128(a) * pow10_u128(b) == pow10_u128(a + b)) by (nonlinear_arith)
            requires
                pow10_u128(a + b) == 10 * pow10_u128((a - 1) as nat + b),
                pow10_u128(a) == 10 * pow10_u128((a - 1) as nat),
                pow10_u128((a - 1) as nat) * pow10_u128(b) == pow10_u128((a - 1) as nat + b),
        ;
    }
}

/// Powers of 10 never shrink.
pub proof fn lemma_pow10_mono(a: nat, b: nat)
    requires
        a <= b,
    ensures
        pow10_u128(a) <= pow10_u128(b),
    decreases b,
{
    if a < b {
        lemma_pow10_mono(a, (b - 1) as nat);
        assert(pow10_u128((b - 1) as nat) >= 1) by {
            lemma_pow10_pos((b - 1) as nat);
        }
    }
}

/// Powers of 10 are positive.
pub proof fn lemma_pow10_pos(a: nat)
    ensures
        pow10_u128(a) >= 1,
    decreases a,
{
    if a > 0 {
        lemma_pow10_pos((a - 1) as nat);
    }
}

/// A digit string of length `n` spells a number under 10^n.
pub proof fn lemma_digits_val_bound(s: Seq<u8>)
    requires
        all_digits(s),
    ensures
        digits_val(s) < pow10_u128(s.len()),
    decreases s.len(),
{
    if s.len() > 0 {
        assert(all_digits(s.drop_last())) by {
            assert(forall|i: int| 0 <= i < s.len() - 1 ==> s.drop_last()[i] == s[i]);
        }
        lemma_digits_val_bound(s.drop_last());
        assert(digits_val(s.drop_last()) * 10 + 9 < pow10_u128(s.len())) by (nonlinear_arith)
            requires
                digits_val(s.drop_last()) < pow10_u128((s.len() - 1) as nat),
                pow10_u128(s.len()) == 10 * pow10_u128((s.len() - 1) as nat),
        ;
        assert(is_digit(s.last()));
    }
}

/// 10 raised to `k`, computed.
#[verifier::loop_isolation(false)]
fn pow10_exec(k: usize) -> (r: u128)
    requires
        k <= 18,
    ensures
        r == pow10_u128(k as nat),
{
    proof {
        reveal_with_fuel(pow10_u128, 19);
    }
    let mut scale: u128 = 1;
    let mut j: usize = 0;
    while j < k
        invariant
            j <= k,
            scale == pow10_u128(j as nat),
        decreases k - j,
    {
        proof {
            lemma_pow10_mono(j as nat + 1, 18);
        }
        scale = scale * 10;
        j += 1;
    }
    scale
}

/// Parses a decimal from its string form: a whole part, optionally followed
/// by a dot and up to 18 fractional digits.
#[verifier::loop_isolation(false)]
#[verifier::rlimit(100)]
pub fn parse_decimal(s: &str) -> (r: Result<Decimal, StdError>)
    ensures
        r == parse_decimal_spec(s.spec_bytes()),
{
    let b = s.as_bytes();
    let n = b.len();

    // find the dot, if any
    let ghost pdot = |x: u8| x == 46u8;
    let mut dot: Option<usize> = None;
    let mut i: usize = 0;
    while i < n && dot.is_none()
        invariant
            i <= n,
            n == b@.len(),
            match dot {
                Some(d) => d < n && find_first(b@, pdot) == Some(d as int),
                None => forall|j: int| 0 <= j < i ==> !pdot(#[trigger] b@[j]),
            },
        decreases (if dot is None { 1int } else { 0int }), n - i,
    {
        if b[i] == 46 {
            proof {
                assert(pdot(b@[i as int]));
                lemma_find_first_is_some(b@, pdot, i as int);
            }
            dot = Some(i);
        } else {
            proof {
                assert(!pdot(b@[i as int]));
            }
            i += 1;
        }
    }
    proof {
        if dot is None {
            lemma_find_first_is_none(b@, pdot);
        }
    }

    let whole_end = match dot {
        Some(d) => d,
        None => n,
    };
    proof {
        assert(b@.subrange(0, whole_end as int) =~= match find_first(b@, pdot) {
            None => b@,
            Some(d) => b@.take(d),
        });
    }
    let whole_val = match read_digits(b, 0, whole_end) {
        Some(v) => v,
        None => {
            return Err(StdError::DecimalParseWhole);
        },
    };

    match dot {
        None => match whole_val.checked_mul(DECIMAL_FRACTIONAL) {
            Some(atomics) => Ok(Decimal { atomics }),
            None => Err(StdError::DecimalRangeExceeded),
        },
        Some(d) => {
            let ghost frac = b@.skip(d as int + 1);
            proof {
                assert(frac =~= b@.subrange(d as int + 1, n as int));
            }
            let frac_len = n - d - 1;
            if frac_len == 0 || frac_len > 18 {
                return Err(StdError::DecimalParseFractional);
            }
            let frac_val = match read_digits(b, d + 1, n) {
                Some(v) => v,
                None => {
                    proof {
                        if all_digits(frac) {
                            lemma_digits_val_bound(frac);
                            lemma_pow10_mono(frac.len() as nat, 18);
                            reveal_with_fuel(pow10_u128, 19);
                        }
                    }
                    return Err(StdError::DecimalParseFractional);
                },
            };
            let scale = pow10_exec(18 - frac_len);
            proof {
                reveal_with_fuel(pow10_u128, 19);
                lemma_digits_val_bound(frac);
                lemma_pow10_add(frac.len() as nat, (18 - frac.len()) as nat);
                assert(digits_val(frac) * pow10_u128((18 - frac.len()) as nat) < pow10_u128(
                    frac.len() as nat,
                ) * pow10_u128((18 - frac.len()) as nat)) by (nonlinear_arith)
                    requires
                        digits_val(frac) < pow10_u128(frac.len() as nat),
                        pow10_u128((18 - frac.len()) as nat) >= 1,
                {
                }
                lemma_pow10_pos((18 - frac.len()) as nat);
            }
            let scaled = frac_val * scale;
            match whole_val.checked_mul(DECIMAL_FRACTIONAL) {
                None => Err(StdError::DecimalRangeExceeded),
                Some(base) => match base.checked_add(scaled) {
                    Some(atomics) => Ok(Decimal { atomics }),
                    None => Err(StdError::DecimalRangeExceeded),
                },
            }
        },
    }
}

} // verus!
