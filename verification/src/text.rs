//! Rendering amounts, assets and decimals as the strings the event record
//! carries. Every formatter is verified against a character-level
//! specification.
use crate::asset::{Asset, AssetInfo};
use crate::decimal::{pow10_u128, Decimal, DECIMAL_FRACTIONAL};
use vstd::prelude::*;

verus! {

/// The character of one decimal digit.
pub open spec fn dec_digit(d: int) -> char {
    if d == 0 {
        '0'
    } else if d == 1 {
        '1'
    } else if d == 2 {
        '2'
    } else if d == 3 {
        '3'
    } else if d == 4 {
        '4'
    } else if d == 5 {
        '5'
    } else if d == 6 {
        '6'
    } else if d == 7 {
        '7'
    } else if d == 8 {
        '8'
    } else {
        '9'
    }
}

/// The decimal representation of `n`, without leading zeros (a single zero
/// for zero).
pub open spec fn dec_str(n: nat) -> Seq<char>
    decreases n,
{
    if n < 10 {
        seq![dec_digit(n as int)]
    } else {
        dec_str(n / 10) + seq![dec_digit((n % 10) as int)]
    }
}

/// Appends the character of the digit `d` to `s`.
fn push_digit(s: &mut String, d: u128)
    requires
        d < 10,
    ensures
        final(s)@ == old(s)@ + seq![dec_digit(d as int)],
{
    if d == 0 {
        proof {
            reveal_strlit("0");
        }
        s.append("0");
    } else if d == 1 {
        proof {
            reveal_strlit("1");
        }
        s.append("1");
    } else if d == 2 {
        proof {
            reveal_strlit("2");
        }
        s.append("2");
    } else if d == 3 {
        proof {
            reveal_strlit("3");
        }
        s.append("3");
    } else if d == 4 {
        proof {
            reveal_strlit("4");
        }
        s.append("4");
    } else if d == 5 {
        proof {
            reveal_strlit("5");
        }
        s.append("5");
    } else if d == 6 {
        proof {
            reveal_strlit("6");
        }
        s.append("6");
    } else if d == 7 {
        proof {
            reveal_strlit("7");
        }
        s.append("7");
    } else if d == 8 {
        proof {
            reveal_strlit("8");
        }
        s.append("8");
    } else {
        proof {
            reveal_strlit("9");
        }
        s.append("9");
    }
    proof {
        assert(final(s)@ =~= old(s)@ + seq![dec_digit(d as int)]);
    }
}

/// Appends the decimal representation of `n` to `s`.
fn append_u128(s: &mut String, n: u128)
    ensures
        final(s)@ == old(s)@ + dec_str(n as nat),
    decreases n,
{
    if n < 10 {
        push_digit(s, n);
    } else {
        append_u128(s, n / 10);
        push_digit(s, n % 10);
        proof {
            assert(final(s)@ =~= old(s)@ + dec_str(n as nat));
        }
    }
}

/// The decimal representation of `n`.
pub fn format_u128(n: u128) -> (s: String)
    ensures
        s@ == dec_str(n as nat),
{
    let mut s = String::new();
    append_u128(&mut s, n);
    proof {
        assert(s@ =~= dec_str(n as nat));
    }
    s
}

/// The decimal representation of `n`.
pub fn format_u64(n: u64) -> (s: String)
    ensures
        s@ == dec_str(n as nat),
{
    format_u128(n as u128)
}

/// The identifier of an asset identity: the denomination or the issuing
/// contract's address.
pub open spec fn info_text(info: AssetInfo) -> Seq<char> {
    match info {
        AssetInfo::NativeToken { denom } => denom@,
        AssetInfo::Token { contract_addr } => contract_addr@,
    }
}

/// An asset as the event record shows it: the amount followed by the
/// identity's identifier.
pub open spec fn asset_text(a: Asset) -> Seq<char> {
    dec_str(a.amount as nat) + info_text(a.info)
}

impl AssetInfo {
    /// The identity's identifier as a string.
    pub fn to_text(&self) -> (s: String)
        ensures
            s@ == info_text(*self),
    {
        match self {
            AssetInfo::NativeToken { denom } => denom.clone(),
            AssetInfo::Token { contract_addr } => contract_addr.clone(),
        }
    }
}

impl Asset {
    /// The asset as a string: the amount followed by the identity.
    pub fn to_text(&self) -> (s: String)
        ensures
            s@ == asset_text(*self),
    {
        let mut s = format_u128(self.amount);
        let id = match &self.info {
            AssetInfo::NativeToken { denom } => denom.clone(),
            AssetInfo::Token { contract_addr } => contract_addr.clone(),
        };
        s.append(id.as_str());
        s
    }
}

/// The digits of `f` zero-padded on the left to `k` places.
pub open spec fn padded_digits(f: nat, k: nat) -> Seq<char>
    decreases k,
{
    if k == 0 {
        Seq::empty()
    } else {
        padded_digits(f / 10, (k - 1) as nat) + seq![dec_digit((f % 10) as int)]
    }
}

/// The digits of `f` zero-padded on the left to `k` places, with trailing
/// zeros removed.
pub open spec fn trimmed_digits(f: nat, k: nat) -> Seq<char>
    decreases k,
{
    if k == 0 {
        Seq::empty()
    } else if f % 10 == 0 {
        trimmed_digits(f / 10, (k - 1) as nat)
    } else {
        padded_digits(f, k)
    }
}

/// A decimal as the ledger renders it: the whole part, and when the
/// fractional part is not zero, a dot and the fractional digits with trailing
/// zeros removed.
pub open spec fn decimal_text(d: Decimal) -> Seq<char> {
    let whole = d.atomics as nat / (DECIMAL_FRACTIONAL as nat);
    let frac = d.atomics as nat % (DECIMAL_FRACTIONAL as nat);
    if frac == 0 {
        dec_str(whole)
    } else {
        dec_str(whole) + seq!['.'] + trimmed_digits(frac, 18)
    }
}

/// Appends the digits of `f` zero-padded on the left to `k` places.
fn append_padded(s: &mut String, f: u128, k: u32)
    ensures
        final(s)@ == old(s)@ + padded_digits(f as nat, k as nat),
    decreases k,
{
    if k == 0 {
        proof {
            assert(final(s)@ =~= old(s)@ + padded_digits(f as nat, 0));
        }
    } else {
        append_padded(s, f / 10, k - 1);
        push_digit(s, f % 10);
        proof {
            assert(final(s)@ =~= old(s)@ + padded_digits(f as nat, k as nat));
        }
    }
}

impl Decimal {
    /// The decimal as a string.
    pub fn to_text(&self) -> (s: String)
        ensures
            s@ == decimal_text(*self),
    {
        let whole = self.atomics / DECIMAL_FRACTIONAL;
        let frac = self.atomics % DECIMAL_FRACTIONAL;
        let mut s = format_u128(whole);
        if frac != 0 {
            proof {
                reveal_strlit(".");
            }
            s.append(".");
            let mut f = frac;
            let mut k: u32 = 18;
            proof {
                reveal_with_fuel(pow10_u128, 19);
                assert(pow10_u128(18) == DECIMAL_FRACTIONAL as nat);
            }
            while f % 10 == 0
                invariant
                    f != 0,
                    1 <= k <= 18,
                    (f as nat) < pow10_u128(k as nat),
                    trimmed_digits(frac as nat, 18) == trimmed_digits(f as nat, k as nat),
                decreases k,
            {
                proof {
                    assert(f >= 10);
                    assert((f as nat) / 10 < pow10_u128((k - 1) as nat)) by {
                        assert(pow10_u128(k as nat) == 10 * pow10_u128((k - 1) as nat));
                    };
                    assert(k - 1 >= 1) by {
                        if k == 1 {
                            reveal_with_fuel(pow10_u128, 2);
                        }
                    };
                }
                f = f / 10;
                k = k - 1;
            }
            append_padded(&mut s, f, k);
            proof {
                assert(s@ =~= dec_str(whole as nat) + seq!['.'] + trimmed_digits(frac as nat, 18));
            }
        }
        s
    }
}

} // verus!
