//! The commission engine: a price divided three ways, in basis points.
//!
//! Each share is `price * pct / 10000`, rounded down on its own. The shares
//! of a split whose percentages add up to 10000 never exceed the price, and
//! fall short of it by less than three units: that remainder is handed to
//! nobody.

use vstd::prelude::*;
use vstd::arithmetic::div_mod::lemma_hoist_over_denominator;
use crate::num::{limit, U256};

verus! {

/// One hundred percent, in basis points.
pub const BASIS_POINTS: u16 = 10000;

/// The share of `price` that `pct` basis points stand for, rounded down.
pub open spec fn share_of(price: nat, pct: nat) -> nat {
    price * pct / 10000
}

/// What the three shares of `price` add up to.
pub open spec fn distributed(price: nat, seller_pct: nat, organizer_pct: nat, platform_pct: nat) -> nat {
    share_of(price, seller_pct) + share_of(price, organizer_pct) + share_of(price, platform_pct)
}

/// Whether three percentages make up the whole.
pub open spec fn percentages_complete(seller_pct: nat, organizer_pct: nat, platform_pct: nat) -> bool {
    seller_pct + organizer_pct + platform_pct == 10000
}

/// The three shares of a sale.
#[derive(Clone, Copy, Debug, PartialEq, Eq, Structural)]
pub struct Shares {
    pub seller: U256,
    pub organizer: U256,
    pub platform: U256,
}

impl Shares {
    /// Whether these are the shares of `price` under the three percentages.
    pub open spec fn is_split_of(
        &self,
        price: nat,
        seller_pct: nat,
        organizer_pct: nat,
        platform_pct: nat,
    ) -> bool {
        &&& self.seller@ == share_of(price, seller_pct)
        &&& self.organizer@ == share_of(price, organizer_pct)
        &&& self.platform@ == share_of(price, platform_pct)
    }

    /// The sum of the three shares.
    pub open spec fn total(&self) -> nat {
        self.seller@ + self.organizer@ + self.platform@
    }
}

/// A share can be computed from quotient and remainder of the price by 10000,
/// without forming the product of price and percentage.
pub proof fn lemma_share_by_parts(price: nat, pct: nat)
    ensures
        share_of(price, pct) == (price / 10000) * pct + ((price % 10000) * pct) / 10000,
{
    let q = price / 10000;
    let r = price % 10000;
    assert(price * pct == r * pct + (q * pct) * 10000) by (nonlinear_arith)
        requires
            price == q * 10000 + r,
    ;
    lemma_hoist_over_denominator((r * pct) as int, (q * pct) as int, 10000);
}

/// Where the percentages add up to 10000, the shares add up to at most the
/// price, and to more than the price less three.
pub proof fn lemma_shares_within_price(
    price: nat,
    seller_pct: nat,
    organizer_pct: nat,
    platform_pct: nat,
)
    requires
        percentages_complete(seller_pct, organizer_pct, platform_pct),
    ensures
        distributed(price, seller_pct, organizer_pct, platform_pct) <= price,
        price - distributed(price, seller_pct, organizer_pct, platform_pct) <= 2,
{
    let a = price * seller_pct;
    let b = price * organizer_pct;
    let c = price * platform_pct;
    assert(a + b + c == price * 10000) by (nonlinear_arith)
        requires
            a == price * seller_pct,
            b == price * organizer_pct,
            c == price * platform_pct,
            seller_pct + organizer_pct + platform_pct == 10000,
    ;
    assert(a == 10000 * (a / 10000) + a % 10000);
    assert(b == 10000 * (b / 10000) + b % 10000);
    assert(c == 10000 * (c / 10000) + c % 10000);
}

/// A share never exceeds the price while the percentage is at most 10000.
pub proof fn lemma_share_at_most_price(price: nat, pct: nat)
    requires
        pct <= 10000,
    ensures
        share_of(price, pct) <= price,
{
    let a = price * pct;
    assert(a <= price * 10000) by (nonlinear_arith)
        requires
            a == price * pct,
            pct <= 10000,
    ;
    assert(a == 10000 * (a / 10000) + a % 10000);
}

/// The share of `price` that `pct` basis points stand for, rounded down;
/// `None` where it does not fit in 256 bits.
pub fn share(price: &U256, pct: u16) -> (r: Option<U256>)
    ensures
        share_of(price@, pct as nat) < limit() ==> r.is_some() && r.unwrap()@ == share_of(
            price@,
            pct as nat,
        ),
        share_of(price@, pct as nat) >= limit() ==> r.is_none(),
{
    let whole = U256::from_u64(10000);
    let factor = U256::from_u64(pct as u64);
    let (quotient, rest) = price.div_mod(&whole);
    let rest_small = rest.to_u64();
    let rest_value: u64 = rest_small.unwrap();
    assert(rest_value * (pct as u64) <= 10000 * 65535) by (nonlinear_arith)
        requires
            rest_value < 10000,
            pct <= 65535,
    ;
    let tail: u64 = rest_value * (pct as u64) / 10000;
    proof {
        lemma_share_by_parts(price@, pct as nat);
    }
    match quotient.checked_mul(&factor) {
        None => None,
        Some(head) => head.checked_add(&U256::from_u64(tail)),
    }
}

/// The three shares of `price`, or `None` where they would add up to more
/// than the price.
pub fn split(price: &U256, seller_pct: u16, organizer_pct: u16, platform_pct: u16) -> (r: Option<
    Shares,
>)
    ensures
        distributed(price@, seller_pct as nat, organizer_pct as nat, platform_pct as nat)
            <= price@ ==> r.is_some() && r.unwrap().is_split_of(
            price@,
            seller_pct as nat,
            organizer_pct as nat,
            platform_pct as nat,
        ),
        distributed(price@, seller_pct as nat, organizer_pct as nat, platform_pct as nat)
            > price@ ==> r.is_none(),
{
    proof {
        crate::num::lemma_below_limit(*price);
    }
    let seller = match share(price, seller_pct) {
        Some(s) => s,
        None => {
            return None;
        },
    };
    let organizer = match share(price, organizer_pct) {
        Some(s) => s,
        None => {
            return None;
        },
    };
    let platform = match share(price, platform_pct) {
        Some(s) => s,
        None => {
            return None;
        },
    };
    let first_two = match seller.checked_add(&organizer) {
        Some(s) => s,
        None => {
            return None;
        },
    };
    let total = match first_two.checked_add(&platform) {
        Some(s) => s,
        None => {
            return None;
        },
    };
    if total.gt(price) {
        None
    } else {
        let shares = Shares { seller, organizer, platform };
        proof {
            lemma_split_unique(
                shares,
                price@,
                seller_pct as nat,
                organizer_pct as nat,
                platform_pct as nat,
            );
        }
        Some(shares)
    }
}

/// The split of a price is determined by the price and the percentages.
pub proof fn lemma_split_unique(
    shares: Shares,
    price: nat,
    seller_pct: nat,
    organizer_pct: nat,
    platform_pct: nat,
)
    requires
        shares.is_split_of(price, seller_pct, organizer_pct, platform_pct),
    ensures
        forall|other: Shares|
            other.is_split_of(price, seller_pct, organizer_pct, platform_pct) ==> other == shares,
        shares.total() == distributed(price, seller_pct, organizer_pct, platform_pct),
{
    assert forall|other: Shares|
        other.is_split_of(price, seller_pct, organizer_pct, platform_pct) implies other
        == shares by {
        crate::num::lemma_value_injective(other.seller, shares.seller);
        crate::num::lemma_value_injective(other.organizer, shares.organizer);
        crate::num::lemma_value_injective(other.platform, shares.platform);
    }
}

/// A split whose percentages add up to 10000 always exists: its shares add
/// up to at most the price, and less than three units are left over.
pub proof fn lemma_complete_split(
    shares: Shares,
    price: U256,
    seller_pct: u16,
    organizer_pct: u16,
    platform_pct: u16,
)
    requires
        percentages_complete(seller_pct as nat, organizer_pct as nat, platform_pct as nat),
        shares.is_split_of(price@, seller_pct as nat, organizer_pct as nat, platform_pct as nat),
    ensures
        shares.total() <= price@,
        price@ - shares.total() <= 2,
{
    lemma_shares_within_price(price@, seller_pct as nat, organizer_pct as nat, platform_pct as nat);
}

} // verus!
