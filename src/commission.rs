//! Commission arithmetic: exact integer shares of an amount.
use vstd::arithmetic::div_mod::lemma_fundamental_div_mod;
use vstd::arithmetic::div_mod::lemma_fundamental_div_mod_converse_div;
use vstd::prelude::*;

verus! {

/// The largest denominator a commission rate may use; it keeps every
/// intermediate product of the share computation inside `u128`.
pub const MAX_DENOMINATOR: u128 = 0xffff_ffff_ffff_ffff;

/// `amount * rate / denominator`, truncated toward zero, over the integers.
pub open spec fn share_of(amount: u128, rate: u128, denominator: u128) -> int {
    (amount as int * rate as int) / denominator as int
}

/// A rate `rate / denominator` that takes no more than the whole amount and
/// whose denominator fits the share computation.
pub open spec fn valid_rate(rate: u128, denominator: u128) -> bool {
    &&& 0 < denominator <= MAX_DENOMINATOR
    &&& rate <= denominator
}

proof fn lemma_share_decomposed(amount: int, rate: int, d: int)
    requires
        0 < d,
        0 <= amount,
        0 <= rate,
    ensures
        (amount * rate) / d == (amount / d) * rate + ((amount % d) * rate) / d,
{
    let q = amount / d;
    let r = amount % d;
    let t = r * rate;
    lemma_fundamental_div_mod(amount, d);
    lemma_fundamental_div_mod(t, d);
    assert(0 <= t % d < d) by {
        vstd::arithmetic::div_mod::lemma_mod_bound(t, d);
    }
    assert(amount * rate == (q * rate + t / d) * d + t % d) by (nonlinear_arith)
        requires
            amount == d * q + r,
            t == r * rate,
            t == d * (t / d) + t % d,
    ;
    lemma_fundamental_div_mod_converse_div(amount * rate, d, q * rate + t / d, t % d);
}

/// The share that `rate / denominator` takes of `amount`, computed without
/// an intermediate product that could leave `u128`.
pub fn share(amount: u128, rate: u128, denominator: u128) -> (r: u128)
    requires
        valid_rate(rate, denominator),
    ensures
        r == share_of(amount, rate, denominator),
        r <= amount,
{
    let q: u128 = amount / denominator;
    let m: u128 = amount % denominator;
    proof {
        lemma_fundamental_div_mod(amount as int, denominator as int);
        assert(q * rate <= denominator * q) by (nonlinear_arith)
            requires
                rate <= denominator,
                0 <= q,
        ;
        assert(m * rate < 0x1_0000_0000_0000_0000_0000_0000_0000_0000) by (nonlinear_arith)
            requires
                m < denominator,
                rate <= denominator,
                denominator <= MAX_DENOMINATOR,
        ;
        lemma_share_decomposed(amount as int, rate as int, denominator as int);
        assert((m as int * rate as int) / (denominator as int) <= m as int) by (nonlinear_arith)
            requires
                rate <= denominator,
                0 < denominator,
        ;
    }
    let whole: u128 = q * rate;
    let part: u128 = (m * rate) / denominator;
    whole + part
}

proof fn lemma_shares_fit(amount: int, first: int, second: int, d: int)
    requires
        0 < d,
        0 <= amount,
        0 <= first,
        0 <= second,
        first + second <= d,
    ensures
        (amount * first) / d + (amount * second) / d <= amount,
        0 <= (amount * first) / d,
        0 <= (amount * second) / d,
{
    let x = amount * first;
    let y = amount * second;
    assert(0 <= x && 0 <= y) by (nonlinear_arith)
        requires
            0 <= amount,
            0 <= first,
            0 <= second,
            x == amount * first,
            y == amount * second,
    ;
    lemma_fundamental_div_mod(x, d);
    lemma_fundamental_div_mod(y, d);
    vstd::arithmetic::div_mod::lemma_mod_bound(x, d);
    vstd::arithmetic::div_mod::lemma_mod_bound(y, d);
    vstd::arithmetic::div_mod::lemma_div_pos_is_pos(x, d);
    vstd::arithmetic::div_mod::lemma_div_pos_is_pos(y, d);
    let p = x / d;
    let q = y / d;
    assert(p + q <= amount) by (nonlinear_arith)
        requires
            0 < d,
            0 <= amount,
            x == d * p + x % d,
            y == d * q + y % d,
            0 <= x % d,
            0 <= y % d,
            x == amount * first,
            y == amount * second,
            first + second <= d,
    ;
}

/// Who receives commission on a settled trade, and at which rates: each of
/// the two recipients takes `rate / denominator` of the amount.
#[derive(Clone, Debug)]
pub struct CommissionPolicy {
    pub first_recipient: String,
    pub first_rate: u128,
    pub second_recipient: String,
    pub second_rate: u128,
    pub denominator: u128,
}

/// The mathematical form of a [`CommissionPolicy`].
pub struct PolicyView {
    pub first_recipient: Seq<char>,
    pub first_rate: u128,
    pub second_recipient: Seq<char>,
    pub second_rate: u128,
    pub denominator: u128,
}

impl PolicyView {
    /// The two rates together take at most the whole amount.
    pub open spec fn wf(self) -> bool {
        &&& 0 < self.denominator <= MAX_DENOMINATOR
        &&& self.first_rate + self.second_rate <= self.denominator
    }

    /// The share of the first recipient.
    pub open spec fn first_share(self, amount: u128) -> int {
        share_of(amount, self.first_rate, self.denominator)
    }

    /// The share of the second recipient.
    pub open spec fn second_share(self, amount: u128) -> int {
        share_of(amount, self.second_rate, self.denominator)
    }

    /// What is left of the amount once both shares are taken.
    pub open spec fn remainder(self, amount: u128) -> int {
        amount - self.first_share(amount) - self.second_share(amount)
    }
}

/// The two shares of a well-formed policy are non-negative and together
/// take no more than the amount, so the remainder is never negative.
pub proof fn lemma_split_fits(p: PolicyView, amount: u128)
    requires
        p.wf(),
    ensures
        0 <= p.first_share(amount),
        0 <= p.second_share(amount),
        0 <= p.remainder(amount) <= amount,
        p.first_share(amount) + p.second_share(amount) + p.remainder(amount) == amount,
{
    lemma_shares_fit(amount as int, p.first_rate as int, p.second_rate as int, p.denominator as int);
}

impl View for CommissionPolicy {
    type V = PolicyView;

    open spec fn view(&self) -> PolicyView {
        PolicyView {
            first_recipient: self.first_recipient@,
            first_rate: self.first_rate,
            second_recipient: self.second_recipient@,
            second_rate: self.second_rate,
            denominator: self.denominator,
        }
    }
}

impl CommissionPolicy {
    /// A policy with the given recipients and rates, or `None` where the
    /// rates are not well formed.
    pub fn new(
        first_recipient: String,
        first_rate: u128,
        second_recipient: String,
        second_rate: u128,
        denominator: u128,
    ) -> (r: Option<CommissionPolicy>)
        ensures
            r is Some <==> (0 < denominator <= MAX_DENOMINATOR && first_rate + second_rate
                <= denominator),
            r matches Some(p) ==> p@ == (PolicyView {
                first_recipient: first_recipient@,
                first_rate,
                second_recipient: second_recipient@,
                second_rate,
                denominator,
            }),
    {
        if denominator == 0 || denominator > MAX_DENOMINATOR || first_rate > denominator
            || second_rate > denominator - first_rate {
            None
        } else {
            Some(CommissionPolicy {
                first_recipient,
                first_rate,
                second_recipient,
                second_rate,
                denominator,
            })
        }
    }

    /// Splits `amount` into the two commission shares and the remainder;
    /// each share is truncated toward zero on its own.
    pub fn split(&self, amount: u128) -> (r: (u128, u128, u128))
        requires
            self@.wf(),
        ensures
            r.0 == self@.first_share(amount),
            r.1 == self@.second_share(amount),
            r.2 == self@.remainder(amount),
            r.0 + r.1 + r.2 == amount,
    {
        let first: u128 = share(amount, self.first_rate, self.denominator);
        let second: u128 = share(amount, self.second_rate, self.denominator);
        proof {
            lemma_shares_fit(
                amount as int,
                self.first_rate as int,
                self.second_rate as int,
                self.denominator as int,
            );
        }
        (first, second, amount - first - second)
    }
}

} // verus!
