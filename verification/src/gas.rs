//! The per-chain decision of whether a wallet holding stablecoins needs native
//! gas before it can be swept, and how much to send it.
use vstd::prelude::*;
use crate::wei::{Wei, wei_modulus};

verus! {

/// Which stablecoin balance a token's balance is kept as: the token named
/// `USDC`, or any other token, which counts as USDT.
#[derive(Clone, Copy, Debug, PartialEq, Eq, Structural)]
pub enum TokenSlot {
    Usdc,
    Usdt,
}

/// The slot of the token called `name`: `Usdc` for exactly `USDC`, `Usdt`
/// for every other name.
pub fn token_slot(name: &str) -> (r: TokenSlot)
    ensures
        (r == TokenSlot::Usdc) <==> (name@ == "USDC"@),
{
    let name_owned = name.to_owned();
    let usdc = "USDC".to_owned();
    if name_owned == usdc {
        TokenSlot::Usdc
    } else {
        TokenSlot::Usdt
    }
}

/// Gas needed to move a wallet's tokens out, with a safety factor of two: the
/// gas units of the transfers times the gas price, doubled.
pub open spec fn minimum_gas(gas_units: nat, gas_price: nat) -> nat {
    gas_units * gas_price * 2
}

/// What the wallet lacks of `minimum`, zero where its `balance` already covers it.
pub open spec fn gas_deficit(minimum: nat, balance: nat) -> nat {
    if minimum >= balance {
        (minimum - balance) as nat
    } else {
        0
    }
}

/// The decision for one chain, over plain amounts.
pub enum TopUp {
    /// Neither stablecoin balance is positive: nothing to sweep here.
    NoTokenBalance,
    /// The wallet holds more native gas than the minimum.
    AlreadyFunded,
    /// The wallet lacks less gas than the smallest top-up worth sending.
    BelowDust,
    /// Send this many wei of native gas to the wallet.
    Donate(nat),
}

impl TopUp {
    /// Whether the chain leaves the wallet ready to be swept (for a donation,
    /// once it has been sent).
    pub open spec fn marks_sweepable(self) -> bool {
        !(self is NoTokenBalance)
    }
}

/// The decision for a chain where the wallet holds `usdc` and `usdt`, its
/// token transfers need `gas_units` gas at `gas_price` wei each, it holds
/// `gas_balance` wei of native gas, and top-ups below `dust` wei are not sent.
pub open spec fn top_up(
    usdc: nat,
    usdt: nat,
    gas_units: nat,
    gas_price: nat,
    gas_balance: nat,
    dust: nat,
) -> TopUp {
    let minimum = minimum_gas(gas_units, gas_price);
    let deficit = gas_deficit(minimum, gas_balance);
    if usdc > 0 || usdt > 0 {
        if gas_balance <= minimum {
            if deficit >= dust {
                TopUp::Donate(deficit)
            } else {
                TopUp::BelowDust
            }
        } else {
            TopUp::AlreadyFunded
        }
    } else {
        TopUp::NoTokenBalance
    }
}

/// The decision for one chain.
#[derive(Clone, Copy, Debug)]
pub enum TopUpDecision {
    NoTokenBalance,
    AlreadyFunded,
    BelowDust,
    Donate(Wei),
}

impl View for TopUpDecision {
    type V = TopUp;

    open spec fn view(&self) -> TopUp {
        match self {
            TopUpDecision::NoTokenBalance => TopUp::NoTokenBalance,
            TopUpDecision::AlreadyFunded => TopUp::AlreadyFunded,
            TopUpDecision::BelowDust => TopUp::BelowDust,
            TopUpDecision::Donate(w) => TopUp::Donate(w@),
        }
    }
}

impl TopUpDecision {
    /// Whether the chain leaves the wallet ready to be swept (for a donation,
    /// once it has been sent).
    pub fn marks_sweepable(&self) -> (r: bool)
        ensures
            r == self@.marks_sweepable(),
            r == !(self is NoTokenBalance),
    {
        match self {
            TopUpDecision::NoTokenBalance => false,
            _ => true,
        }
    }
}

/// The figures and the decision for one chain.
#[derive(Clone, Copy, Debug)]
pub struct TopUpPlan {
    /// Gas the wallet should hold, in wei.
    pub minimum_gas: Wei,
    /// What the wallet lacks of it, in wei.
    pub deficit: Wei,
    pub decision: TopUpDecision,
}

/// What has been read of one wallet on one chain: the balance of each
/// stablecoin (the last token read of each kind wins) and the gas units that
/// moving the positive balances out needs.
#[derive(Clone, Copy, Debug)]
pub struct ChainTally {
    usdc_balance: Wei,
    usdt_balance: Wei,
    gas_units: u64,
}

impl ChainTally {
    pub closed spec fn spec_usdc(self) -> nat {
        self.usdc_balance@
    }

    pub closed spec fn spec_usdt(self) -> nat {
        self.usdt_balance@
    }

    pub closed spec fn spec_gas_units(self) -> nat {
        self.gas_units as nat
    }

    /// Nothing read yet: both balances and the gas units are zero.
    pub fn new() -> (r: ChainTally)
        ensures
            r.spec_usdc() == 0,
            r.spec_usdt() == 0,
            r.spec_gas_units() == 0,
    {
        ChainTally { usdc_balance: Wei::zero(), usdt_balance: Wei::zero(), gas_units: 0 }
    }

    /// The USDC balance read last.
    pub fn usdc_balance(&self) -> (r: Wei)
        ensures
            r@ == self.spec_usdc(),
    {
        self.usdc_balance
    }

    /// The USDT balance read last.
    pub fn usdt_balance(&self) -> (r: Wei)
        ensures
            r@ == self.spec_usdt(),
    {
        self.usdt_balance
    }

    /// The gas units summed so far.
    pub fn gas_units(&self) -> (r: u64)
        ensures
            r == self.spec_gas_units(),
    {
        self.gas_units
    }

    /// Records the balance read of a token of kind `slot`; answers whether the
    /// gas of transferring it out must be estimated (the balance is positive).
    pub fn record_balance(&mut self, slot: TokenSlot, balance: Wei) -> (needs_estimate: bool)
        ensures
            needs_estimate == (balance@ > 0),
            final(self).spec_gas_units() == old(self).spec_gas_units(),
            slot == TokenSlot::Usdc ==> final(self).spec_usdc() == balance@ && final(self).spec_usdt()
                == old(self).spec_usdt(),
            slot == TokenSlot::Usdt ==> final(self).spec_usdt() == balance@ && final(self).spec_usdc()
                == old(self).spec_usdc(),
    {
        match slot {
            TokenSlot::Usdc => {
                self.usdc_balance = balance;
            },
            TokenSlot::Usdt => {
                self.usdt_balance = balance;
            },
        }
        balance.is_positive()
    }

    /// Whether `units` more gas units still fit in the sum.
    pub fn can_add_gas_units(&self, units: u64) -> (r: bool)
        ensures
            r == (self.spec_gas_units() + units <= u64::MAX),
    {
        units <= u64::MAX - self.gas_units
    }

    /// Adds the gas units estimated for one transfer.
    pub fn add_gas_units(&mut self, units: u64)
        requires
            old(self).spec_gas_units() + units <= u64::MAX,
        ensures
            final(self).spec_gas_units() == old(self).spec_gas_units() + units,
            final(self).spec_usdc() == old(self).spec_usdc(),
            final(self).spec_usdt() == old(self).spec_usdt(),
    {
        self.gas_units = self.gas_units + units;
    }

    /// The plan for this chain, for a wallet holding `gas_balance` wei of
    /// native gas, at `gas_price` wei per gas unit, where top-ups below
    /// `dust` wei are not sent.
    pub fn plan(&self, gas_balance: &Wei, gas_price: u128, dust: &Wei) -> (r: TopUpPlan)
        ensures
            r.minimum_gas@ == minimum_gas(self.spec_gas_units(), gas_price as nat),
            r.deficit@ == gas_deficit(minimum_gas(self.spec_gas_units(), gas_price as nat), gas_balance@),
            r.decision@ == top_up(
                self.spec_usdc(),
                self.spec_usdt(),
                self.spec_gas_units(),
                gas_price as nat,
                gas_balance@,
                dust@,
            ),
            // The same, in plain arithmetic over the inputs.
            r.minimum_gas@ == self.spec_gas_units() * gas_price * 2,
            gas_balance@ <= self.spec_gas_units() * gas_price * 2 ==> r.deficit@
                == self.spec_gas_units() * gas_price * 2 - gas_balance@,
            gas_balance@ > self.spec_gas_units() * gas_price * 2 ==> r.deficit@ == 0,
            (r.decision is NoTokenBalance) <==> (self.spec_usdc() == 0 && self.spec_usdt() == 0),
            (r.decision is AlreadyFunded) <==> ((self.spec_usdc() > 0 || self.spec_usdt() > 0)
                && gas_balance@ > self.spec_gas_units() * gas_price * 2),
            (r.decision is BelowDust) <==> ((self.spec_usdc() > 0 || self.spec_usdt() > 0)
                && gas_balance@ <= self.spec_gas_units() * gas_price * 2
                && self.spec_gas_units() * gas_price * 2 - gas_balance@ < dust@),
            (r.decision is Donate) <==> ((self.spec_usdc() > 0 || self.spec_usdt() > 0)
                && gas_balance@ <= self.spec_gas_units() * gas_price * 2
                && self.spec_gas_units() * gas_price * 2 - gas_balance@ >= dust@),
            r.decision matches TopUpDecision::Donate(amount) ==> gas_balance@ + amount@
                == self.spec_gas_units() * gas_price * 2,
    {
        let units = Wei::from_u64(self.gas_units);
        let price = Wei::from_u128(gas_price);
        let two = Wei::from_u64(2);
        let cost = units.wrapping_mul(&price);
        proof {
            lemma_small_product(self.gas_units as nat, gas_price as nat);
        }
        let minimum = cost.wrapping_mul(&two);
        let deficit = minimum.saturating_sub(gas_balance);
        let has_tokens = self.usdc_balance.is_positive() || self.usdt_balance.is_positive();
        let decision = if has_tokens {
            if !minimum.lt(gas_balance) {
                if !deficit.lt(dust) {
                    TopUpDecision::Donate(deficit)
                } else {
                    TopUpDecision::BelowDust
                }
            } else {
                TopUpDecision::AlreadyFunded
            }
        } else {
            TopUpDecision::NoTokenBalance
        };
        TopUpPlan { minimum_gas: minimum, deficit, decision }
    }
}

/// A gas budget (units below 2^64 at a price below 2^128, doubled) never
/// wraps around 2^256.
proof fn lemma_small_product(units: nat, price: nat)
    requires
        units < 0x1_0000_0000_0000_0000nat,
        price < 0x1_0000_0000_0000_0000_0000_0000_0000_0000nat,
    ensures
        (units * price) % wei_modulus() == units * price,
        ((units * price) * 2) % wei_modulus() == units * price * 2,
{
    assert(units * price < 0x1_0000_0000_0000_0000_0000_0000_0000_0000_0000_0000_0000_0000nat)
        by (nonlinear_arith)
        requires
            units < 0x1_0000_0000_0000_0000nat,
            price < 0x1_0000_0000_0000_0000_0000_0000_0000_0000nat,
    ;
    assert(wei_modulus() == 0x1_0000_0000_0000_0000_0000_0000_0000_0000_0000_0000_0000_0000_0000_0000_0000_0000nat);
    vstd::arithmetic::div_mod::lemma_small_mod(units * price, wei_modulus());
    vstd::arithmetic::div_mod::lemma_small_mod(units * price * 2, wei_modulus());
}

/// A donation brings the wallet's native gas exactly up to the minimum, is at
/// least the dust threshold, and is only made for a wallet holding a
/// positive stablecoin balance.
pub proof fn lemma_donation_reaches_minimum(
    usdc: nat,
    usdt: nat,
    gas_units: nat,
    gas_price: nat,
    gas_balance: nat,
    dust: nat,
)
    ensures
        top_up(usdc, usdt, gas_units, gas_price, gas_balance, dust) matches TopUp::Donate(amount)
            ==> {
            &&& gas_balance + amount == minimum_gas(gas_units, gas_price)
            &&& amount >= dust
            &&& (usdc > 0 || usdt > 0)
        },
{
}

/// The decision for a chain, in plain arithmetic: nothing to do without a
/// positive stablecoin balance; otherwise the wallet counts as funded exactly
/// when its gas exceeds twice the transfers' cost (units times price), it is
/// sent exactly the shortfall to that amount when the shortfall reaches the
/// dust threshold, and it is left as it is when the shortfall is smaller.
pub proof fn lemma_top_up_cases(
    usdc: nat,
    usdt: nat,
    gas_units: nat,
    gas_price: nat,
    gas_balance: nat,
    dust: nat,
)
    ensures
        (top_up(usdc, usdt, gas_units, gas_price, gas_balance, dust) is NoTokenBalance) <==> (usdc
            == 0 && usdt == 0),
        (top_up(usdc, usdt, gas_units, gas_price, gas_balance, dust) is AlreadyFunded) <==> ((usdc
            > 0 || usdt > 0) && gas_balance > gas_units * gas_price * 2),
        (top_up(usdc, usdt, gas_units, gas_price, gas_balance, dust) is BelowDust) <==> ((usdc > 0
            || usdt > 0) && gas_balance <= gas_units * gas_price * 2 && gas_units * gas_price * 2
            - gas_balance < dust),
        (top_up(usdc, usdt, gas_units, gas_price, gas_balance, dust) is Donate) <==> ((usdc > 0
            || usdt > 0) && gas_balance <= gas_units * gas_price * 2 && gas_units * gas_price * 2
            - gas_balance >= dust),
        top_up(usdc, usdt, gas_units, gas_price, gas_balance, dust) matches TopUp::Donate(amount)
            ==> amount == gas_units * gas_price * 2 - gas_balance,
        minimum_gas(gas_units, gas_price) == gas_units * gas_price * 2,
{
}

/// A wallet holding more native gas than the minimum is never sent any.
pub proof fn lemma_no_donation_above_minimum(
    usdc: nat,
    usdt: nat,
    gas_units: nat,
    gas_price: nat,
    gas_balance: nat,
    dust: nat,
)
    requires
        gas_balance > minimum_gas(gas_units, gas_price),
    ensures
        !(top_up(usdc, usdt, gas_units, gas_price, gas_balance, dust) is Donate),
{
}

/// A chain leaves the wallet sweepable exactly when it holds a positive
/// balance of either stablecoin there, whatever its gas.
pub proof fn lemma_sweepable_iff_tokens(
    usdc: nat,
    usdt: nat,
    gas_units: nat,
    gas_price: nat,
    gas_balance: nat,
    dust: nat,
)
    ensures
        top_up(usdc, usdt, gas_units, gas_price, gas_balance, dust).marks_sweepable() <==> (usdc > 0
            || usdt > 0),
{
}

/// A wallet that lacks gas but less than the dust threshold is left as it is,
/// and a donation is made exactly when the shortfall reaches the threshold.
pub proof fn lemma_dust_threshold(
    usdc: nat,
    usdt: nat,
    gas_units: nat,
    gas_price: nat,
    gas_balance: nat,
    dust: nat,
)
    requires
        usdc > 0 || usdt > 0,
        gas_balance <= minimum_gas(gas_units, gas_price),
    ensures
        (top_up(usdc, usdt, gas_units, gas_price, gas_balance, dust) is Donate) <==> (minimum_gas(
            gas_units,
            gas_price,
        ) - gas_balance >= dust),
        (top_up(usdc, usdt, gas_units, gas_price, gas_balance, dust) is BelowDust) <==> (
        minimum_gas(gas_units, gas_price) - gas_balance < dust),
{
}

} // verus!
