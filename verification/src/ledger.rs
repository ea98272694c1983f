//! The ledger state machine: validation rules, counters, and access control.

use vstd::prelude::*;
use crate::u256::U256;
use crate::u256::u256_bound;

verus! {

/// The smallest accepted payment, in minimal currency units: 0.001 of the
/// native unit at 18-decimal precision.
pub const MIN_DONATION: u64 = 1000000000000000;

/// Why a call was rejected. Every validation failure is surfaced as one of
/// these kinds together with a human-readable reason; no failure mutates the
/// state.
#[derive(Clone, Copy, Debug, PartialEq, Eq, Structural)]
pub enum LedgerError {
    /// Malformed caller-supplied data: the message was empty.
    InvalidInput,
    /// The attached value was below the minimum donation.
    InsufficientValue,
    /// The caller is not the owner.
    Unauthorized,
    /// Nothing has been received, so there is nothing to withdraw.
    NothingToWithdraw,
}

impl LedgerError {
    /// A human-readable reason for the failure.
    pub fn reason(&self) -> (r: &'static str)
        ensures
            self is InvalidInput ==> r@ == "Message cannot be empty"@,
            self is InsufficientValue ==> r@ == "Minimum donation is 0.001 ETH"@,
            self is Unauthorized ==> r@ == "Only owner can withdraw"@,
            self is NothingToWithdraw ==> r@ == "No funds to withdraw"@,
    {
        match self {
            LedgerError::InvalidInput => "Message cannot be empty",
            LedgerError::InsufficientValue => "Minimum donation is 0.001 ETH",
            LedgerError::Unauthorized => "Only owner can withdraw",
            LedgerError::NothingToWithdraw => "No funds to withdraw",
        }
    }
}

/// The identity of an account as the host delivers it: twenty raw bytes.
#[derive(Clone, Copy, Debug, PartialEq, Eq)]
pub struct Identity {
    pub bytes: [u8; 20],
}

impl View for Identity {
    type V = Seq<u8>;

    open spec fn view(&self) -> Seq<u8> {
        self.bytes@
    }
}

impl Identity {
    /// Builds an identity from its twenty bytes.
    pub fn from_bytes(bytes: [u8; 20]) -> (r: Identity)
        ensures
            r@ == bytes@,
    {
        Identity { bytes }
    }

    /// Compares two identities byte for byte.
    pub fn same(&self, other: &Identity) -> (r: bool)
        ensures
            r == (self@ == other@),
    {
        let mut i: usize = 0;
        while i < 20
            invariant
                i <= 20,
                forall|j: int| 0 <= j < i ==> self.bytes@[j] == other.bytes@[j],
            decreases 20 - i,
        {
            if self.bytes[i] != other.bytes[i] {
                assert(self@ != other@);
                return false;
            }
            i += 1;
        }
        proof {
            assert(self@ =~= other@);
        }
        true
    }
}

/// The mathematical model of the ledger: who owns it, how many payments it
/// has accepted, and how much it has received in total.
pub ghost struct LedgerView {
    pub owner: Seq<u8>,
    pub coffees: nat,
    pub donations: nat,
}

impl LedgerView {
    /// The counters move in lockstep away from zero: no accepted payment
    /// means no accumulated value, and conversely.
    pub open spec fn wf(self) -> bool {
        self.coffees == 0 <==> self.donations == 0
    }

    /// A freshly initialized ledger owned by `owner`.
    pub open spec fn fresh(owner: Seq<u8>) -> LedgerView {
        LedgerView { owner, coffees: 0, donations: 0 }
    }
}

/// One accepted payment of value `v`: the owner is untouched, the payment
/// counter grows by one, and the accumulator grows by exactly `v`.
pub open spec fn payment_step(pre: LedgerView, post: LedgerView, v: nat) -> bool {
    &&& post.owner == pre.owner
    &&& post.coffees == pre.coffees + 1
    &&& post.donations == pre.donations + v
}

/// The total of a sequence of payment values.
pub open spec fn sum(values: Seq<nat>) -> nat
    decreases values.len(),
{
    if values.len() == 0 {
        0
    } else {
        sum(values.drop_last()) + values.last()
    }
}

/// Accumulation law: starting from a ledger whose counters are zero, any
/// chain of accepted payments with values `values` leaves the payment counter
/// at the number of payments and the accumulator at their sum, with the owner
/// untouched — however many distinct callers made the payments, since an
/// accepted payment never depends on who sent it.
pub proof fn lemma_accumulation(states: Seq<LedgerView>, values: Seq<nat>)
    requires
        states.len() == values.len() + 1,
        states[0].coffees == 0,
        states[0].donations == 0,
        forall|i: int|
            0 <= i < values.len() ==> #[trigger] payment_step(states[i], states[i + 1], values[i]),
    ensures
        states.last().coffees == values.len(),
        states.last().donations == sum(values),
        states.last().owner == states[0].owner,
    decreases values.len(),
{
    if values.len() > 0 {
        lemma_accumulation(states.drop_last(), values.drop_last());
        assert(payment_step(
            states[states.len() - 2],
            states[states.len() - 1],
            values[values.len() - 1],
        ));
    }
}

/// The persistent ledger: the owner bound at initialization and the two
/// monotone counters. The host loads it before a call and persists it after;
/// each operation runs atomically against it.
pub struct BuyMeACoffee {
    owner: Identity,
    total_coffees: U256,
    total_donations: U256,
}

impl View for BuyMeACoffee {
    type V = LedgerView;

    closed spec fn view(&self) -> LedgerView {
        LedgerView {
            owner: self.owner@,
            coffees: self.total_coffees.as_nat(),
            donations: self.total_donations.as_nat(),
        }
    }
}

impl BuyMeACoffee {
    /// A blank ledger, before initialization: all fields zero.
    pub fn new() -> (r: BuyMeACoffee)
        ensures
            r@.coffees == 0,
            r@.donations == 0,
            r@.wf(),
    {
        BuyMeACoffee {
            owner: Identity::from_bytes([0u8; 20]),
            total_coffees: U256::zero(),
            total_donations: U256::zero(),
        }
    }

    /// Rebuilds the ledger from its three persisted fields, as the host
    /// loads them before a call.
    pub fn from_parts(owner: Identity, total_coffees: U256, total_donations: U256) -> (r:
        BuyMeACoffee)
        ensures
            r@.owner == owner@,
            r@.coffees == total_coffees.as_nat(),
            r@.donations == total_donations.as_nat(),
    {
        BuyMeACoffee { owner, total_coffees, total_donations }
    }

    /// Binds the caller as the irrevocable owner and clears both counters.
    /// The host must invoke this exactly once, at creation; nothing here
    /// guards against a second call.
    pub fn init(&mut self, caller: Identity)
        ensures
            final(self)@ == LedgerView::fresh(caller@),
            final(self)@.wf(),
    {
        self.owner = caller;
        self.total_coffees = U256::zero();
        self.total_donations = U256::zero();
    }

    /// The owner bound at initialization.
    pub fn owner(&self) -> (r: Identity)
        ensures
            r@ == self@.owner,
    {
        self.owner
    }

    /// How many payments have been accepted.
    pub fn total_coffees(&self) -> (r: U256)
        ensures
            r.as_nat() == self@.coffees,
    {
        self.total_coffees
    }

    /// The total value received over the ledger's lifetime.
    pub fn total_donations(&self) -> (r: U256)
        ensures
            r.as_nat() == self@.donations,
    {
        self.total_donations
    }

    /// The balance held, which equals the lifetime total received: a
    /// withdrawal authorizes a transfer but does not reduce the counters.
    pub fn get_balance(&self) -> (r: U256)
        ensures
            r.as_nat() == self@.donations,
    {
        self.total_donations
    }

    /// Accepts a payment of `value` with a message, or rejects it without
    /// touching the state. The message must be non-empty (checked first),
    /// and the value must reach the minimum donation (checked second): an
    /// empty message is reported as `InvalidInput` even when the value is
    /// also too small. The host hands over the paying caller too, but no
    /// rule depends on who pays.
    pub fn buy_coffee(&mut self, _caller: Identity, value: U256, message: String) -> (r: Result<
        (),
        LedgerError,
    >)
        requires
            message@.len() > 0 && value.as_nat() >= MIN_DONATION ==> old(self)@.coffees + 1
                < u256_bound() && old(self)@.donations + value.as_nat() < u256_bound(),
        ensures
            message@.len() == 0 ==> r == Err::<(), LedgerError>(LedgerError::InvalidInput)
                && final(self)@ == old(self)@,
            message@.len() > 0 && value.as_nat() < MIN_DONATION ==> r == Err::<(), LedgerError>(
                LedgerError::InsufficientValue,
            ) && final(self)@ == old(self)@,
            message@.len() > 0 && value.as_nat() >= MIN_DONATION ==> r == Ok::<(), LedgerError>(())
                && payment_step(old(self)@, final(self)@, value.as_nat()),
            old(self)@.wf() ==> final(self)@.wf(),
    {
        if message.as_str().is_empty() {
            return Err(LedgerError::InvalidInput);
        }
        let min = U256::from_u64(MIN_DONATION);
        if value.lt(&min) {
            return Err(LedgerError::InsufficientValue);
        }
        let one = U256::from_u64(1);
        self.total_coffees = self.total_coffees.add(&one);
        self.total_donations = self.total_donations.add(&value);
        Ok(())
    }

    /// Validates a withdrawal: only the owner may withdraw, and only when
    /// something has been received. The state is never changed — the actual
    /// transfer is the host's value-transfer primitive, and the counters
    /// record lifetime receipts, which a withdrawal deliberately leaves
    /// intact.
    pub fn withdraw(&mut self, caller: Identity) -> (r: Result<(), LedgerError>)
        ensures
            final(self)@ == old(self)@,
            caller@ != old(self)@.owner ==> r == Err::<(), LedgerError>(LedgerError::Unauthorized),
            caller@ == old(self)@.owner && old(self)@.donations == 0 ==> r == Err::<
                (),
                LedgerError,
            >(LedgerError::NothingToWithdraw),
            caller@ == old(self)@.owner && old(self)@.donations > 0 ==> r == Ok::<(), LedgerError>(
                (),
            ),
    {
        if !caller.same(&self.owner) {
            return Err(LedgerError::Unauthorized);
        }
        if self.total_donations.is_zero() {
            return Err(LedgerError::NothingToWithdraw);
        }
        Ok(())
    }
}

} // verus!
