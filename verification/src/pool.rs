//! The resource pool: an ordered collection of slots, each holding one
//! state-machine value, with the legality and identity checks of every
//! transition.

use vstd::prelude::*;
use vstd::pervasive::VecAdditionalExecFns;
use crate::account::AccountId;
use crate::reward::TransferRequest;

verus! {

/// Slot count a standard deployment constructs the pool with.
pub const DEFAULT_NUM_OF_BIKES: usize = 5;

/// Exact payment a rental requires.
pub const AMOUNT_TO_USE_BIKE: u128 = 30;

/// Fixed reward paid for a completed inspection cycle.
pub const AMOUNT_REWARD_FOR_INSPECTIONS: u128 = 15;

/// The abstract state of one slot: exactly one of the three holds at any
/// instant, and the identity attached to `InUse` / `Inspection` is the only
/// one allowed to transition the slot out of that state.
pub ghost enum SlotState {
    Available,
    InUse(Seq<char>),
    Inspection(Seq<char>),
}

/// One rentable resource. Public so that the hosting runtime can persist
/// the pool's slots between invocations and rebuild the pool from them;
/// only the pool's own operations ever change a slot.
pub enum Bike {
    Available,
    InUse(AccountId),
    Inspection(AccountId),
}

impl View for Bike {
    type V = SlotState;

    closed spec fn view(&self) -> SlotState {
        match self {
            Bike::Available => SlotState::Available,
            Bike::InUse(user) => SlotState::InUse(user@),
            Bike::Inspection(inspector) => SlotState::Inspection(inspector@),
        }
    }
}

/// Why an operation was refused. Every failing operation reports its reason
/// without having written any state.
#[derive(Clone, Copy, Debug, PartialEq, Eq, Structural)]
pub enum Error {
    /// The slot index does not refer to a slot of the pool.
    IndexOutOfRange,
    /// The slot is not `Available`, so it can be neither rented nor inspected.
    SlotNotAvailable,
    /// The slot is already `Available`, so there is nothing to return.
    AlreadyAvailable,
    /// The caller is not the identity the slot is attributed to.
    WrongCaller,
    /// The paid amount is not exactly the rental price.
    InsufficientPayment,
    /// The reward callback was invoked outside its single expected
    /// invocation: a runtime-level integrity failure.
    ProtocolViolation,
    /// The outbound reward transfer did not complete; the slot's state is
    /// left untouched.
    ExternalTransferFailed,
}

/// The pool. Its view is the sequence of abstract slot states; the slot
/// count is fixed at construction.
pub struct Contract {
    bikes: Vec<Bike>,
}

impl View for Contract {
    type V = Seq<SlotState>;

    closed spec fn view(&self) -> Seq<SlotState> {
        self.bikes@.map_values(|b: Bike| b@)
    }
}

impl Contract {
    /// A fresh pool: `num_of_bikes` slots, each `Available`.
    pub fn new(num_of_bikes: usize) -> (r: Contract)
        ensures
            r@.len() == num_of_bikes,
            forall|i: int| 0 <= i < num_of_bikes ==> r@[i] is Available,
    {
        let mut bikes: Vec<Bike> = Vec::new();
        let mut i: usize = 0;
        while i < num_of_bikes
            invariant
                i <= num_of_bikes,
                bikes@.len() == i,
                forall|j: int| 0 <= j < i ==> bikes@[j]@ is Available,
            decreases num_of_bikes - i,
        {
            bikes.push(Bike::Available);
            i = i + 1;
        }
        Contract { bikes }
    }

    /// Rebuild a pool from its persisted slots.
    pub fn from_slots(bikes: Vec<Bike>) -> (r: Contract)
        ensures
            r@ == bikes@.map_values(|b: Bike| b@),
    {
        Contract { bikes }
    }

    /// The slots, for the hosting runtime to persist.
    pub fn slots(&self) -> (r: &Vec<Bike>)
        ensures
            r@.map_values(|b: Bike| b@) == self@,
    {
        &self.bikes
    }

    /// Number of slots; pure.
    pub fn num_of_bikes(&self) -> (r: usize)
        ensures
            r == self@.len(),
    {
        self.bikes.len()
    }

    /// Whether the slot is `Available`.
    pub fn is_available(&self, index: usize) -> (r: Result<bool, Error>)
        ensures
            (match r {
                Ok(b) => index < self@.len() && (b <==> self@[index as int] is Available),
                Err(e) => index >= self@.len() && e == Error::IndexOutOfRange,
            }),
    {
        if index >= self.bikes.len() {
            return Err(Error::IndexOutOfRange);
        }
        match &self.bikes[index] {
            Bike::Available => Ok(true),
            _ => Ok(false),
        }
    }

    /// The renting identity, iff the slot is `InUse`.
    pub fn who_is_using(&self, index: usize) -> (r: Result<Option<AccountId>, Error>)
        ensures
            (match r {
                Ok(o) => index < self@.len() && (match o {
                    Some(a) => self@[index as int] matches SlotState::InUse(u) && a@ == u,
                    None => !(self@[index as int] is InUse),
                }),
                Err(e) => index >= self@.len() && e == Error::IndexOutOfRange,
            }),
    {
        if index >= self.bikes.len() {
            return Err(Error::IndexOutOfRange);
        }
        match &self.bikes[index] {
            Bike::InUse(user_id) => Ok(Some(user_id.clone())),
            _ => Ok(None),
        }
    }

    /// The inspecting identity, iff the slot is `Inspection`.
    pub fn who_is_inspecting(&self, index: usize) -> (r: Result<Option<AccountId>, Error>)
        ensures
            (match r {
                Ok(o) => index < self@.len() && (match o {
                    Some(a) => self@[index as int] matches SlotState::Inspection(u) && a@ == u,
                    None => !(self@[index as int] is Inspection),
                }),
                Err(e) => index >= self@.len() && e == Error::IndexOutOfRange,
            }),
    {
        if index >= self.bikes.len() {
            return Err(Error::IndexOutOfRange);
        }
        match &self.bikes[index] {
            Bike::Inspection(inspector_id) => Ok(Some(inspector_id.clone())),
            _ => Ok(None),
        }
    }

    /// The rental price, exposed for payment coordination.
    pub fn amount_to_use_bike(&self) -> (r: u128)
        ensures
            r == AMOUNT_TO_USE_BIKE,
    {
        AMOUNT_TO_USE_BIKE
    }

    /// Entry point of a rental: the token service reports that `sender_id`
    /// attached `amount` for the slot named by `index`. Succeeds iff the
    /// payment is exactly the rental price and the slot is `Available`;
    /// `Ok(0)` says that no part of the payment is handed back.
    pub fn ft_on_transfer(&mut self, sender_id: AccountId, amount: u128, index: usize)
        -> (r: Result<u128, Error>)
        ensures
            (match r {
                Ok(refund) => refund == 0
                    && amount == AMOUNT_TO_USE_BIKE
                    && index < old(self)@.len()
                    && old(self)@[index as int] is Available
                    && final(self)@ == old(self)@.update(index as int, SlotState::InUse(sender_id@)),
                Err(e) => final(self)@ == old(self)@ && (match e {
                    Error::InsufficientPayment => amount != AMOUNT_TO_USE_BIKE,
                    Error::IndexOutOfRange => amount == AMOUNT_TO_USE_BIKE
                        && index >= old(self)@.len(),
                    Error::SlotNotAvailable => amount == AMOUNT_TO_USE_BIKE
                        && index < old(self)@.len()
                        && !(old(self)@[index as int] is Available),
                    _ => false,
                }),
            }),
    {
        if amount != AMOUNT_TO_USE_BIKE {
            return Err(Error::InsufficientPayment);
        }
        match self.use_bike(index, sender_id) {
            Ok(()) => Ok(0),
            Err(e) => Err(e),
        }
    }

    /// `Available -> InUse(user_id)`.
    fn use_bike(&mut self, index: usize, user_id: AccountId) -> (r: Result<(), Error>)
        ensures
            (match r {
                Ok(()) => index < old(self)@.len()
                    && old(self)@[index as int] is Available
                    && final(self)@ == old(self)@.update(index as int, SlotState::InUse(user_id@)),
                Err(e) => final(self)@ == old(self)@ && (match e {
                    Error::IndexOutOfRange => index >= old(self)@.len(),
                    Error::SlotNotAvailable => index < old(self)@.len()
                        && !(old(self)@[index as int] is Available),
                    _ => false,
                }),
            }),
    {
        if index >= self.bikes.len() {
            return Err(Error::IndexOutOfRange);
        }
        match &self.bikes[index] {
            Bike::Available => {
                self.bikes.set(index, Bike::InUse(user_id));
                Ok(())
            }
            _ => Err(Error::SlotNotAvailable),
        }
    }

    /// `Available -> Inspection(user_id)`.
    pub fn inspect_bike(&mut self, index: usize, user_id: AccountId) -> (r: Result<(), Error>)
        ensures
            (match r {
                Ok(()) => index < old(self)@.len()
                    && old(self)@[index as int] is Available
                    && final(self)@ == old(self)@.update(index as int, SlotState::Inspection(user_id@)),
                Err(e) => final(self)@ == old(self)@ && (match e {
                    Error::IndexOutOfRange => index >= old(self)@.len(),
                    Error::SlotNotAvailable => index < old(self)@.len()
                        && !(old(self)@[index as int] is Available),
                    _ => false,
                }),
            }),
    {
        if index >= self.bikes.len() {
            return Err(Error::IndexOutOfRange);
        }
        match &self.bikes[index] {
            Bike::Available => {
                self.bikes.set(index, Bike::Inspection(user_id));
                Ok(())
            }
            _ => Err(Error::SlotNotAvailable),
        }
    }

    /// Commit step of the reward callback: set the slot to `Available`.
    pub(crate) fn make_available(&mut self, index: usize) -> (r: Result<(), Error>)
        ensures
            (match r {
                Ok(()) => index < old(self)@.len()
                    && final(self)@ == old(self)@.update(index as int, SlotState::Available),
                Err(e) => final(self)@ == old(self)@
                    && e == Error::IndexOutOfRange
                    && index >= old(self)@.len(),
            }),
    {
        if index >= self.bikes.len() {
            return Err(Error::IndexOutOfRange);
        }
        self.bikes.set(index, Bike::Available);
        Ok(())
    }

    /// Return the slot named by `index`, on behalf of `user_id`.
    ///
    /// From `InUse` the slot goes back to `Available` at once (`Ok(None)`).
    /// From `Inspection` nothing is written yet: the call hands back the
    /// reward transfer the runtime must perform (`Ok(Some(request))`), and
    /// the slot stays in `Inspection` until `callback_return_bike` resolves
    /// that request's outcome. Either way only the stored identity may
    /// trigger the transition.
    pub fn return_bike(&mut self, index: usize, user_id: AccountId)
        -> (r: Result<Option<TransferRequest>, Error>)
        ensures
            (match r {
                Ok(action) => index < old(self)@.len() && (match action {
                    None => old(self)@[index as int] matches SlotState::InUse(u)
                        && u == user_id@
                        && final(self)@ == old(self)@.update(index as int, SlotState::Available),
                    Some(t) => old(self)@[index as int] matches SlotState::Inspection(i)
                        && i == user_id@
                        && final(self)@ == old(self)@
                        && t.receiver_id@ == user_id@
                        && t.amount == AMOUNT_REWARD_FOR_INSPECTIONS
                        && t.index == index,
                }),
                Err(e) => final(self)@ == old(self)@ && (match e {
                    Error::IndexOutOfRange => index >= old(self)@.len(),
                    Error::AlreadyAvailable => index < old(self)@.len()
                        && old(self)@[index as int] is Available,
                    Error::WrongCaller => index < old(self)@.len()
                        && ((old(self)@[index as int] matches SlotState::InUse(u)
                                && u != user_id@)
                            || (old(self)@[index as int] matches SlotState::Inspection(i)
                                && i != user_id@)),
                    _ => false,
                }),
            }),
    {
        if index >= self.bikes.len() {
            return Err(Error::IndexOutOfRange);
        }
        match &self.bikes[index] {
            Bike::Available => Err(Error::AlreadyAvailable),
            Bike::InUse(user) => {
                if *user == user_id {
                    self.bikes.set(index, Bike::Available);
                    Ok(None)
                } else {
                    Err(Error::WrongCaller)
                }
            }
            Bike::Inspection(inspector) => {
                if *inspector == user_id {
                    Ok(Some(Self::return_inspected_bike(index, user_id)))
                } else {
                    Err(Error::WrongCaller)
                }
            }
        }
    }
}

/// After a successful rental the slot reads back the payer as its holder and
/// no longer reads as available.
pub proof fn lemma_rental_marks_holder(s: Seq<SlotState>, index: int, payer: Seq<char>)
    requires
        0 <= index < s.len(),
    ensures
        s.update(index, SlotState::InUse(payer))[index] == SlotState::InUse(payer),
        !(s.update(index, SlotState::InUse(payer))[index] is Available),
{
}

} // verus!
