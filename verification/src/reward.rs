//! The reward reconciliation protocol.
//!
//! Returning a slot from `Inspection` does not free it at once: the pool
//! hands the runtime a [`TransferRequest`] — pay the inspector the fixed
//! reward, then invoke `callback_return_bike` for the same slot with the
//! transfer's one outcome. Until that callback reports a successful
//! transfer, the slot stays in `Inspection`.

use vstd::prelude::*;
use crate::account::AccountId;
use crate::pool::{AMOUNT_REWARD_FOR_INSPECTIONS, Contract, Error, SlotState};

verus! {

/// The one outbound operation the protocol asks of the external payment
/// service: transfer `amount` to `receiver_id`, then resume the pool's
/// callback for slot `index` with the transfer's outcome.
#[derive(Debug)]
pub struct TransferRequest {
    pub receiver_id: AccountId,
    pub amount: u128,
    pub index: usize,
}

/// The outcome the runtime delivers for one outbound transfer.
#[derive(Debug)]
pub enum TransferOutcome {
    NotReady,
    Failed,
    Successful,
}

impl Contract {
    /// The reward leg of returning an inspected slot: the request that pays
    /// `receiver_id` the fixed reward and names `index` as the slot the
    /// callback must resume.
    pub fn return_inspected_bike(index: usize, receiver_id: AccountId) -> (r: TransferRequest)
        ensures
            r.receiver_id@ == receiver_id@,
            r.amount == AMOUNT_REWARD_FOR_INSPECTIONS,
            r.index == index,
    {
        TransferRequest { receiver_id, amount: AMOUNT_REWARD_FOR_INSPECTIONS, index }
    }

    /// The continuation of one outbound transfer. The runtime must invoke it
    /// with exactly the one outcome of the request it was registered for:
    /// any other number of pending outcomes — and an outcome that is not
    /// ready — is a `ProtocolViolation`, and nothing is written. A failed
    /// transfer is reported and leaves the slot untouched; only a successful
    /// one commits the slot named by `index` to `Available`.
    pub fn callback_return_bike(&mut self, index: usize, results: &Vec<TransferOutcome>)
        -> (r: Result<(), Error>)
        ensures
            (match r {
                Ok(()) => results@.len() == 1
                    && results@[0] is Successful
                    && index < old(self)@.len()
                    && final(self)@ == old(self)@.update(index as int, SlotState::Available),
                Err(e) => final(self)@ == old(self)@ && (match e {
                    Error::ProtocolViolation => results@.len() != 1
                        || results@[0] is NotReady,
                    Error::ExternalTransferFailed => results@.len() == 1
                        && results@[0] is Failed,
                    Error::IndexOutOfRange => results@.len() == 1
                        && results@[0] is Successful
                        && index >= old(self)@.len(),
                    _ => false,
                }),
            }),
    {
        if results.len() != 1 {
            return Err(Error::ProtocolViolation);
        }
        match &results[0] {
            TransferOutcome::NotReady => Err(Error::ProtocolViolation),
            TransferOutcome::Failed => Err(Error::ExternalTransferFailed),
            TransferOutcome::Successful => self.make_available(index),
        }
    }
}

/// A successful outcome frees exactly the slot the request was registered
/// for: every other slot of the pool reads as before the callback.
pub proof fn lemma_callback_frees_only_its_slot(s: Seq<SlotState>, index: int, j: int)
    requires
        0 <= index < s.len(),
        0 <= j < s.len(),
        j != index,
    ensures
        s.update(index, SlotState::Available)[j] == s[j],
{
}

/// Resolving the same originating request a second time with a successful
/// outcome does not move the pool again: the state after two applications
/// of the callback's transition is the state after one.
pub proof fn lemma_callback_idempotent(s: Seq<SlotState>, index: int)
    requires
        0 <= index < s.len(),
    ensures
        s.update(index, SlotState::Available).update(index, SlotState::Available)
            == s.update(index, SlotState::Available),
{
    assert(s.update(index, SlotState::Available).update(index, SlotState::Available)
        =~= s.update(index, SlotState::Available));
}

} // verus!
