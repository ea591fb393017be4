//! The Tamagotchi factory: it creates pet programs from one code and keeps
//! the address of each under a running number.
//!
//! Creating a pet takes two decisions around one outside step: the factory
//! first names the program to create (`create_tamagotchi`), the chain
//! creates it, and the factory then records the new address and tells the
//! sender (`record_tamagotchi`).

use crate::actor::ActorId;
use crate::scale::{encode_text, scale_text};
use std::collections::BTreeMap;
use vstd::prelude::*;
use vstd::utf8::encode_utf8;

verus! {

broadcast use vstd::std_specs::btree::group_btree_axioms;

/// The running number of a pet created by the factory.
pub type TamagotchiId = u64;

/// The gas that the factory gives a program creation.
pub const GAS_FOR_CREATION: u64 = 2;

/// The 32-byte identifier of a program code on the chain.
#[derive(Clone, Copy, Debug)]
pub struct CodeId {
    pub bytes: [u8; 32],
}

/// The factory's state.
pub struct TamagotchiFactory {
    pub tamagotchi_number: TamagotchiId,
    pub id_to_address: BTreeMap<TamagotchiId, ActorId>,
    pub tamagotchi_code_id: CodeId,
}

/// What a user asks of the factory.
#[derive(Clone, Debug)]
pub enum FactoryAction {
    CreateTamagotchi { tamagotchi_name: String },
    ConfirmDelivery(TamagotchiId),
}

/// What the factory replies.
#[derive(Clone, Copy, Debug, PartialEq, Eq)]
pub enum FactoryEvent {
    TamagotchiCreated { tamagotchi_id: TamagotchiId, tamagotchi_address: ActorId },
    DeliveryConfirmed(ActorId),
}

/// A program creation for the chain to perform: the code, the payload the
/// new program is initialised with, and what goes with the message.
#[derive(Clone, Debug)]
pub struct CreateProgram {
    pub code_id: CodeId,
    pub payload: Vec<u8>,
    pub gas_limit: u64,
    pub value: u128,
    pub reply_deposit: u64,
}

/// The counter after one more pet: one more, stopping at `u64::MAX`.
pub open spec fn counter_after(number: TamagotchiId) -> TamagotchiId {
    if number == u64::MAX {
        u64::MAX
    } else {
        (number + 1) as u64
    }
}

/// The counter and records after recording the pet at `address`: the pet
/// gets the counter as it stands, and the counter moves on. Once the counter
/// has reached `u64::MAX` it stays there, and every further pet is recorded
/// under `u64::MAX` in place of the one before.
pub open spec fn record_step(
    number: TamagotchiId,
    records: Map<TamagotchiId, ActorId>,
    address: ActorId,
) -> (TamagotchiId, Map<TamagotchiId, ActorId>) {
    (counter_after(number), records.insert(number, address))
}

/// The counter and records after recording the pets at `addresses`, in order.
pub open spec fn record_all(
    number: TamagotchiId,
    records: Map<TamagotchiId, ActorId>,
    addresses: Seq<ActorId>,
) -> (TamagotchiId, Map<TamagotchiId, ActorId>)
    decreases addresses.len(),
{
    if addresses.len() == 0 {
        (number, records)
    } else {
        let (n, r) = record_step(number, records, addresses[0]);
        record_all(n, r, addresses.drop_first())
    }
}

impl TamagotchiFactory {
    /// Every recorded pet has a number below the counter, or the counter has
    /// stopped at `u64::MAX`.
    pub open spec fn well_formed(self) -> bool {
        forall|id: TamagotchiId| #[trigger]
            self.id_to_address@.contains_key(id) ==> id < self.tamagotchi_number
                || self.tamagotchi_number == u64::MAX
    }

    /// A factory for pets of code `tamagotchi_code_id`, with no pet yet.
    pub fn init(tamagotchi_code_id: CodeId) -> (f: TamagotchiFactory)
        ensures
            f.tamagotchi_number == 0,
            f.id_to_address@ == Map::<TamagotchiId, ActorId>::empty(),
            f.tamagotchi_code_id == tamagotchi_code_id,
            f.well_formed(),
    {
        TamagotchiFactory { tamagotchi_number: 0, id_to_address: BTreeMap::new(), tamagotchi_code_id }
    }

    /// The program creation for a pet named `tamagotchi_name`: the factory's
    /// code, the name's SCALE encoding as payload, `GAS_FOR_CREATION` gas and
    /// nothing else attached. The chain call that performs it takes the
    /// payload as a value to encode, so the new program receives these bytes
    /// SCALE-encoded once more as a byte vector.
    pub fn create_tamagotchi(&self, tamagotchi_name: &String) -> (req: CreateProgram)
        requires
            encode_utf8(tamagotchi_name@).len() <= u32::MAX,
        ensures
            req.code_id == self.tamagotchi_code_id,
            req.payload@ == scale_text(tamagotchi_name@),
            req.gas_limit == GAS_FOR_CREATION,
            req.value == 0,
            req.reply_deposit == 0,
    {
        CreateProgram {
            code_id: self.tamagotchi_code_id,
            payload: encode_text(tamagotchi_name),
            gas_limit: GAS_FOR_CREATION,
            value: 0,
            reply_deposit: 0,
        }
    }

    /// Records the pet program created at `address` under the counter as it
    /// stands, moves the counter on (it stops at `u64::MAX`), and returns the
    /// reply that names the pet's number and address.
    pub fn record_tamagotchi(&mut self, address: ActorId) -> (event: FactoryEvent)
        ensures
            (final(self).tamagotchi_number, final(self).id_to_address@) == record_step(
                old(self).tamagotchi_number,
                old(self).id_to_address@,
                address,
            ),
            final(self).tamagotchi_code_id == old(self).tamagotchi_code_id,
            event == (FactoryEvent::TamagotchiCreated {
                tamagotchi_id: old(self).tamagotchi_number,
                tamagotchi_address: address,
            }),
            old(self).well_formed() ==> final(self).well_formed(),
    {
        let tamagotchi_id = self.tamagotchi_number;
        self.tamagotchi_number = self.tamagotchi_number.saturating_add(1);
        self.id_to_address.insert(tamagotchi_id, address);
        FactoryEvent::TamagotchiCreated { tamagotchi_id, tamagotchi_address: address }
    }

    /// Whether a pet is recorded under `tamagotchi_id`.
    pub fn has_tamagotchi(&self, tamagotchi_id: TamagotchiId) -> (found: bool)
        ensures
            found == self.id_to_address@.contains_key(tamagotchi_id),
    {
        self.id_to_address.contains_key(&tamagotchi_id)
    }

    /// The address of the pet recorded under `tamagotchi_id`.
    pub fn get_tamagotchi_address(&self, tamagotchi_id: TamagotchiId) -> (address: ActorId)
        requires
            self.id_to_address@.contains_key(tamagotchi_id),
        ensures
            address == self.id_to_address@[tamagotchi_id],
    {
        *self.id_to_address.get(&tamagotchi_id).unwrap()
    }

    /// The reply confirming the pet recorded under `tamagotchi_id`: its
    /// address.
    pub fn confirm_delivery(&self, tamagotchi_id: TamagotchiId) -> (event: FactoryEvent)
        requires
            self.id_to_address@.contains_key(tamagotchi_id),
        ensures
            event == FactoryEvent::DeliveryConfirmed(self.id_to_address@[tamagotchi_id]),
    {
        FactoryEvent::DeliveryConfirmed(self.get_tamagotchi_address(tamagotchi_id))
    }
}

impl Default for TamagotchiFactory {
    /// The factory the program answers with before any initialisation: the
    /// zero code and no pet.
    fn default() -> (f: TamagotchiFactory)
        ensures
            f.tamagotchi_number == 0,
            f.id_to_address@ == Map::<TamagotchiId, ActorId>::empty(),
            f.tamagotchi_code_id.bytes@ == Seq::new(32, |i: int| 0u8),
            f.well_formed(),
    {
        let code = CodeId { bytes: [0u8; 32] };
        assert(code.bytes@ =~= Seq::new(32, |i: int| 0u8));
        TamagotchiFactory::init(code)
    }
}

} // verus!
