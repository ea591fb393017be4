//! What holds of the pet and the factory across messages.

use crate::actor::ActorId;
use crate::factory::{record_all, record_step, TamagotchiId};
use crate::tamagotchi::{
    refilled, Tamagotchi, TmgAction, TmgEvent, TmgRequest, FILL_PER_ENTERTAINMENT, FILL_PER_FEED,
    MAX_VALUE,
};
use vstd::prelude::*;

verus! {

/// Whether the action refills a need.
pub open spec fn is_refill(action: TmgAction) -> bool {
    action is Feed || action is Entertain || action is Sleep
}

/// No level ever passes `MAX_VALUE`: a refill caps what it adds, and every
/// other message leaves the levels as they were.
pub proof fn lemma_levels_stay_capped(t: Tamagotchi, source: ActorId, now: u64, action: TmgAction)
    requires
        t.handle_defined(source, now, action),
        t.fed <= MAX_VALUE,
        t.entertained <= MAX_VALUE,
        t.slept <= MAX_VALUE,
    ensures
        t.step(source, now, action).fed <= MAX_VALUE,
        t.step(source, now, action).entertained <= MAX_VALUE,
        t.step(source, now, action).slept <= MAX_VALUE,
{
}

/// A refill never lowers the level it lands on below where it stood (or the
/// cap), and restarts the meal clock at the time of the message.
pub proof fn lemma_refill_raises_and_restarts(
    t: Tamagotchi,
    source: ActorId,
    now: u64,
    action: TmgAction,
)
    requires
        t.handle_defined(source, now, action),
        is_refill(action),
    ensures
        t.step(source, now, action).fed >= (if t.fed < MAX_VALUE {
            t.fed
        } else {
            MAX_VALUE
        }),
        t.step(source, now, action).fed_block == now,
        t.step(source, now, action).hunger_at(now) == 0,
{
}

/// The owner changes only by a transfer that the owner or the approved
/// account asked for, and then to the account the transfer names.
pub proof fn lemma_only_owner_or_approved_transfers(
    t: Tamagotchi,
    source: ActorId,
    now: u64,
    action: TmgAction,
)
    requires
        t.handle_defined(source, now, action),
        t.step(source, now, action).owner != t.owner,
    ensures
        action matches TmgAction::Transfer(new_owner) && t.step(source, now, action).owner
            == new_owner,
        t.may_transfer(source),
{
}

/// An account is approved only by the owner: a message that leaves an
/// approved account that was not there before is an approval sent by the
/// owner, and the account is the one it names.
pub proof fn lemma_only_owner_approves(t: Tamagotchi, source: ActorId, now: u64, action: TmgAction)
    requires
        t.handle_defined(source, now, action),
        t.step(source, now, action).approved_account is Some,
        t.step(source, now, action).approved_account != t.approved_account,
    ensures
        action matches TmgAction::Approve(account) && t.step(
            source,
            now,
            action,
        ).approved_account == Some(account),
        source == t.owner,
{
}

/// An account the owner approves may then pass the pet on.
pub proof fn lemma_approved_may_transfer(t: Tamagotchi, now: u64, account: ActorId)
    ensures
        t.step(t.owner, now, TmgAction::Approve(account)).may_transfer(account),
        t.step(t.owner, now, TmgAction::Approve(account)).handle_defined(
            account,
            now,
            TmgAction::Transfer(account),
        ),
{
}

/// After a revocation only the owner may pass the pet on.
pub proof fn lemma_revocation_leaves_only_owner(
    t: Tamagotchi,
    source: ActorId,
    now: u64,
    other: ActorId,
)
    ensures
        t.step(source, now, TmgAction::RevokeApproval).may_transfer(other) <==> other == t.owner,
{
}

/// Questions and errands to other programs leave the pet as it was.
pub proof fn lemma_queries_keep_state(t: Tamagotchi, source: ActorId, now: u64, action: TmgAction)
    requires
        action is Name || action is Age || action is ApproveTokens || action is BuyAttribute,
    ensures
        t.step(source, now, action) == t,
{
}

/// A newborn pet is of age zero at its birth, and its age counts the block
/// time since then.
pub proof fn lemma_age_counts_from_birth(
    t: Tamagotchi,
    owner: ActorId,
    born: u64,
    source: ActorId,
    now: u64,
)
    requires
        t.newborn(owner, born),
        born <= now,
    ensures
        t.reply_to(source, now, TmgAction::Age) == TmgEvent::Age((now - born) as u64),
        t.reply_to(source, born, TmgAction::Age) == TmgEvent::Age(0),
{
}

/// Token approvals go to the contract that was set last, with the pet's
/// transaction number.
pub proof fn lemma_tokens_go_to_contract_set(
    t: Tamagotchi,
    source: ActorId,
    now: u64,
    contract: ActorId,
    account: ActorId,
    amount: u128,
)
    ensures
        ({
            let next = t.step(source, now, TmgAction::SetFTokenContract(contract));
            let approve = TmgAction::ApproveTokens { account, amount };
            &&& next.handle_defined(source, now, approve)
            &&& next.request_for(approve) == Some(
                TmgRequest::ApproveTokens {
                    ft_contract: contract,
                    transaction_id: t.transaction_id,
                    approved_account: account,
                    amount,
                    value: 0,
                    reply_deposit: 0,
                },
            )
        }),
{
}

/// A pet that is fed right after birth stays full: a newborn's levels are
/// at the cap and no time has passed.
pub proof fn lemma_newborn_fed_at_birth_stays_full(t: Tamagotchi, owner: ActorId, born: u64)
    requires
        t.newborn(owner, born),
    ensures
        t.handle_defined(owner, born, TmgAction::Feed),
        t.step(owner, born, TmgAction::Feed).fed == MAX_VALUE,
        t.handle_defined(owner, born, TmgAction::Entertain),
        t.step(owner, born, TmgAction::Entertain).fed == MAX_VALUE,
{
    assert(refilled(MAX_VALUE, FILL_PER_FEED, 0) == MAX_VALUE);
    assert(refilled(MAX_VALUE, FILL_PER_ENTERTAINMENT, 0) == MAX_VALUE);
}

/// A new factory numbers its first pet 0, and finds it again under 0.
pub proof fn lemma_first_pet_is_number_zero(address: ActorId)
    ensures
        record_step(0, Map::empty(), address).0 == 1,
        record_step(0, Map::empty(), address).1 == Map::<TamagotchiId, ActorId>::empty().insert(
            0,
            address,
        ),
{
}

/// A pet recorded by the factory is found again under the number its reply
/// gave: the counter as it stood.
pub proof fn lemma_recorded_pet_found(
    number: TamagotchiId,
    records: Map<TamagotchiId, ActorId>,
    address: ActorId,
)
    ensures
        record_step(number, records, address).1.contains_key(number),
        record_step(number, records, address).1[number] == address,
{
}

/// A recorded pet whose number lies below the counter keeps its address
/// through any later creations: every later pet gets a number at or above
/// the counter.
pub proof fn lemma_recorded_pet_survives_later_records(
    number: TamagotchiId,
    records: Map<TamagotchiId, ActorId>,
    later: Seq<ActorId>,
    id: TamagotchiId,
)
    requires
        records.contains_key(id),
        id < number,
    ensures
        record_all(number, records, later).1.contains_key(id),
        record_all(number, records, later).1[id] == records[id],
    decreases later.len(),
{
    if later.len() > 0 {
        let (n, r) = record_step(number, records, later[0]);
        lemma_recorded_pet_survives_later_records(n, r, later.drop_first(), id);
    }
}

/// While the counter has room, a pet created at `address` is confirmed at
/// `address` after any later creations: its number stays below the counter
/// and no later pet takes it.
pub proof fn lemma_created_pet_confirmed_after_later_records(
    number: TamagotchiId,
    records: Map<TamagotchiId, ActorId>,
    address: ActorId,
    later: Seq<ActorId>,
)
    requires
        number < u64::MAX,
    ensures
        ({
            let (n, r) = record_step(number, records, address);
            &&& record_all(n, r, later).1.contains_key(number)
            &&& record_all(n, r, later).1[number] == address
        }),
{
    let (n, r) = record_step(number, records, address);
    lemma_recorded_pet_survives_later_records(n, r, later, number);
}

/// Recording pets keeps the factory's records below its counter (or the
/// counter stopped at `u64::MAX`).
pub proof fn lemma_records_stay_below_counter(
    number: TamagotchiId,
    records: Map<TamagotchiId, ActorId>,
    later: Seq<ActorId>,
)
    requires
        forall|id: TamagotchiId| #[trigger]
            records.contains_key(id) ==> id < number || number == u64::MAX,
    ensures
        forall|id: TamagotchiId| #[trigger]
            record_all(number, records, later).1.contains_key(id) ==> id < record_all(
                number,
                records,
                later,
            ).0 || record_all(number, records, later).0 == u64::MAX,
    decreases later.len(),
{
    if later.len() > 0 {
        let (n, r) = record_step(number, records, later[0]);
        assert forall|id: TamagotchiId| #[trigger] r.contains_key(id) implies id < n || n
            == u64::MAX by {
            if id != number {
                assert(records.contains_key(id));
            }
        }
        lemma_records_stay_below_counter(n, r, later.drop_first());
        assert(record_all(number, records, later) == record_all(n, r, later.drop_first()));
    }
}

} // verus!
