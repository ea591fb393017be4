//! What each message does to the pet, stated field by field from its inputs:
//! the clocks a need is counted from, the arithmetic of a refill, who may
//! hand the pet on, and what each reply and request carries.

use crate::actor::ActorId;
use crate::factory::{record_step, TamagotchiId};
use crate::scale::scale_text;
use crate::tamagotchi::{
    same_event, Tamagotchi, TmgAction, TmgEvent, TmgRequest, BLOCK_MILLIS, BOREDOM_PER_BLOCK,
    ENERGY_PER_BLOCK, FILL_PER_ENTERTAINMENT, FILL_PER_FEED, HUNGER_PER_BLOCK, MAX_VALUE,
};
use vstd::prelude::*;
use vstd::utf8::encode_utf8;

verus! {

/// Each need counts whole blocks of block time since its own clock: hunger
/// since the last meal, boredom since the last play, tiredness since the
/// last sleep.
pub proof fn lemma_needs_count_from_their_clocks(t: Tamagotchi, now: u64)
    ensures
        t.hunger_at(now) == 1 * ((now - t.fed_block) / 1000),
        t.boredom_at(now) == 2 * ((now - t.entertained_block) / 1000),
        t.energy_at(now) == 2 * ((now - t.slept_block) / 1000),
{
}

/// Feeding adds `FILL_PER_FEED` less the hunger counted from the last meal,
/// caps the level at `MAX_VALUE`, and restarts the meal clock; nothing else
/// changes. It is answered exactly when the meal clock is not ahead of `now`
/// and that arithmetic stays within `u64`.
pub proof fn lemma_feed(t: Tamagotchi, source: ActorId, now: u64)
    ensures
        ({
            let need = HUNGER_PER_BLOCK * ((now - t.fed_block) / (BLOCK_MILLIS as int));
            let sum = t.fed + FILL_PER_FEED - need;
            &&& t.handle_defined(source, now, TmgAction::Feed) <==> (now >= t.fed_block && need
                <= FILL_PER_FEED && sum <= u64::MAX)
            &&& t.handle_defined(source, now, TmgAction::Feed) ==> t.step(
                source,
                now,
                TmgAction::Feed,
            ) == (Tamagotchi {
                fed: if sum > MAX_VALUE {
                    MAX_VALUE
                } else {
                    sum as u64
                },
                fed_block: now,
                ..t
            })
            &&& t.reply_to(source, now, TmgAction::Feed) == TmgEvent::Fed
            &&& t.request_for(TmgAction::Feed) is None
        }),
{
}

/// Entertaining adds `FILL_PER_ENTERTAINMENT` less the boredom counted from
/// the last play, onto the meal level (capped at `MAX_VALUE`), and restarts
/// the meal clock; the amount does not depend on when the pet last ate.
pub proof fn lemma_entertain(t: Tamagotchi, source: ActorId, now: u64)
    ensures
        ({
            let need = BOREDOM_PER_BLOCK * ((now - t.entertained_block) / (BLOCK_MILLIS as int));
            let sum = t.fed + FILL_PER_ENTERTAINMENT - need;
            &&& t.handle_defined(source, now, TmgAction::Entertain) <==> (now
                >= t.entertained_block && need <= FILL_PER_ENTERTAINMENT && sum <= u64::MAX)
            &&& t.handle_defined(source, now, TmgAction::Entertain) ==> t.step(
                source,
                now,
                TmgAction::Entertain,
            ) == (Tamagotchi {
                fed: if sum > MAX_VALUE {
                    MAX_VALUE
                } else {
                    sum as u64
                },
                fed_block: now,
                ..t
            })
            &&& t.reply_to(source, now, TmgAction::Entertain) == TmgEvent::Entertained
            &&& t.request_for(TmgAction::Entertain) is None
        }),
{
}

/// Putting the pet to sleep adds `FILL_PER_FEED` less the tiredness counted
/// from the last sleep, onto the meal level (capped at `MAX_VALUE`), and
/// restarts the meal clock.
pub proof fn lemma_sleep(t: Tamagotchi, source: ActorId, now: u64)
    ensures
        ({
            let need = ENERGY_PER_BLOCK * ((now - t.slept_block) / (BLOCK_MILLIS as int));
            let sum = t.fed + FILL_PER_FEED - need;
            &&& t.handle_defined(source, now, TmgAction::Sleep) <==> (now >= t.slept_block && need
                <= FILL_PER_FEED && sum <= u64::MAX)
            &&& t.handle_defined(source, now, TmgAction::Sleep) ==> t.step(
                source,
                now,
                TmgAction::Sleep,
            ) == (Tamagotchi {
                fed: if sum > MAX_VALUE {
                    MAX_VALUE
                } else {
                    sum as u64
                },
                fed_block: now,
                ..t
            })
            &&& t.reply_to(source, now, TmgAction::Sleep) == TmgEvent::Slept
            &&& t.request_for(TmgAction::Sleep) is None
        }),
{
}

/// The age reply is the block time since birth, for every state; it is
/// answered exactly when `now` is not before birth, and changes nothing.
pub proof fn lemma_age(t: Tamagotchi, source: ActorId, now: u64)
    ensures
        t.handle_defined(source, now, TmgAction::Age) <==> now >= t.age,
        now >= t.age ==> t.reply_to(source, now, TmgAction::Age) == TmgEvent::Age(
            (now - t.age) as u64,
        ),
        t.step(source, now, TmgAction::Age) == t,
        t.request_for(TmgAction::Age) is None,
{
}

/// A refill before an age query does not change the age reply.
pub proof fn lemma_refill_keeps_age(
    t: Tamagotchi,
    source: ActorId,
    fed_at: u64,
    action: TmgAction,
    now: u64,
)
    requires
        action is Feed || action is Entertain || action is Sleep,
        t.handle_defined(source, fed_at, action),
        now >= t.age,
    ensures
        same_event(
            t.step(source, fed_at, action).reply_to(source, now, TmgAction::Age),
            t.reply_to(source, now, TmgAction::Age),
        ),
{
}

/// The name reply gives the pet's name and changes nothing.
pub proof fn lemma_name(t: Tamagotchi, source: ActorId, now: u64)
    ensures
        t.handle_defined(source, now, TmgAction::Name),
        same_event(t.reply_to(source, now, TmgAction::Name), TmgEvent::Name(t.name)),
        t.step(source, now, TmgAction::Name) == t,
        t.request_for(TmgAction::Name) is None,
{
}

/// A transfer asked for by the owner or by the approved account hands the
/// pet to the named account; one asked for by anyone else leaves the owner.
/// The reply names the owner after the message. The owner may always ask;
/// anyone else only while some account is approved.
pub proof fn lemma_transfer(t: Tamagotchi, source: ActorId, now: u64, new_owner: ActorId)
    ensures
        t.handle_defined(source, now, TmgAction::Transfer(new_owner)) <==> (source == t.owner
            || t.approved_account is Some),
        t.step(source, now, TmgAction::Transfer(new_owner)) == (if source == t.owner
            || t.approved_account == Some(source) {
            Tamagotchi { owner: new_owner, ..t }
        } else {
            t
        }),
        t.reply_to(source, now, TmgAction::Transfer(new_owner)) == TmgEvent::Transferred(
            if source == t.owner || t.approved_account == Some(source) {
                new_owner
            } else {
                t.owner
            },
        ),
        t.request_for(TmgAction::Transfer(new_owner)) is None,
{
}

/// The owner's transfer always takes effect, whether or not an account is
/// approved, and the reply names the new owner.
pub proof fn lemma_owner_transfer_takes_effect(t: Tamagotchi, now: u64, new_owner: ActorId)
    ensures
        t.handle_defined(t.owner, now, TmgAction::Transfer(new_owner)),
        t.step(t.owner, now, TmgAction::Transfer(new_owner)).owner == new_owner,
        t.reply_to(t.owner, now, TmgAction::Transfer(new_owner)) == TmgEvent::Transferred(
            new_owner,
        ),
{
}

/// An approval asked for by the owner approves the named account; one asked
/// for by anyone else leaves the approval. The reply names the approved
/// account after the message.
pub proof fn lemma_approve(t: Tamagotchi, source: ActorId, now: u64, account: ActorId)
    ensures
        t.handle_defined(source, now, TmgAction::Approve(account)) <==> (source == t.owner
            || t.approved_account is Some),
        t.step(source, now, TmgAction::Approve(account)) == (if source == t.owner {
            Tamagotchi { approved_account: Some(account), ..t }
        } else {
            t
        }),
        t.reply_to(source, now, TmgAction::Approve(account)) == TmgEvent::Approved(
            if source == t.owner {
                account
            } else {
                t.approved_account->0
            },
        ),
        t.request_for(TmgAction::Approve(account)) is None,
{
}

/// A revocation, from anyone, removes the approval.
pub proof fn lemma_revoke(t: Tamagotchi, source: ActorId, now: u64)
    ensures
        t.handle_defined(source, now, TmgAction::RevokeApproval),
        t.step(source, now, TmgAction::RevokeApproval) == (Tamagotchi {
            approved_account: None,
            ..t
        }),
        t.reply_to(source, now, TmgAction::RevokeApproval) == TmgEvent::ApprovalRevoked,
        t.request_for(TmgAction::RevokeApproval) is None,
{
}

/// Setting the token contract, from anyone, records it.
pub proof fn lemma_set_token_contract(t: Tamagotchi, source: ActorId, now: u64, contract: ActorId)
    ensures
        t.handle_defined(source, now, TmgAction::SetFTokenContract(contract)),
        t.step(source, now, TmgAction::SetFTokenContract(contract)) == (Tamagotchi {
            ft_contract_id: Some(contract),
            ..t
        }),
        t.reply_to(source, now, TmgAction::SetFTokenContract(contract))
            == TmgEvent::FTokenContractSet,
        t.request_for(TmgAction::SetFTokenContract(contract)) is None,
{
}

/// A token approval asks the recorded token contract, under the pet's
/// transaction number, to let exactly the named account spend exactly the
/// named amount, with nothing attached; the reply names the same account and
/// amount. It is answered exactly when a token contract is recorded.
pub proof fn lemma_approve_tokens(
    t: Tamagotchi,
    source: ActorId,
    now: u64,
    account: ActorId,
    amount: u128,
)
    ensures
        ({
            let action = TmgAction::ApproveTokens { account, amount };
            &&& t.handle_defined(source, now, action) <==> t.ft_contract_id is Some
            &&& t.ft_contract_id matches Some(contract) ==> t.request_for(action) == Some(
                TmgRequest::ApproveTokens {
                    ft_contract: contract,
                    transaction_id: t.transaction_id,
                    approved_account: account,
                    amount,
                    value: 0,
                    reply_deposit: 0,
                },
            )
            &&& t.reply_to(source, now, action) == (TmgEvent::TokensApproved { account, amount })
            &&& t.step(source, now, action) == t
        }),
{
}

/// An attribute purchase asks the named store for exactly the named
/// attribute, with nothing attached, and the reply names that same
/// attribute; the pet is unchanged.
pub proof fn lemma_buy_attribute(
    t: Tamagotchi,
    source: ActorId,
    now: u64,
    store_id: ActorId,
    attribute_id: u32,
)
    ensures
        ({
            let action = TmgAction::BuyAttribute { store_id, attribute_id };
            &&& t.handle_defined(source, now, action)
            &&& t.request_for(action) == Some(
                TmgRequest::BuyAttribute { store: store_id, attribute_id, value: 0, reply_deposit: 0 },
            )
            &&& t.reply_to(source, now, action) == TmgEvent::AttributeBought(attribute_id)
            &&& t.step(source, now, action) == t
        }),
{
}

/// A pet made by `init` is born now to its owner with every level at
/// `MAX_VALUE`, every clock at its birth, and nothing approved or recorded.
pub proof fn lemma_newborn(t: Tamagotchi, owner: ActorId, now: u64)
    requires
        t.newborn(owner, now),
    ensures
        t.age == now && t.owner == owner,
        t.fed == 10000 && t.entertained == 10000 && t.slept == 10000,
        t.fed_block == now && t.entertained_block == now && t.slept_block == now,
        t.approved_account is None && t.ft_contract_id is None,
        t.transaction_id == 0 && t.approve_transaction is None,
        t.reply_to(owner, now, TmgAction::Age) == TmgEvent::Age(0),
{
}

/// Recording a pet puts it under the counter as it stood and moves the
/// counter one on, or leaves it at `u64::MAX`.
pub proof fn lemma_record(
    number: TamagotchiId,
    records: Map<TamagotchiId, ActorId>,
    address: ActorId,
)
    ensures
        record_step(number, records, address).0 == (if number < u64::MAX {
            number + 1
        } else {
            number as int
        }),
        record_step(number, records, address).1 == records.insert(number, address),
{
}

/// A text whose UTF-8 form is shorter than 64 bytes is encoded as one byte
/// holding four times its length, followed by that UTF-8 form.
pub proof fn lemma_short_text_encoding(text: Seq<char>)
    requires
        encode_utf8(text).len() < 64,
    ensures
        scale_text(text) == seq![(encode_utf8(text).len() * 4) as u8] + encode_utf8(text),
{
}

} // verus!
