//! The Tamagotchi program: a pet with an owner, an approved account, needs
//! that grow with the chain's clock, and errands to a fungible-token contract
//! and an attribute store.
//!
//! `handle` is the program's decision for one incoming message: from the
//! pet's state, the message's sender, the block time and the action it gets
//! the next state, the request to send first (if any) and the reply.

use crate::actor::ActorId;
use vstd::prelude::*;

verus! {

/// Identifier of a purchase in the attribute store.
pub type TransactionId = u64;

/// Identifier of an attribute sold by the store.
pub type AttributeId = u32;

/// Hunger gained per block since the last meal.
pub const HUNGER_PER_BLOCK: u64 = 1;

/// Boredom gained per block since the last play.
pub const BOREDOM_PER_BLOCK: u64 = 2;

/// Tiredness gained per block since the last sleep.
pub const ENERGY_PER_BLOCK: u64 = 2;

/// What one meal adds.
pub const FILL_PER_FEED: u64 = 1000;

/// What one play adds.
pub const FILL_PER_ENTERTAINMENT: u64 = 1000;

/// What one sleep adds.
pub const FILL_PER_SLEEP: u64 = 1000;

/// The ceiling of every level.
pub const MAX_VALUE: u64 = 10000;

/// Milliseconds of block time that count as one block.
pub const BLOCK_MILLIS: u64 = 1000;

/// The pet's state.
pub struct Tamagotchi {
    pub name: String,
    /// Block time of birth.
    pub age: u64,
    pub owner: ActorId,
    pub fed: u64,
    pub fed_block: u64,
    pub entertained: u64,
    pub entertained_block: u64,
    pub slept: u64,
    pub slept_block: u64,
    pub approved_account: Option<ActorId>,
    pub ft_contract_id: Option<ActorId>,
    pub transaction_id: u64,
    pub approve_transaction: Option<(TransactionId, ActorId, u128)>,
}

/// What a user asks of the pet.
#[derive(Clone, Copy, Debug)]
pub enum TmgAction {
    Name,
    Age,
    Feed,
    Entertain,
    Sleep,
    Transfer(ActorId),
    Approve(ActorId),
    RevokeApproval,
    SetFTokenContract(ActorId),
    ApproveTokens { account: ActorId, amount: u128 },
    BuyAttribute { store_id: ActorId, attribute_id: AttributeId },
}

/// What the pet replies.
#[derive(Clone, Debug, PartialEq, Eq)]
pub enum TmgEvent {
    Name(String),
    Age(u64),
    Fed,
    Entertained,
    Slept,
    Transferred(ActorId),
    Approved(ActorId),
    ApprovalRevoked,
    FTokenContractSet,
    TokensApproved { account: ActorId, amount: u128 },
    ApprovalError,
    AttributeBought(AttributeId),
    CompletePrevPurchase(AttributeId),
    ErrorDuringPurchase,
}

/// A message the pet sends to another program, and whose answer it awaits,
/// before it replies: the recipient, the contents, the value attached and the
/// gas deposited for the answer.
#[derive(Clone, Copy, Debug, PartialEq, Eq)]
pub enum TmgRequest {
    /// Ask the fungible-token contract to let `approved_account` spend
    /// `amount` of the pet's tokens.
    ApproveTokens {
        ft_contract: ActorId,
        transaction_id: TransactionId,
        approved_account: ActorId,
        amount: u128,
        value: u128,
        reply_deposit: u64,
    },
    /// Ask the store to sell the pet the attribute.
    BuyAttribute { store: ActorId, attribute_id: AttributeId, value: u128, reply_deposit: u64 },
}

/// The pet's answer to one message: the request to send first, if any, and
/// the reply to send once its answer has come.
#[derive(Clone, Debug)]
pub struct TmgOutcome {
    pub request: Option<TmgRequest>,
    pub reply: TmgEvent,
}

/// Two replies are alike: the same variant with the same contents, a name
/// compared by its characters.
pub open spec fn same_event(a: TmgEvent, b: TmgEvent) -> bool {
    match (a, b) {
        (TmgEvent::Name(x), TmgEvent::Name(y)) => x@ == y@,
        _ => a == b,
    }
}

/// A level after a refill: `level + fill - need`, capped at `MAX_VALUE`.
pub open spec fn refilled(level: u64, fill: u64, need: int) -> u64 {
    let v = level + fill - need;
    if v > MAX_VALUE {
        MAX_VALUE
    } else {
        v as u64
    }
}

/// A refill computes without wrapping: the need does not exceed the fill,
/// and the sum fits in a `u64`.
pub open spec fn refill_defined(level: u64, fill: u64, need: int) -> bool {
    0 <= need <= fill && level + (fill - need) <= u64::MAX
}

impl Tamagotchi {
    /// Hunger at block time `now`: one per whole block since the last meal.
    pub open spec fn hunger_at(self, now: u64) -> int {
        HUNGER_PER_BLOCK * ((now - self.fed_block) / (BLOCK_MILLIS as int))
    }

    /// Boredom at block time `now`: two per whole block since the last play.
    pub open spec fn boredom_at(self, now: u64) -> int {
        BOREDOM_PER_BLOCK * ((now - self.entertained_block) / (BLOCK_MILLIS as int))
    }

    /// Tiredness at block time `now`: two per whole block since the last sleep.
    pub open spec fn energy_at(self, now: u64) -> int {
        ENERGY_PER_BLOCK * ((now - self.slept_block) / (BLOCK_MILLIS as int))
    }

    /// Whether `source` may pass the pet on: it owns it, or it is the
    /// approved account.
    pub open spec fn may_transfer(self, source: ActorId) -> bool {
        source == self.owner || self.approved_account == Some(source)
    }

    /// The inputs on which the program answers rather than traps: no clock
    /// reading lies before the moment it is measured from, no level wraps,
    /// an approval to read exists where the reply names it, and a token
    /// contract is known where tokens are approved.
    pub open spec fn handle_defined(self, source: ActorId, now: u64, action: TmgAction) -> bool {
        match action {
            TmgAction::Age => now >= self.age,
            TmgAction::Feed => now >= self.fed_block && refill_defined(
                self.fed,
                FILL_PER_FEED,
                self.hunger_at(now),
            ),
            TmgAction::Entertain => now >= self.entertained_block && refill_defined(
                self.fed,
                FILL_PER_ENTERTAINMENT,
                self.boredom_at(now),
            ),
            TmgAction::Sleep => now >= self.slept_block && refill_defined(
                self.fed,
                FILL_PER_FEED,
                self.energy_at(now),
            ),
            TmgAction::Transfer(_) => source == self.owner || self.approved_account is Some,
            TmgAction::Approve(_) => source == self.owner || self.approved_account is Some,
            TmgAction::ApproveTokens { .. } => self.ft_contract_id is Some,
            _ => true,
        }
    }

    /// The state after the action. Every refill lands on `fed` and restarts
    /// the meal clock, whichever need it answers.
    pub open spec fn step(self, source: ActorId, now: u64, action: TmgAction) -> Tamagotchi {
        match action {
            TmgAction::Feed => Tamagotchi {
                fed: refilled(self.fed, FILL_PER_FEED, self.hunger_at(now)),
                fed_block: now,
                ..self
            },
            TmgAction::Entertain => Tamagotchi {
                fed: refilled(self.fed, FILL_PER_ENTERTAINMENT, self.boredom_at(now)),
                fed_block: now,
                ..self
            },
            TmgAction::Sleep => Tamagotchi {
                fed: refilled(self.fed, FILL_PER_FEED, self.energy_at(now)),
                fed_block: now,
                ..self
            },
            TmgAction::Transfer(new_owner) => if self.may_transfer(source) {
                Tamagotchi { owner: new_owner, ..self }
            } else {
                self
            },
            TmgAction::Approve(account) => if source == self.owner {
                Tamagotchi { approved_account: Some(account), ..self }
            } else {
                self
            },
            TmgAction::RevokeApproval => Tamagotchi { approved_account: None, ..self },
            TmgAction::SetFTokenContract(contract) => Tamagotchi {
                ft_contract_id: Some(contract),
                ..self
            },
            _ => self,
        }
    }

    /// The reply to the action.
    pub open spec fn reply_to(self, source: ActorId, now: u64, action: TmgAction) -> TmgEvent {
        let next = self.step(source, now, action);
        match action {
            TmgAction::Name => TmgEvent::Name(self.name),
            TmgAction::Age => TmgEvent::Age((now - self.age) as u64),
            TmgAction::Feed => TmgEvent::Fed,
            TmgAction::Entertain => TmgEvent::Entertained,
            TmgAction::Sleep => TmgEvent::Slept,
            TmgAction::Transfer(_) => TmgEvent::Transferred(next.owner),
            TmgAction::Approve(_) => TmgEvent::Approved(next.approved_account->0),
            TmgAction::RevokeApproval => TmgEvent::ApprovalRevoked,
            TmgAction::SetFTokenContract(_) => TmgEvent::FTokenContractSet,
            TmgAction::ApproveTokens { account, amount } => TmgEvent::TokensApproved {
                account,
                amount,
            },
            TmgAction::BuyAttribute { attribute_id, .. } => TmgEvent::AttributeBought(
                attribute_id,
            ),
        }
    }

    /// The request the action sends before the reply.
    pub open spec fn request_for(self, action: TmgAction) -> Option<TmgRequest> {
        match action {
            TmgAction::ApproveTokens { account, amount } => Some(
                TmgRequest::ApproveTokens {
                    ft_contract: self.ft_contract_id->0,
                    transaction_id: self.transaction_id,
                    approved_account: account,
                    amount,
                    value: 0,
                    reply_deposit: 0,
                },
            ),
            TmgAction::BuyAttribute { store_id, attribute_id } => Some(
                TmgRequest::BuyAttribute {
                    store: store_id,
                    attribute_id,
                    value: 0,
                    reply_deposit: 0,
                },
            ),
            _ => None,
        }
    }

    /// A pet born at block time `now`, owned by `owner`, with every level
    /// full and every clock started at its birth.
    pub open spec fn newborn(self, owner: ActorId, now: u64) -> bool {
        &&& self.age == now
        &&& self.owner == owner
        &&& self.fed == MAX_VALUE
        &&& self.fed_block == now
        &&& self.entertained == MAX_VALUE
        &&& self.entertained_block == now
        &&& self.slept == MAX_VALUE
        &&& self.slept_block == now
        &&& self.approved_account is None
        &&& self.ft_contract_id is None
        &&& self.transaction_id == 0
        &&& self.approve_transaction is None
    }

    /// Creates the pet named `name` for `owner` at block time `now`.
    pub fn init(name: String, owner: ActorId, now: u64) -> (t: Tamagotchi)
        ensures
            t.name == name,
            t.newborn(owner, now),
    {
        Tamagotchi {
            name,
            age: now,
            owner,
            fed: MAX_VALUE,
            fed_block: now,
            entertained: MAX_VALUE,
            entertained_block: now,
            slept: MAX_VALUE,
            slept_block: now,
            approved_account: None,
            ft_contract_id: None,
            transaction_id: 0,
            approve_transaction: None,
        }
    }

    /// Hunger at block time `now`.
    pub fn calculate_hunger(&self, now: u64) -> (hunger: u64)
        requires
            now >= self.fed_block,
        ensures
            hunger == self.hunger_at(now),
    {
        HUNGER_PER_BLOCK * ((now - self.fed_block) / BLOCK_MILLIS)
    }

    /// Boredom at block time `now`.
    pub fn calculate_boredom(&self, now: u64) -> (boredom: u64)
        requires
            now >= self.entertained_block,
        ensures
            boredom == self.boredom_at(now),
    {
        BOREDOM_PER_BLOCK * ((now - self.entertained_block) / BLOCK_MILLIS)
    }

    /// Tiredness at block time `now`.
    pub fn calculate_energy(&self, now: u64) -> (energy: u64)
        requires
            now >= self.slept_block,
        ensures
            energy == self.energy_at(now),
    {
        ENERGY_PER_BLOCK * ((now - self.slept_block) / BLOCK_MILLIS)
    }

    /// The message that lets `account` spend `amount` of the pet's tokens:
    /// sent to the token contract that was set, under the pet's transaction
    /// number, with no value attached and no gas deposited for the answer.
    pub fn approve_tokens(&self, account: &ActorId, amount: u128) -> (req: TmgRequest)
        requires
            self.ft_contract_id is Some,
        ensures
            req == (TmgRequest::ApproveTokens {
                ft_contract: self.ft_contract_id->0,
                transaction_id: self.transaction_id,
                approved_account: *account,
                amount,
                value: 0,
                reply_deposit: 0,
            }),
    {
        TmgRequest::ApproveTokens {
            ft_contract: self.ft_contract_id.unwrap(),
            transaction_id: self.transaction_id,
            approved_account: *account,
            amount,
            value: 0,
            reply_deposit: 0,
        }
    }

    /// The message that buys attribute `attribute` from the store `store`,
    /// with no value attached and no gas deposited for the answer.
    pub fn buy_attribute(store: &ActorId, attribute: AttributeId) -> (req: TmgRequest)
        ensures
            req == (TmgRequest::BuyAttribute {
                store: *store,
                attribute_id: attribute,
                value: 0,
                reply_deposit: 0,
            }),
    {
        TmgRequest::BuyAttribute { store: *store, attribute_id: attribute, value: 0, reply_deposit: 0 }
    }

    /// Whether `handle` answers the message rather than traps.
    pub fn accepts(&self, source: ActorId, now: u64, action: TmgAction) -> (ok: bool)
        ensures
            ok == self.handle_defined(source, now, action),
    {
        match action {
            TmgAction::Age => now >= self.age,
            TmgAction::Feed => {
                if now < self.fed_block {
                    false
                } else {
                    let hunger = self.calculate_hunger(now);
                    hunger <= FILL_PER_FEED && FILL_PER_FEED - hunger <= u64::MAX - self.fed
                }
            },
            TmgAction::Entertain => {
                if now < self.entertained_block {
                    false
                } else {
                    let boredom = self.calculate_boredom(now);
                    boredom <= FILL_PER_ENTERTAINMENT && FILL_PER_ENTERTAINMENT - boredom
                        <= u64::MAX - self.fed
                }
            },
            TmgAction::Sleep => {
                if now < self.slept_block {
                    false
                } else {
                    let energy = self.calculate_energy(now);
                    energy <= FILL_PER_FEED && FILL_PER_FEED - energy <= u64::MAX - self.fed
                }
            },
            TmgAction::Transfer(_) => source == self.owner || self.approved_account.is_some(),
            TmgAction::Approve(_) => source == self.owner || self.approved_account.is_some(),
            TmgAction::ApproveTokens { .. } => self.ft_contract_id.is_some(),
            _ => true,
        }
    }

    /// Handles one message from `source` at block time `now`.
    pub fn handle(&mut self, source: ActorId, now: u64, action: TmgAction) -> (out: TmgOutcome)
        requires
            old(self).handle_defined(source, now, action),
        ensures
            *final(self) == old(self).step(source, now, action),
            out.request == old(self).request_for(action),
            same_event(out.reply, old(self).reply_to(source, now, action)),
    {
        match action {
            TmgAction::Name => TmgOutcome { request: None, reply: TmgEvent::Name(self.name.clone()) },
            TmgAction::Age => TmgOutcome { request: None, reply: TmgEvent::Age(now - self.age) },
            TmgAction::Feed => {
                let hunger = self.calculate_hunger(now);
                let fed = self.fed + (FILL_PER_FEED - hunger);
                self.fed_block = now;
                self.fed = if fed > MAX_VALUE {
                    MAX_VALUE
                } else {
                    fed
                };
                TmgOutcome { request: None, reply: TmgEvent::Fed }
            },
            TmgAction::Entertain => {
                let boredom = self.calculate_boredom(now);
                let fed = self.fed + (FILL_PER_ENTERTAINMENT - boredom);
                self.fed_block = now;
                self.fed = if fed > MAX_VALUE {
                    MAX_VALUE
                } else {
                    fed
                };
                TmgOutcome { request: None, reply: TmgEvent::Entertained }
            },
            TmgAction::Sleep => {
                let energy = self.calculate_energy(now);
                let fed = self.fed + (FILL_PER_FEED - energy);
                self.fed_block = now;
                self.fed = if fed > MAX_VALUE {
                    MAX_VALUE
                } else {
                    fed
                };
                TmgOutcome { request: None, reply: TmgEvent::Slept }
            },
            TmgAction::Transfer(new_owner) => {
                if source == self.owner || source == self.approved_account.unwrap() {
                    self.owner = new_owner;
                }
                TmgOutcome { request: None, reply: TmgEvent::Transferred(self.owner) }
            },
            TmgAction::Approve(account) => {
                if source == self.owner {
                    self.approved_account = Some(account);
                }
                TmgOutcome {
                    request: None,
                    reply: TmgEvent::Approved(self.approved_account.unwrap()),
                }
            },
            TmgAction::RevokeApproval => {
                self.approved_account = None;
                TmgOutcome { request: None, reply: TmgEvent::ApprovalRevoked }
            },
            TmgAction::SetFTokenContract(contract) => {
                self.ft_contract_id = Some(contract);
                TmgOutcome { request: None, reply: TmgEvent::FTokenContractSet }
            },
            TmgAction::ApproveTokens { account, amount } => {
                let request = self.approve_tokens(&account, amount);
                TmgOutcome {
                    request: Some(request),
                    reply: TmgEvent::TokensApproved { account, amount },
                }
            },
            TmgAction::BuyAttribute { store_id, attribute_id } => {
                let request = Tamagotchi::buy_attribute(&store_id, attribute_id);
                TmgOutcome { request: Some(request), reply: TmgEvent::AttributeBought(attribute_id) }
            },
        }
    }
}

impl Default for Tamagotchi {
    /// The pet the program answers with before any initialisation: no name,
    /// the zero owner, every number zero and nothing set.
    fn default() -> (t: Tamagotchi)
        ensures
            t.name@ == Seq::<char>::empty(),
            t.owner.bytes@ == Seq::new(32, |i: int| 0u8),
            t.age == 0,
            t.fed == 0,
            t.fed_block == 0,
            t.entertained == 0,
            t.entertained_block == 0,
            t.slept == 0,
            t.slept_block == 0,
            t.approved_account is None,
            t.ft_contract_id is None,
            t.transaction_id == 0,
            t.approve_transaction is None,
    {
        let owner = ActorId::zero();
        assert(owner.bytes@ =~= Seq::new(32, |i: int| 0u8));
        Tamagotchi {
            name: String::new(),
            age: 0,
            owner,
            fed: 0,
            fed_block: 0,
            entertained: 0,
            entertained_block: 0,
            slept: 0,
            slept_block: 0,
            approved_account: None,
            ft_contract_id: None,
            transaction_id: 0,
            approve_transaction: None,
        }
    }
}

} // verus!
