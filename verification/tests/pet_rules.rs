use tamagotchi::actor::ActorId;
use tamagotchi::tamagotchi::{
    Tamagotchi, TmgAction, TmgEvent, TmgRequest, MAX_VALUE,
};

const BORN: u64 = 1_000_000;

fn id(n: u64) -> ActorId {
    ActorId::from(n)
}

fn pet() -> Tamagotchi {
    Tamagotchi::init(String::from("Rex"), id(2), BORN)
}

#[test]
fn actor_id_from_number_places_bytes_at_twelve() {
    let a = ActorId::from(0x0102_0304_0506_0708u64);
    let mut expected = [0u8; 32];
    expected[12..20].copy_from_slice(&[8, 7, 6, 5, 4, 3, 2, 1]);
    assert_eq!(a.bytes, expected);
    assert!(ActorId::from(3) == ActorId::from(3));
    assert!(ActorId::from(3) != ActorId::from(4));
    assert!(ActorId::zero() == ActorId::new([0u8; 32]));
}

#[test]
fn init_makes_a_full_newborn() {
    let t = pet();
    assert_eq!(t.name, "Rex");
    assert_eq!(t.owner, id(2));
    assert_eq!(t.age, BORN);
    assert_eq!((t.fed, t.entertained, t.slept), (MAX_VALUE, MAX_VALUE, MAX_VALUE));
    assert_eq!((t.fed_block, t.entertained_block, t.slept_block), (BORN, BORN, BORN));
    assert!(t.approved_account.is_none() && t.ft_contract_id.is_none());
    assert_eq!(t.transaction_id, 0);
    assert!(t.approve_transaction.is_none());
}

#[test]
fn needs_count_whole_blocks() {
    let t = pet();
    assert_eq!(t.calculate_hunger(BORN + 5_500), 5);
    assert_eq!(t.calculate_boredom(BORN + 5_500), 10);
    assert_eq!(t.calculate_energy(BORN + 5_500), 10);
    assert_eq!(t.calculate_hunger(BORN + 999), 0);
}

#[test]
fn age_counts_block_time_since_birth() {
    let mut t = pet();
    let out = t.handle(id(9), BORN + 4_321, TmgAction::Age);
    assert_eq!(out.reply, TmgEvent::Age(4_321));
    assert!(out.request.is_none());
    assert!(!t.accepts(id(9), BORN - 1, TmgAction::Age));
}

#[test]
fn feed_adds_fill_minus_hunger_and_restarts_the_clock() {
    let mut t = pet();
    t.fed = 5_000;
    let now = BORN + 300_000;
    assert!(t.accepts(id(2), now, TmgAction::Feed));
    let out = t.handle(id(2), now, TmgAction::Feed);
    assert_eq!(out.reply, TmgEvent::Fed);
    assert_eq!(t.fed, 5_700);
    assert_eq!(t.fed_block, now);
    assert_eq!(t.calculate_hunger(now), 0);
}

#[test]
fn feed_is_capped_at_max() {
    let mut t = pet();
    t.fed = 9_800;
    t.handle(id(2), BORN + 1_000, TmgAction::Feed);
    assert_eq!(t.fed, MAX_VALUE);
}

#[test]
fn entertain_and_sleep_refill_the_meal_level() {
    let mut t = pet();
    t.fed = 1_000;
    let now = BORN + 100_000;
    let out = t.handle(id(2), now, TmgAction::Entertain);
    assert_eq!(out.reply, TmgEvent::Entertained);
    assert_eq!(t.fed, 1_800);
    assert_eq!(t.fed_block, now);
    assert_eq!(t.entertained, MAX_VALUE);
    assert_eq!(t.entertained_block, BORN);

    let later = now + 50_000;
    let out = t.handle(id(2), later, TmgAction::Sleep);
    assert_eq!(out.reply, TmgEvent::Slept);
    assert_eq!(t.fed, 1_800 + 1_000 - 2 * 150);
    assert_eq!(t.slept_block, BORN);
}

#[test]
fn refills_beyond_the_fill_are_refused() {
    let t = pet();
    assert!(t.accepts(id(2), BORN + 1_000_999, TmgAction::Feed));
    assert!(!t.accepts(id(2), BORN + 1_001_000, TmgAction::Feed));
    assert!(!t.accepts(id(2), BORN + 501_000, TmgAction::Entertain));
    assert!(!t.accepts(id(2), BORN + 501_000, TmgAction::Sleep));
    assert!(!t.accepts(id(2), BORN - 1, TmgAction::Feed));
    let mut big = pet();
    big.fed = u64::MAX - 10;
    assert!(!big.accepts(id(2), BORN, TmgAction::Feed));
}

#[test]
fn stranger_cannot_transfer_or_approve() {
    let mut t = pet();
    assert!(!t.accepts(id(7), BORN, TmgAction::Transfer(id(7))));
    assert!(!t.accepts(id(7), BORN, TmgAction::Approve(id(7))));
    t.handle(id(2), BORN, TmgAction::Approve(id(3)));
    let out = t.handle(id(7), BORN, TmgAction::Transfer(id(7)));
    assert_eq!(out.reply, TmgEvent::Transferred(id(2)));
    assert_eq!(t.owner, id(2));
    let out = t.handle(id(7), BORN, TmgAction::Approve(id(7)));
    assert_eq!(out.reply, TmgEvent::Approved(id(3)));
    assert_eq!(t.approved_account, Some(id(3)));
}

#[test]
fn approved_account_may_transfer_until_revoked() {
    let mut t = pet();
    t.handle(id(2), BORN, TmgAction::Approve(id(3)));
    let mut copy = pet();
    copy.approved_account = t.approved_account;
    let out = copy.handle(id(3), BORN, TmgAction::Transfer(id(5)));
    assert_eq!(out.reply, TmgEvent::Transferred(id(5)));
    assert_eq!(copy.owner, id(5));

    let out = t.handle(id(8), BORN, TmgAction::RevokeApproval);
    assert_eq!(out.reply, TmgEvent::ApprovalRevoked);
    assert!(t.approved_account.is_none());
    assert!(!t.accepts(id(3), BORN, TmgAction::Transfer(id(3))));
    assert!(t.accepts(id(2), BORN, TmgAction::Transfer(id(3))));
}

#[test]
fn queries_keep_the_state() {
    let mut t = pet();
    let out = t.handle(id(4), BORN + 10, TmgAction::Name);
    assert_eq!(out.reply, TmgEvent::Name("Rex".to_string()));
    let out = t.handle(id(4), BORN + 10, TmgAction::BuyAttribute { store_id: id(6), attribute_id: 11 });
    assert_eq!(out.reply, TmgEvent::AttributeBought(11));
    assert_eq!(out.request, Some(TmgRequest::BuyAttribute { store: id(6), attribute_id: 11, value: 0, reply_deposit: 0 }));
    assert_eq!(t.name, "Rex");
    assert_eq!(t.owner, id(2));
    assert_eq!(t.fed_block, BORN);
}

#[test]
fn token_approval_goes_to_the_contract_set() {
    let mut t = pet();
    let approve = TmgAction::ApproveTokens { account: id(4), amount: 77 };
    assert!(!t.accepts(id(2), BORN, approve));
    let out = t.handle(id(2), BORN, TmgAction::SetFTokenContract(id(50)));
    assert_eq!(out.reply, TmgEvent::FTokenContractSet);
    t.transaction_id = 9;
    let out = t.handle(id(2), BORN, approve);
    assert_eq!(out.reply, TmgEvent::TokensApproved { account: id(4), amount: 77 });
    assert_eq!(
        out.request,
        Some(TmgRequest::ApproveTokens {
            ft_contract: id(50),
            transaction_id: 9,
            approved_account: id(4),
            amount: 77,
            value: 0,
            reply_deposit: 0,
        })
    );
    assert_eq!(t.approve_tokens(&id(1), 5), TmgRequest::ApproveTokens {
        ft_contract: id(50),
        transaction_id: 9,
        approved_account: id(1),
        amount: 5,
        value: 0,
        reply_deposit: 0,
    });
    assert_eq!(Tamagotchi::buy_attribute(&id(6), 3), TmgRequest::BuyAttribute { store: id(6), attribute_id: 3, value: 0, reply_deposit: 0 });
}

#[test]
fn default_pet_is_empty() {
    let t = Tamagotchi::default();
    assert_eq!(t.name, "");
    assert_eq!(t.owner, ActorId::zero());
    assert_eq!((t.age, t.fed, t.fed_block), (0, 0, 0));
    assert!(t.approved_account.is_none());
}
