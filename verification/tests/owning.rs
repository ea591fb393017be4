use tamagotchi::actor::ActorId;
use tamagotchi::tamagotchi::{Tamagotchi, TmgAction, TmgEvent};

const NOW: u64 = 1_700_000_000_000;

fn send(tmg: &mut Tamagotchi, source: u64, action: TmgAction) -> TmgEvent {
    let source = ActorId::from(source);
    assert!(tmg.accepts(source, NOW, action));
    tmg.handle(source, NOW, action).reply
}

#[test]
fn smoke_test_01() {
    let mut tmg = Tamagotchi::init(String::from("Heriel"), ActorId::from(2), NOW);

    let res = send(&mut tmg, 2, TmgAction::Name);
    assert_eq!(res, TmgEvent::Name("Heriel".to_string()));

    let res = send(&mut tmg, 2, TmgAction::Age);
    assert_eq!(res, TmgEvent::Age(0));
}

#[test]
fn interactions_test_02() {
    let mut tmg = Tamagotchi::init(String::from("Sofia"), ActorId::from(2), NOW);

    let res = send(&mut tmg, 2, TmgAction::Feed);
    assert_eq!(res, TmgEvent::Fed);

    let res = send(&mut tmg, 2, TmgAction::Entertain);
    assert_eq!(res, TmgEvent::Entertained);

    let res = send(&mut tmg, 2, TmgAction::Sleep);
    assert_eq!(res, TmgEvent::Slept);
}

#[test]
fn owning_test_03() {
    let mut tmg = Tamagotchi::init(String::from("Sofia"), ActorId::from(2), NOW);

    let res = send(&mut tmg, 2, TmgAction::Approve(3.into()));
    assert_eq!(res, TmgEvent::Approved(3.into()));

    let res = send(&mut tmg, 2, TmgAction::Transfer(3.into()));
    assert_eq!(res, TmgEvent::Transferred(3.into()));

    let res = send(&mut tmg, 2, TmgAction::RevokeApproval);
    assert_eq!(res, TmgEvent::ApprovalRevoked);
}
