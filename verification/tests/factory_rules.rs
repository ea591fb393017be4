use tamagotchi::actor::ActorId;
use tamagotchi::factory::{CodeId, FactoryEvent, TamagotchiFactory, GAS_FOR_CREATION};

fn code() -> CodeId {
    CodeId { bytes: [7u8; 32] }
}

#[test]
fn creation_request_carries_the_encoded_name() {
    let f = TamagotchiFactory::init(code());
    let req = f.create_tamagotchi(&"Oscar".to_string());
    assert_eq!(req.payload, vec![20, b'O', b's', b'c', b'a', b'r']);
    assert_eq!(req.code_id.bytes, [7u8; 32]);
    assert_eq!(req.gas_limit, GAS_FOR_CREATION);
    assert_eq!(req.value, 0);
    assert_eq!(req.reply_deposit, 0);
}

#[test]
fn long_and_non_ascii_names_are_encoded_by_byte_length() {
    let f = TamagotchiFactory::init(code());
    let long = "a".repeat(100);
    let req = f.create_tamagotchi(&long);
    assert_eq!(&req.payload[..2], &[0x91, 0x01]);
    assert_eq!(req.payload.len(), 102);
    let req = f.create_tamagotchi(&"Мурка".to_string());
    assert_eq!(req.payload[0], 40);
    assert_eq!(&req.payload[1..], "Мурка".as_bytes());
}

#[test]
fn recorded_pets_are_numbered_from_zero_and_found_again() {
    let mut f = TamagotchiFactory::init(code());
    let e1 = f.record_tamagotchi(ActorId::from(100));
    assert_eq!(e1, FactoryEvent::TamagotchiCreated { tamagotchi_id: 0, tamagotchi_address: ActorId::from(100) });
    let e2 = f.record_tamagotchi(ActorId::from(200));
    assert_eq!(e2, FactoryEvent::TamagotchiCreated { tamagotchi_id: 1, tamagotchi_address: ActorId::from(200) });
    assert_eq!(f.tamagotchi_number, 2);
    assert!(f.has_tamagotchi(0) && f.has_tamagotchi(1) && !f.has_tamagotchi(2));
    assert_eq!(f.get_tamagotchi_address(0), ActorId::from(100));
    assert_eq!(f.confirm_delivery(1), FactoryEvent::DeliveryConfirmed(ActorId::from(200)));
}

#[test]
fn earlier_pets_survive_later_creations() {
    let mut f = TamagotchiFactory::init(code());
    f.record_tamagotchi(ActorId::from(7));
    for n in 0..50 {
        f.record_tamagotchi(ActorId::from(1000 + n));
    }
    assert_eq!(f.confirm_delivery(0), FactoryEvent::DeliveryConfirmed(ActorId::from(7)));
    assert_eq!(f.tamagotchi_number, 51);
}

#[test]
fn counter_stops_at_the_maximum() {
    let mut f = TamagotchiFactory::init(code());
    f.tamagotchi_number = u64::MAX - 1;
    let e = f.record_tamagotchi(ActorId::from(1));
    assert_eq!(e, FactoryEvent::TamagotchiCreated { tamagotchi_id: u64::MAX - 1, tamagotchi_address: ActorId::from(1) });
    assert_eq!(f.tamagotchi_number, u64::MAX);
    let e = f.record_tamagotchi(ActorId::from(2));
    assert_eq!(e, FactoryEvent::TamagotchiCreated { tamagotchi_id: u64::MAX, tamagotchi_address: ActorId::from(2) });
    f.record_tamagotchi(ActorId::from(3));
    assert_eq!(f.tamagotchi_number, u64::MAX);
    assert_eq!(f.get_tamagotchi_address(u64::MAX), ActorId::from(3));
    assert_eq!(f.get_tamagotchi_address(u64::MAX - 1), ActorId::from(1));
}
