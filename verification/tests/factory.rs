use tamagotchi::actor::ActorId;
use tamagotchi::factory::{CodeId, FactoryAction, FactoryEvent, TamagotchiFactory};

#[test]
fn factory_test_01() {
    let tamagotchi_code_id = CodeId { bytes: [1u8; 32] };
    let mut tamagotchi_factory = TamagotchiFactory::init(tamagotchi_code_id);
    assert_eq!(tamagotchi_factory.tamagotchi_number, 0);

    let action = FactoryAction::CreateTamagotchi { tamagotchi_name: "Oscar".to_string() };
    let FactoryAction::CreateTamagotchi { tamagotchi_name } = action else { unreachable!() };
    let request = tamagotchi_factory.create_tamagotchi(&tamagotchi_name);
    assert_eq!(request.code_id.bytes, [1u8; 32]);
    let res = tamagotchi_factory.record_tamagotchi(Default::default());
    assert_eq!(
        res,
        FactoryEvent::TamagotchiCreated {
            tamagotchi_id: Default::default(),
            tamagotchi_address: Default::default(),
        }
    );
    assert_eq!(tamagotchi_factory.confirm_delivery(0), FactoryEvent::DeliveryConfirmed(ActorId::default()));
}
