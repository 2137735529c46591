use dex::actor::ActorId;
use dex::factory::{
    all_pairs, all_pairs_length, fee_to as query_fee_to, fee_to_setter as query_fee_to_setter,
    pair as query_pair, CodeId, Error, Event, Factory, Initialize,
};

const USER: u64 = 10;
const FEE_SETTER: u64 = 11;
const NEW_FEE_TO: u64 = 12;
const NEW_FEE_SETTER: u64 = 13;
const TOKEN_A: u64 = 3;
const TOKEN_B: u64 = 2;
const PAIR_ACTOR: u64 = 100;

fn actor(value: u64) -> ActorId {
    ActorId::new(value)
}

fn init_factory() -> Factory {
    Factory::new(Initialize {
        fee_to: actor(0),
        fee_to_setter: actor(FEE_SETTER),
        pair: CodeId { value: 0 },
    })
}

#[test]
fn fee_to() {
    let mut factory = init_factory();
    factory
        .set_fee_receiver(actor(FEE_SETTER), actor(NEW_FEE_TO))
        .unwrap();
    assert_eq!(factory.get_fee_to(), Event::FeeToSet(actor(NEW_FEE_TO)));
}

#[test]
fn set_fee_to() {
    let mut factory = init_factory();
    // Sent by the fee setter.
    let event = factory
        .set_fee_receiver(actor(FEE_SETTER), actor(NEW_FEE_TO))
        .unwrap();
    assert_eq!(event, Event::FeeToSet(actor(NEW_FEE_TO)));
    // The new fee receiver is in the state.
    assert_eq!(query_fee_to(factory.state()), actor(NEW_FEE_TO));
}

#[test]
fn set_fee_to_failures() {
    let mut factory = init_factory();
    // Must fail: the user is not the fee setter.
    let result = factory.set_fee_receiver(actor(USER), actor(NEW_FEE_TO));
    assert_eq!(result, Err(Error::AccessRestricted));
    // Must fail as well, for the same caller.
    let result = factory.set_fee_receiver(actor(USER), actor(0));
    assert_eq!(result, Err(Error::AccessRestricted));
}

#[test]
fn set_fee_to_setter() {
    let mut factory = init_factory();
    let event = factory
        .set_fee_to_setter(actor(FEE_SETTER), actor(NEW_FEE_SETTER))
        .unwrap();
    assert_eq!(event, Event::FeeToSetterSet(actor(NEW_FEE_SETTER)));
    // The new fee setter is in the state.
    assert_eq!(query_fee_to_setter(factory.state()), actor(NEW_FEE_SETTER));
}

#[test]
fn set_fee_to_setter_failures() {
    let mut factory = init_factory();
    // Must fail: the user is not the fee setter.
    let result = factory.set_fee_to_setter(actor(USER), actor(NEW_FEE_SETTER));
    assert_eq!(result, Err(Error::AccessRestricted));
    // Must fail: the new setter is the zero identity.
    let result = factory.set_fee_to_setter(actor(FEE_SETTER), actor(0));
    assert_eq!(result, Err(Error::ZeroActorId));
}

#[test]
fn create_pair() {
    let mut factory = init_factory();
    let token_pair = factory
        .create_pair_start(actor(TOKEN_A), actor(TOKEN_B))
        .unwrap();
    let event = factory
        .create_pair_commit(token_pair, actor(PAIR_ACTOR), Ok(()))
        .unwrap();
    assert_eq!(
        event,
        Event::PairCreated {
            token_pair: (actor(TOKEN_A), actor(TOKEN_B)),
            pair_actor: actor(PAIR_ACTOR),
            pair_number: 1,
        }
    );
    // The registry holds exactly the new pair.
    assert_eq!(all_pairs_length(factory.state()), 1);
}

#[test]
fn create_pair_failures() {
    let mut factory = init_factory();
    // Must fail: both tokens share the same address.
    assert_eq!(
        factory.create_pair_start(actor(TOKEN_A), actor(TOKEN_A)),
        Err(Error::IdenticalTokens)
    );
    // Must fail: a token is the zero address.
    assert_eq!(
        factory.create_pair_start(actor(0), actor(TOKEN_A)),
        Err(Error::ZeroActorId)
    );
    // Must fail: the pair already exists.
    let token_pair = factory
        .create_pair_start(actor(TOKEN_A), actor(TOKEN_B))
        .unwrap();
    factory
        .create_pair_commit(token_pair, actor(PAIR_ACTOR), Ok(()))
        .unwrap();
    assert_eq!(
        factory.create_pair_start(actor(TOKEN_A), actor(TOKEN_B)),
        Err(Error::PairExist)
    );
    // In either token order.
    assert_eq!(
        factory.create_pair_start(actor(TOKEN_B), actor(TOKEN_A)),
        Err(Error::PairExist)
    );
}

#[test]
fn pair_lookup_is_order_insensitive() {
    let mut factory = init_factory();
    let token_pair = factory
        .create_pair_start(actor(TOKEN_B), actor(TOKEN_A))
        .unwrap();
    // The canonical order puts the larger identity first.
    assert_eq!(token_pair, (actor(TOKEN_A), actor(TOKEN_B)));
    factory
        .create_pair_commit(token_pair, actor(PAIR_ACTOR), Ok(()))
        .unwrap();
    assert_eq!(
        query_pair(factory.state(), (actor(TOKEN_A), actor(TOKEN_B))),
        actor(PAIR_ACTOR)
    );
    assert_eq!(
        query_pair(factory.state(), (actor(TOKEN_B), actor(TOKEN_A))),
        actor(PAIR_ACTOR)
    );
    assert_eq!(query_pair(factory.state(), (actor(7), actor(9))), actor(0));
    assert_eq!(
        all_pairs(factory.state()),
        vec![((actor(TOKEN_A), actor(TOKEN_B)), actor(PAIR_ACTOR))]
    );
}

#[test]
fn failed_pair_initialization_is_reported() {
    let mut factory = init_factory();
    let token_pair = factory
        .create_pair_start(actor(TOKEN_A), actor(TOKEN_B))
        .unwrap();
    let result = factory.create_pair_commit(
        token_pair,
        actor(PAIR_ACTOR),
        Err(dex::io::Error::ZeroActorId),
    );
    assert_eq!(
        result,
        Err(Error::PairCreationFailed(dex::io::Error::ZeroActorId))
    );
    assert_eq!(all_pairs_length(factory.state()), 0);
}
