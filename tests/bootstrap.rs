use trailer_connected_provider::bootstrap::{Action, BootstrapConfig, Event, Phase, Sequencer};
use trailer_connected_provider::discovery::DiscoverOutcome;
use trailer_connected_provider::model::{
    BootstrapError, DiscoveredService, EntityDescriptor, ServiceIdentity,
};
use trailer_connected_provider::registration::{describe_entity, RegisterOutcome};

fn config() -> BootstrapConfig {
    BootstrapConfig {
        broker_uri: String::from("http://0.0.0.0:50000"),
        registry: ServiceIdentity {
            namespace: String::from("ns"),
            name: String::from("twin"),
            version: String::from("1.0"),
            communication_kind: String::from("grpc+proto"),
            communication_reference: String::from("R"),
        },
        provider_authority: String::from("0.0.0.0:55000"),
    }
}

fn entity(id: &str) -> EntityDescriptor {
    describe_entity(id, "name", "description", "http://0.0.0.0:55000")
}

fn broker_answer(kind: &str) -> DiscoverOutcome {
    DiscoverOutcome::Answered(Some(DiscoveredService {
        uri: String::from("http://host:9000"),
        communication_kind: String::from(kind),
        communication_reference: String::from("R"),
    }))
}

/// What a stub registry saw: one entry per registration call.
struct SpyRegistry {
    calls: Vec<(String, Vec<EntityDescriptor>)>,
    answer: RegisterOutcome,
}

/// Drives a sequencer against a stub broker and a spy registry, as a process
/// would, and returns the final phase and whether the provider got to serve.
fn drive(seq: &mut Sequencer, broker: DiscoverOutcome, registry: &mut SpyRegistry) -> bool {
    let mut event = Event::Start;
    let mut broker = Some(broker);
    loop {
        match seq.step(event) {
            Action::Listen(_) => event = Event::Bound,
            Action::Discover { .. } => event = Event::Discovery(broker.take().unwrap()),
            Action::Continue => event = Event::Proceed,
            Action::Register { registry_uri, entities } => {
                registry.calls.push((registry_uri, entities));
                event = Event::Registration(registry.answer.clone());
            }
            Action::Serve => return true,
            Action::Abort => return false,
            Action::Nothing => panic!("the driver fed an event out of place"),
        }
    }
}

#[test]
fn end_to_end_bootstrap_reaches_ready() {
    let mut seq = Sequencer::new(config(), vec![entity("e1")]);
    let mut registry = SpyRegistry { calls: Vec::new(), answer: RegisterOutcome::Accepted };
    assert!(drive(&mut seq, broker_answer("grpc+proto"), &mut registry));
    assert_eq!(seq.phase(), &Phase::Ready);
    assert_eq!(registry.calls.len(), 1);
    assert_eq!(registry.calls[0].0, "http://host:9000");
    assert_eq!(registry.calls[0].1, vec![entity("e1")]);
}

#[test]
fn rest_service_aborts_without_registering() {
    let mut seq = Sequencer::new(config(), vec![entity("e1")]);
    let mut registry = SpyRegistry { calls: Vec::new(), answer: RegisterOutcome::Accepted };
    assert!(!drive(&mut seq, broker_answer("rest"), &mut registry));
    assert_eq!(seq.phase(), &Phase::Failed(BootstrapError::MismatchError));
    assert_eq!(registry.calls.len(), 0);
}

#[test]
fn missing_service_aborts_without_registering() {
    let mut seq = Sequencer::new(config(), vec![entity("e1")]);
    let mut registry = SpyRegistry { calls: Vec::new(), answer: RegisterOutcome::Accepted };
    assert!(!drive(&mut seq, DiscoverOutcome::Answered(None), &mut registry));
    assert_eq!(seq.phase(), &Phase::Failed(BootstrapError::NotFoundError));
    assert_eq!(registry.calls.len(), 0);
}

#[test]
fn batch_of_three_goes_in_one_call() {
    let batch = vec![entity("a"), entity("b"), entity("c")];
    let mut seq = Sequencer::new(config(), batch.clone());
    let mut registry = SpyRegistry { calls: Vec::new(), answer: RegisterOutcome::Accepted };
    assert!(drive(&mut seq, broker_answer("grpc+proto"), &mut registry));
    assert_eq!(registry.calls.len(), 1);
    assert_eq!(registry.calls[0].1, batch);
}

#[test]
fn rejected_registration_fails_the_bootstrap() {
    let mut seq = Sequencer::new(config(), vec![entity("e1")]);
    let answer = RegisterOutcome::Rejected(String::from("denied"));
    let mut registry = SpyRegistry { calls: Vec::new(), answer };
    assert!(!drive(&mut seq, broker_answer("grpc+proto"), &mut registry));
    let expected = Phase::Failed(BootstrapError::RegistrationError(String::from("denied")));
    assert_eq!(seq.phase(), &expected);
    assert_eq!(registry.calls.len(), 1);
}

#[test]
fn steps_ask_for_listen_then_lookup() {
    let mut seq = Sequencer::new(config(), vec![entity("e1")]);
    assert_eq!(seq.step(Event::Start), Action::Listen(String::from("0.0.0.0:55000")));
    assert_eq!(seq.phase(), &Phase::Listening);
    match seq.step(Event::Bound) {
        Action::Discover { broker_uri, request } => {
            assert_eq!(broker_uri, "http://0.0.0.0:50000");
            assert_eq!(request.namespace, "ns");
            assert_eq!(request.name, "twin");
            assert_eq!(request.version, "1.0");
        }
        other => panic!("expected a lookup, got {:?}", other),
    }
    assert_eq!(seq.phase(), &Phase::Discovering);
}

#[test]
fn registration_is_not_asked_before_discovery() {
    let mut seq = Sequencer::new(config(), vec![entity("e1")]);
    assert_eq!(seq.step(Event::Proceed), Action::Nothing);
    assert_eq!(seq.step(Event::Registration(RegisterOutcome::Accepted)), Action::Nothing);
    assert_eq!(seq.phase(), &Phase::Idle);
    seq.step(Event::Start);
    seq.step(Event::Bound);
    assert_eq!(seq.step(Event::Proceed), Action::Nothing);
    assert_eq!(seq.phase(), &Phase::Discovering);
    assert_eq!(seq.step(broker_event()), Action::Continue);
    assert_eq!(seq.phase(), &Phase::Discovered(String::from("http://host:9000")));
}

fn broker_event() -> Event {
    Event::Discovery(broker_answer("grpc+proto"))
}

#[test]
fn bind_failure_is_fatal() {
    let mut seq = Sequencer::new(config(), vec![entity("e1")]);
    seq.step(Event::Start);
    assert_eq!(seq.step(Event::BindFailed(String::from("in use"))), Action::Abort);
    let expected = Phase::Failed(BootstrapError::ListenError(String::from("in use")));
    assert_eq!(seq.phase(), &expected);
    assert_eq!(seq.step(Event::Bound), Action::Nothing);
    assert_eq!(seq.phase(), &expected);
}

#[test]
fn unreachable_broker_is_fatal() {
    let mut seq = Sequencer::new(config(), vec![entity("e1")]);
    let mut registry = SpyRegistry { calls: Vec::new(), answer: RegisterOutcome::Accepted };
    let outcome = DiscoverOutcome::Unreachable(String::from("refused"));
    assert!(!drive(&mut seq, outcome, &mut registry));
    let expected = Phase::Failed(BootstrapError::ConnectionError(String::from("refused")));
    assert_eq!(seq.phase(), &expected);
    assert_eq!(registry.calls.len(), 0);
}

#[test]
fn ready_ignores_further_events() {
    let mut seq = Sequencer::new(config(), vec![entity("e1")]);
    let mut registry = SpyRegistry { calls: Vec::new(), answer: RegisterOutcome::Accepted };
    assert!(drive(&mut seq, broker_answer("grpc+proto"), &mut registry));
    assert_eq!(seq.step(Event::Proceed), Action::Nothing);
    assert_eq!(seq.step(Event::Start), Action::Nothing);
    assert_eq!(seq.phase(), &Phase::Ready);
    assert_eq!(seq.config(), &config());
}
