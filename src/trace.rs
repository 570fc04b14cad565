//! What holds of every run of the sequencer, whatever events it is fed.
use vstd::prelude::*;
use crate::bootstrap::{well_formed, next, Action, BootstrapConfig, Event, Phase, SequencerModel};
use crate::discovery::{resolution, DiscoverOutcome};
use crate::model::{BootstrapError, EntityDescriptor};
use crate::registration::RegisterOutcome;

verus! {

/// A sequencer that has not started, made with `config` and `entities`.
pub open spec fn start(config: BootstrapConfig, entities: Vec<EntityDescriptor>) -> SequencerModel {
    SequencerModel { config, phase: Phase::Idle, batch: Some(entities) }
}

/// Feeds `events` to the sequencer in order: the state reached and the action
/// asked after each event.
pub open spec fn run(m: SequencerModel, events: Seq<Event>) -> (SequencerModel, Seq<Action>)
    decreases events.len(),
{
    if events.len() == 0 {
        (m, Seq::empty())
    } else {
        let prev = run(m, events.drop_last());
        let last = next(prev.0, events.last());
        (last.0, prev.1.push(last.1))
    }
}

/// Event `i` is a lookup that resolved to a usable registry at `uri`.
pub open spec fn discovered_at(
    config: BootstrapConfig,
    events: Seq<Event>,
    i: int,
    uri: String,
) -> bool {
    &&& 0 <= i < events.len()
    &&& events[i] matches Event::Discovery(outcome)
    &&& resolution(config.registry, outcome) == Ok::<String, BootstrapError>(uri)
}

/// No action asks for a registration.
pub open spec fn issues_no_register(actions: Seq<Action>) -> bool {
    forall|i: int| 0 <= i < actions.len() ==> !((#[trigger] actions[i]) is Register)
}

/// Action `j` asks for a registration, and no other action does.
pub open spec fn registers_only_at(actions: Seq<Action>, j: int) -> bool {
    &&& 0 <= j < actions.len()
    &&& actions[j] is Register
    &&& forall|i: int| 0 <= i < actions.len() && (#[trigger] actions[i]) is Register ==> i == j
}

/// One of the first `n` actions asks to listen.
pub open spec fn listens_before(actions: Seq<Action>, n: int) -> bool {
    exists|l: int| 0 <= l < n && l < actions.len() && (#[trigger] actions[l]) is Listen
}

/// An error that only the steps before registration give.
pub open spec fn fails_before_registering(e: BootstrapError) -> bool {
    ||| e is ListenError
    ||| e is LookupError
    ||| e is NotFoundError
    ||| e is MismatchError
}

/// What every run from a fresh sequencer keeps: the batch is still held
/// exactly until the one registration is asked for, each step past listening
/// and discovery has its cause among the earlier events, and failures before
/// registration leave the batch unsent.
spec fn trace_inv(
    config: BootstrapConfig,
    entities: Vec<EntityDescriptor>,
    events: Seq<Event>,
    m: SequencerModel,
    actions: Seq<Action>,
) -> bool {
    &&& actions.len() == events.len()
    &&& m.config == config
    &&& well_formed(m)
    &&& m.batch is Some ==> m.batch == Some(entities) && issues_no_register(actions)
    &&& m.batch is None ==> exists|j: int|
        {
            &&& registers_only_at(actions, j)
            &&& actions[j]->entities == entities
            &&& listens_before(actions, j)
            &&& exists|i: int| i < j && discovered_at(config, events, i, actions[j]->registry_uri)
        }
    &&& (m.phase is Listening || m.phase is Discovering || m.phase is Discovered) ==> listens_before(
        actions,
        actions.len() as int,
    )
    &&& m.phase matches Phase::Discovered(uri) ==> exists|i: int| discovered_at(config, events, i, uri)
    &&& m.phase is Ready ==> exists|k: int|
        {
            &&& 0 <= k < events.len()
            &&& events[k] == Event::Registration(RegisterOutcome::Accepted)
            &&& forall|j: int| 0 <= j < actions.len() && (#[trigger] actions[j]) is Register ==> j < k
        }
    &&& m.phase matches Phase::Failed(e) ==> (fails_before_registering(e) ==> m.batch is Some)
}

proof fn lemma_trace_inv(config: BootstrapConfig, entities: Vec<EntityDescriptor>, events: Seq<Event>)
    ensures
        trace_inv(
            config,
            entities,
            events,
            run(start(config, entities), events).0,
            run(start(config, entities), events).1,
        ),
    decreases events.len(),
{
    let s = start(config, entities);
    if events.len() == 0 {
        return;
    }
    let prev = events.drop_last();
    lemma_trace_inv(config, entities, prev);
    let (m1, acts1) = run(s, prev);
    let e = events.last();
    let (m2, a) = next(m1, e);
    let acts2 = acts1.push(a);
    assert(run(s, events) == (m2, acts2));
    let n = prev.len() as int;
    assert forall|i: int| 0 <= i < n implies events[i] == prev[i] by {}
    assert forall|i: int| 0 <= i < n implies acts2[i] == acts1[i] by {}
    // Witnesses found for the shorter run stay witnesses.
    assert forall|i: int, uri: String| discovered_at(config, prev, i, uri) implies discovered_at(
        config,
        events,
        i,
        uri,
    ) by {
        assert(events[i] == prev[i]);
    }
    if listens_before(acts1, n) {
        let l = choose|l: int| 0 <= l < n && l < acts1.len() && (#[trigger] acts1[l]) is Listen;
        assert(acts2[l] is Listen);
        assert(listens_before(acts2, n + 1));
    }
    if m1.batch is None {
        let j = choose|j: int|
            {
                &&& registers_only_at(acts1, j)
                &&& acts1[j]->entities == entities
                &&& listens_before(acts1, j)
                &&& exists|i: int| i < j && discovered_at(config, prev, i, acts1[j]->registry_uri)
            };
        let i = choose|i: int| i < j && discovered_at(config, prev, i, acts1[j]->registry_uri);
        let l = choose|l: int| 0 <= l < j && l < acts1.len() && (#[trigger] acts1[l]) is Listen;
        assert(acts2[l] is Listen);
        assert(listens_before(acts2, j));
        assert(discovered_at(config, events, i, acts2[j]->registry_uri));
        assert(registers_only_at(acts2, j));
        if m1.phase is Ready {
            let k = choose|k: int|
                {
                    &&& 0 <= k < prev.len()
                    &&& prev[k] == Event::Registration(RegisterOutcome::Accepted)
                    &&& forall|jj: int| 0 <= jj < acts1.len() && (#[trigger] acts1[jj]) is Register ==> jj < k
                };
            assert(events[k] == prev[k]);
        }
    } else {
        assert(m1.batch == Some(entities));
        if a is Register {
            let uri = m1.phase->Discovered_0;
            let i = choose|i: int| discovered_at(config, prev, i, uri);
            assert(discovered_at(config, events, i, acts2[n]->registry_uri));
            assert(registers_only_at(acts2, n));
            assert(listens_before(acts2, n));
        } else {
            assert(issues_no_register(acts2));
        }
        if m2.phase is Discovered && m1.phase is Discovering {
            assert(discovered_at(config, events, n, m2.phase->Discovered_0));
        }
    }
}

/// However the events come, at most one registration is asked for, and it
/// carries the whole batch of entities that the sequencer was made with.
pub proof fn lemma_one_registration_call(
    config: BootstrapConfig,
    entities: Vec<EntityDescriptor>,
    events: Seq<Event>,
)
    ensures
        ({
            let actions = run(start(config, entities), events).1;
            &&& forall|i: int| 0 <= i < actions.len() && (#[trigger] actions[i]) is Register
                ==> actions[i]->entities == entities
            &&& forall|i: int, j: int|
                0 <= i < actions.len() && 0 <= j < actions.len() && (#[trigger] actions[i]) is Register
                    && (#[trigger] actions[j]) is Register ==> i == j
        }),
{
    lemma_trace_inv(config, entities, events);
}

/// A registration is asked for only after the local address was bound and a
/// lookup resolved to a registry with the expected transport, and it goes to
/// that registry.
pub proof fn lemma_register_follows_discovery(
    config: BootstrapConfig,
    entities: Vec<EntityDescriptor>,
    events: Seq<Event>,
)
    ensures
        ({
            let actions = run(start(config, entities), events).1;
            forall|j: int| 0 <= j < actions.len() && (#[trigger] actions[j]) is Register ==> {
                &&& listens_before(actions, j)
                &&& exists|i: int| i < j && discovered_at(config, events, i, actions[j]->registry_uri)
            }
        }),
{
    lemma_trace_inv(config, entities, events);
}

/// The sequencer is ready only after a lookup resolved to a usable registry
/// and, later, the registry took the registration.
pub proof fn lemma_ready_needs_discovery_then_registration(
    config: BootstrapConfig,
    entities: Vec<EntityDescriptor>,
    events: Seq<Event>,
)
    requires
        run(start(config, entities), events).0.phase is Ready,
    ensures
        exists|i: int, k: int|
            {
                &&& 0 <= i < k < events.len()
                &&& (#[trigger] events[i]) matches Event::Discovery(outcome)
                &&& resolution(config.registry, outcome) is Ok
                &&& #[trigger] events[k] == Event::Registration(RegisterOutcome::Accepted)
            },
{
    let s = start(config, entities);
    lemma_trace_inv(config, entities, events);
    let (m, actions) = run(s, events);
    let j = choose|j: int|
        {
            &&& registers_only_at(actions, j)
            &&& actions[j]->entities == entities
            &&& listens_before(actions, j)
            &&& exists|i: int| i < j && discovered_at(config, events, i, actions[j]->registry_uri)
        };
    let i = choose|i: int| i < j && discovered_at(config, events, i, actions[j]->registry_uri);
    let k = choose|k: int|
        {
            &&& 0 <= k < events.len()
            &&& events[k] == Event::Registration(RegisterOutcome::Accepted)
            &&& forall|jj: int| 0 <= jj < actions.len() && (#[trigger] actions[jj]) is Register ==> jj < k
        };
    assert(actions[j] is Register);
    assert(discovered_at(config, events, i, actions[j]->registry_uri));
    assert(events[k] == Event::Registration(RegisterOutcome::Accepted));
}

/// When the bootstrap failed at binding or at the lookup (including a registry
/// that speaks another transport), no registration was ever asked for.
pub proof fn lemma_failed_discovery_never_registers(
    config: BootstrapConfig,
    entities: Vec<EntityDescriptor>,
    events: Seq<Event>,
)
    requires
        run(start(config, entities), events).0.phase matches Phase::Failed(e)
            && fails_before_registering(e),
    ensures
        issues_no_register(run(start(config, entities), events).1),
{
    lemma_trace_inv(config, entities, events);
}

/// Started, bound, given a lookup outcome and a registration outcome, the
/// sequencer is ready exactly when the lookup resolved to a usable registry
/// and the registry took the batch.
pub proof fn lemma_bootstrap_reaches_ready(
    config: BootstrapConfig,
    entities: Vec<EntityDescriptor>,
    found: DiscoverOutcome,
    registered: RegisterOutcome,
)
    ensures
        run(
            start(config, entities),
            seq![
                Event::Start,
                Event::Bound,
                Event::Discovery(found),
                Event::Proceed,
                Event::Registration(registered),
            ],
        ).0.phase is Ready <==> (resolution(config.registry, found) is Ok && registered
            == RegisterOutcome::Accepted),
{
    let s = start(config, entities);
    let e5 = seq![
        Event::Start,
        Event::Bound,
        Event::Discovery(found),
        Event::Proceed,
        Event::Registration(registered),
    ];
    let e4 = seq![Event::Start, Event::Bound, Event::Discovery(found), Event::Proceed];
    let e3 = seq![Event::Start, Event::Bound, Event::Discovery(found)];
    let e2 = seq![Event::Start, Event::Bound];
    let e1 = seq![Event::Start];
    assert(e5.drop_last() =~= e4);
    assert(e4.drop_last() =~= e3);
    assert(e3.drop_last() =~= e2);
    assert(e2.drop_last() =~= e1);
    assert(e1.drop_last() =~= Seq::<Event>::empty());
    assert(run(s, Seq::<Event>::empty()).0 == s);
    assert(run(s, e1).0 == next(s, Event::Start).0);
    let m1 = run(s, e1).0;
    assert(m1.phase is Listening);
    assert(run(s, e2).0 == next(m1, Event::Bound).0);
    let m2 = run(s, e2).0;
    assert(m2.phase is Discovering);
    assert(run(s, e3).0 == next(m2, Event::Discovery(found)).0);
    let m3 = run(s, e3).0;
    assert(run(s, e4).0 == next(m3, Event::Proceed).0);
    let m4 = run(s, e4).0;
    assert(run(s, e5).0 == next(m4, Event::Registration(registered)).0);
    if resolution(config.registry, found) is Ok {
        assert(m3.phase is Discovered);
        assert(m4.phase is Registering);
    } else {
        assert(m3.phase is Failed);
        assert(m4.phase is Failed);
    }
}

} // verus!
