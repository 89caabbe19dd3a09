//! What has happened before a run asks for something.

use vstd::prelude::*;
use crate::laws::{
    asks, at, completes, lemma_at, lemma_completed, lemma_in_order, passes, taken,
};
use crate::plan::{Scenario, Who};
use crate::protocol::{Action, Event, ReplyView, RequestView};
use crate::run::well_formed;
use crate::state::{Run, Status};

verus! {

/// The earlier exchange that completed the step at `pc`.
proof fn lemma_earlier_step(scenario: Scenario, events: Seq<ReplyView>, i: int, pc: usize) -> (j: int)
    requires
        taken(scenario, events),
        0 <= i <= events.len(),
        pc < at(scenario, events, i).pc,
    ensures
        0 <= j < i,
        completes(scenario, events, j, pc),
        well_formed(at(scenario, events, j)),
        at(scenario, events, j).scenario == scenario,
{
    let j = lemma_completed(scenario, events, i, pc);
    lemma_in_order(scenario, events, j);
    j
}

/// Whether the exchange at `j` asks for this and is done.
pub open spec fn is_done(
    scenario: Scenario,
    events: Seq<ReplyView>,
    j: int,
    request: RequestView,
) -> bool {
    &&& 0 <= j < events.len()
    &&& asks(at(scenario, events, j)) == Some(request)
    &&& events[j] is Done
}

/// Whether the exchange at `j` starts a node that then has this identity.
pub open spec fn is_up(
    scenario: Scenario,
    events: Seq<ReplyView>,
    j: int,
    node: Who,
    id: Seq<char>,
) -> bool {
    &&& 0 <= j < events.len()
    &&& asks(at(scenario, events, j)) == Some(RequestView::StartNode { node })
    &&& events[j] == ReplyView::NodeUp(id)
}

/// How a scenario's chain is started: activating at 150, or never at level 0.
pub open spec fn chain_request(scenario: Scenario) -> RequestView {
    Action::StartChain {
        activation: if scenario == Scenario::Activation {
            Some(150u64)
        } else {
            None
        },
    }
}

/// The exchange that starts the chain.
proof fn lemma_chain_up(scenario: Scenario, events: Seq<ReplyView>, i: int) -> (j: int)
    requires
        taken(scenario, events),
        0 <= i <= events.len(),
        at(scenario, events, i).pc > 1,
    ensures
        0 <= j < i,
        is_done(scenario, events, j, chain_request(scenario)),
{
    let j = lemma_earlier_step(scenario, events, i, 1);
    lemma_at(scenario, events, j);
    j
}

/// The exchange that starts the relay.
proof fn lemma_relay_up(scenario: Scenario, events: Seq<ReplyView>, i: int) -> (j: int)
    requires
        taken(scenario, events),
        0 <= i <= events.len(),
        at(scenario, events, i).pc > if scenario == Scenario::Activation {
            4int
        } else {
            7int
        },
    ensures
        0 <= j < i,
        is_done(scenario, events, j, RequestView::StartRelay),
{
    let j = lemma_earlier_step(
        scenario,
        events,
        i,
        if scenario == Scenario::Activation {
            4
        } else {
            7
        },
    );
    lemma_at(scenario, events, j);
    j
}

/// The exchange that starts a node of the activation scenario.
proof fn lemma_node_up(events: Seq<ReplyView>, i: int, node: Who) -> (up: (int, Seq<char>))
    requires
        taken(Scenario::Activation, events),
        0 <= i <= events.len(),
        at(Scenario::Activation, events, i).pc > match node {
            Who::Alice => 5int,
            Who::Bob => 6int,
            Who::Carol => 30int,
        },
    ensures
        0 <= up.0 < i,
        is_up(Scenario::Activation, events, up.0, node, up.1),
{
    let j = lemma_earlier_step(
        Scenario::Activation,
        events,
        i,
        match node {
            Who::Alice => 5,
            Who::Bob => 6,
            Who::Carol => 30,
        },
    );
    lemma_at(Scenario::Activation, events, j);
    (j, events[j]->NodeUp_0)
}

/// The exchange that starts Alice at level 0.
proof fn lemma_level_zero_up(events: Seq<ReplyView>, i: int) -> (up: (int, Seq<char>))
    requires
        taken(Scenario::KnotsBackend, events),
        0 <= i <= events.len(),
        at(Scenario::KnotsBackend, events, i).pc > 8,
    ensures
        0 <= up.0 < i,
        is_up(Scenario::KnotsBackend, events, up.0, Who::Alice, up.1),
{
    let j = lemma_earlier_step(Scenario::KnotsBackend, events, i, 8);
    lemma_at(Scenario::KnotsBackend, events, j);
    (j, events[j]->NodeUp_0)
}

/// No chain is started before a node binary is given or built.
pub proof fn law_binary_before_chain(scenario: Scenario, events: Seq<ReplyView>, i: int)
    requires
        taken(scenario, events),
        0 <= i < events.len(),
        asks(at(scenario, events, i)) matches Some(Action::StartChain { .. }),
    ensures
        exists|j: int|
            0 <= j < i && (#[trigger] events[j] == ReplyView::BinaryKnown(true) || is_done(
                scenario,
                events,
                j,
                RequestView::BuildNode { blake2b: scenario == Scenario::Activation },
            )),
{
    lemma_in_order(scenario, events, i);
    let j = lemma_earlier_step(scenario, events, i, 0);
    lemma_at(scenario, events, j);
    assert(events[j] == ReplyView::BinaryKnown(true) || is_done(
        scenario,
        events,
        j,
        RequestView::BuildNode { blake2b: scenario == Scenario::Activation },
    ));
}

/// Nothing is asked of the chain, and no node is started against it, before the
/// chain is started: activating at 150, or never at level 0.
pub proof fn law_chain_before_use(scenario: Scenario, events: Seq<ReplyView>, i: int)
    requires
        taken(scenario, events),
        0 <= i < events.len(),
        asks(at(scenario, events, i)) matches Some(request) && (request is Mine
            || request is ReadChainInfo || request is ReadBlockHash || request is ReadHeaderInfo
            || request is ReadRawHeader || request is StartNode),
    ensures
        exists|j: int|
            j < i && #[trigger] is_done(scenario, events, j, chain_request(scenario)),
{
    lemma_in_order(scenario, events, i);
    let j = lemma_chain_up(scenario, events, i);
}

/// No node is started before the relay is, in either scenario.
pub proof fn law_relay_before_nodes(scenario: Scenario, events: Seq<ReplyView>, i: int)
    requires
        taken(scenario, events),
        0 <= i < events.len(),
        asks(at(scenario, events, i)) matches Some(Action::StartNode { .. }),
    ensures
        exists|j: int| j < i && #[trigger] is_done(scenario, events, j, RequestView::StartRelay),
{
    lemma_in_order(scenario, events, i);
    let j = lemma_relay_up(scenario, events, i);
}

/// The node that a request is put to.
pub open spec fn asked_node(request: RequestView) -> Option<Who> {
    match request {
        Action::OpenChannel { from, .. } => Some(from),
        Action::AskReady { node, .. } => Some(node),
        Action::ListChannels { node } => Some(node),
        Action::ReadNodeHeight { node } => Some(node),
        Action::ReadBalance { node } => Some(node),
        Action::MakeInvoice { node, .. } => Some(node),
        Action::PayInvoice { node, .. } => Some(node),
        Action::NewAddress { node } => Some(node),
        _ => None,
    }
}

proof fn lemma_asked_late(run: Run<Seq<char>>, node: Who)
    requires
        well_formed(run),
        asks(run) matches Some(request) && asked_node(request) == Some(node),
    ensures
        run.scenario == Scenario::Activation ==> run.pc > match node {
            Who::Alice => 5int,
            Who::Bob => 6int,
            Who::Carol => 30int,
        },
        run.scenario == Scenario::KnotsBackend ==> run.pc > 8 && node == Who::Alice,
{
}

/// Nothing is asked of a node before it is up.
pub proof fn law_node_before_use(scenario: Scenario, events: Seq<ReplyView>, i: int, node: Who)
    requires
        taken(scenario, events),
        0 <= i < events.len(),
        asks(at(scenario, events, i)) matches Some(request) && asked_node(request) == Some(node),
    ensures
        exists|j: int, id: Seq<char>| j < i && #[trigger] is_up(scenario, events, j, node, id),
{
    lemma_in_order(scenario, events, i);
    lemma_asked_late(at(scenario, events, i), node);
    if scenario == Scenario::Activation {
        let up = lemma_node_up(events, i, node);
        assert(is_up(scenario, events, up.0, node, up.1));
    } else {
        let up = lemma_level_zero_up(events, i);
        assert(is_up(scenario, events, up.0, node, up.1));
    }
}

/// A run that passes has had the chain, the relay and its nodes up: all three in
/// the activation scenario, and Alice at level 0.
pub proof fn law_pass_had_all_up(scenario: Scenario, events: Seq<ReplyView>, node: Who)
    requires
        passes(scenario, events),
        scenario == Scenario::Activation || node == Who::Alice,
    ensures
        exists|j: int|
            #[trigger] is_done(scenario, events, j, chain_request(scenario)),
        exists|j: int| #[trigger] is_done(scenario, events, j, RequestView::StartRelay),
        exists|j: int, id: Seq<char>| #[trigger] is_up(scenario, events, j, node, id),
{
    let end = events.len() as int;
    assert(events.take(end) =~= events);
    lemma_in_order(scenario, events, end);
    let chain = lemma_chain_up(scenario, events, end);
    let relay = lemma_relay_up(scenario, events, end);
    if scenario == Scenario::Activation {
        let up = lemma_node_up(events, end, node);
        assert(is_up(scenario, events, up.0, node, up.1));
    } else {
        let up = lemma_level_zero_up(events, end);
        assert(is_up(scenario, events, up.0, node, up.1));
    }
}

} // verus!
