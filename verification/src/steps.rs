//! What each step of a scenario asks for, and what each reply to it leads to.

use vstd::prelude::*;
use vstd::utf8::encode_utf8;
use crate::channel::{law_first_is_found, law_none_is_found, Channel};
use crate::failure::{failure_text, hex_error_text, Failure};
use crate::hexadecimal::decoded;
use crate::laws::asks;
use crate::plan::{context_text, Scenario, Who};
use crate::protocol::{answers, Action, Event, ReplyView, RequestView};
use crate::run::{accepts, next, start_of, well_formed};
use crate::state::{Notes, Run, Stage, Status};
use crate::text::{decimal, hex_digits};

verus! {

/// Whether a run is in order and stands at a stage of a step of a scenario.
pub open spec fn stands(
    run: Run<Seq<char>>,
    scenario: Scenario,
    pc: int,
    stage: Stage,
) -> bool {
    &&& well_formed(run)
    &&& run.scenario == scenario
    &&& run.pc == pc
    &&& run.status == Status::<Seq<char>>::Running(stage)
}

/// Whether an event completes the step that a run is at, and leaves these notes.
pub open spec fn goes_on(
    run: Run<Seq<char>>,
    event: ReplyView,
    notes: Notes<Seq<char>>,
) -> bool {
    &&& next(run, event).scenario == run.scenario
    &&& next(run, event).pc == run.pc + 1
    &&& next(run, event).notes == notes
    &&& next(run, event).status !is Failed
}

/// Whether an event brings a run to another stage of its step, and changes
/// nothing else.
pub open spec fn moves_to(run: Run<Seq<char>>, event: ReplyView, stage: Stage) -> bool {
    next(run, event) == (Run { status: Status::Running(stage), ..run })
}

/// Whether an event fails a run at its step, for a cause in these words, and
/// reported under those of a context where there is one.
pub open spec fn fails(
    run: Run<Seq<char>>,
    event: ReplyView,
    context: Option<Seq<char>>,
    words: Seq<char>,
) -> bool {
    &&& next(run, event).scenario == run.scenario
    &&& next(run, event).pc == run.pc
    &&& next(run, event).notes == run.notes
    &&& next(run, event).status matches Status::Failed(fault)
    &&& failure_text(fault.failure) == words
    &&& match (context, fault.context) {
        (None, None) => true,
        (Some(wanted), Some(given)) => context_text(given) == wanted,
        _ => false,
    }
}

/// A run starts at its first step, and what it asks first is whether a node
/// binary is given.
pub proof fn law_start(scenario: Scenario)
    ensures
        stands(start_of(scenario), scenario, 0, Stage::Ask),
        asks(start_of(scenario)) == Some(RequestView::ProbeBinary),
{
}

/// A step that is completed leads to the start of the next: ten samples may be
/// tried where a funding block is sampled, and the last step leads to a pass.
pub proof fn law_next_step_begins(run: Run<Seq<char>>, event: ReplyView)
    requires
        well_formed(run),
        accepts(run, event),
        next(run, event).pc != run.pc,
    ensures
        next(run, event).pc == run.pc + 1,
        next(run, event).pc == (if run.scenario == Scenario::Activation {
            40int
        } else {
            10int
        }) <==> next(run, event).status is Passed,
        next(run, event).status is Passed || next(run, event).status == Status::<
            Seq<char>,
        >::Running(
            if run.scenario == Scenario::Activation && (next(run, event).pc == 10 || next(
                run,
                event,
            ).pc == 23 || next(run, event).pc == 34) {
                Stage::SampleHeight { left: 10 }
            } else {
                Stage::Ask
            },
        ),
{
}

/// Whatever fits what a run asks for is taken, and nothing else is. The one
/// exception is the last reading of a sample.
pub proof fn law_what_fits_is_taken(run: Run<Seq<char>>, event: ReplyView)
    requires
        well_formed(run),
    ensures
        accepts(run, event) ==> (asks(run) matches Some(request) && answers(request, event)),
        !(run.status matches Status::Running(Stage::SampleAgain { .. })) ==> (accepts(run, event)
            <==> (asks(run) matches Some(request) && answers(request, event))),
        run.status is Running <==> asks(run) is Some,
{
}

/// A node binary that is given is used, and without one a node is built.
pub proof fn law_binary_is_found(run: Run<Seq<char>>)
    requires
        stands(run, run.scenario, 0, Stage::Ask),
    ensures
        asks(run) == Some(RequestView::ProbeBinary),
        goes_on(run, Event::BinaryKnown(true), run.notes),
        moves_to(run, Event::BinaryKnown(false), Stage::Build),
{
}

/// The node is built to read v2 headers for the activation scenario only. A
/// build that fails ends the scenario in its own words.
pub proof fn law_binary_is_built(run: Run<Seq<char>>, error: Seq<char>)
    requires
        stands(run, run.scenario, 0, Stage::Build),
    ensures
        asks(run) == Some(
            RequestView::BuildNode { blake2b: run.scenario == Scenario::Activation },
        ),
        goes_on(run, Event::Done, run.notes),
        fails(run, Event::Failed(error), None, error),
{
}

/// The chain activates at 150 in the activation scenario, and never at level 0.
pub proof fn law_chain_is_started(run: Run<Seq<char>>)
    requires
        stands(run, run.scenario, 1, Stage::Ask),
    ensures
        asks(run) == Some(
            RequestView::StartChain {
                activation: if run.scenario == Scenario::Activation {
                    Some(150u64)
                } else {
                    None
                },
            },
        ),
        goes_on(run, Event::Done, run.notes),
{
}

/// Both chains are mined to 110 first. In the activation scenario the chain is
/// then mined to 149, by 6 across activation, and by 2 more before a node
/// starts cold.
pub proof fn law_chain_is_mined(run: Run<Seq<char>>)
    requires
        stands(run, run.scenario, run.pc as int, Stage::Ask),
        run.pc == 2 || run.scenario == Scenario::Activation && (run.pc == 12 || run.pc == 16
            || run.pc == 28),
    ensures
        asks(run) matches Some(Action::Mine { blocks }) && (if run.pc == 2 {
            blocks == 110
        } else if run.pc == 12 {
            run.notes.height_before + blocks == 149
        } else if run.pc == 16 {
            blocks == 6
        } else {
            blocks == 2
        }),
        goes_on(run, Event::Done, run.notes),
{
}

/// A chain starts at 110 exactly, and the height is noted.
pub proof fn law_start_height_is_judged(run: Run<Seq<char>>, height: u64, error: Seq<char>)
    requires
        stands(run, run.scenario, 3, Stage::Ask),
    ensures
        asks(run) == Some(RequestView::ReadChainInfo),
        height == 110 ==> goes_on(
            run,
            Event::Blocks(Some(height)),
            Notes { height, ..run.notes },
        ),
        height != 110 ==> fails(
            run,
            Event::Blocks(Some(height)),
            None,
            "expected height 110, got "@ + decimal(height as nat),
        ),
        fails(run, Event::Blocks(None), None, "blocks missing"@),
        fails(run, Event::Failed(error), None, "getblockchaininfo failed: "@ + error),
{
}

/// The height that is read with the channel confirmed completes its step exactly
/// where it is below 150, and is noted.
pub proof fn law_height_before_is_judged(run: Run<Seq<char>>, height: u64, error: Seq<char>)
    requires
        stands(run, Scenario::Activation, 11, Stage::Ask),
    ensures
        asks(run) == Some(RequestView::ReadChainInfo),
        height < 150 ==> goes_on(
            run,
            Event::Blocks(Some(height)),
            Notes { height_before: height, ..run.notes },
        ),
        height >= 150 ==> fails(
            run,
            Event::Blocks(Some(height)),
            None,
            "channel confirmed at "@ + decimal(height as nat)
                + ", at or past activation — nothing left to cross"@,
        ),
        fails(run, Event::Blocks(None), None, "blocks missing"@),
        fails(run, Event::Failed(error), None, "getblockchaininfo failed: "@ + error),
{
}

/// The last v1 block is at 149 exactly, and the height is noted.
pub proof fn law_last_v1_height_is_judged(run: Run<Seq<char>>, height: u64, error: Seq<char>)
    requires
        stands(run, Scenario::Activation, 13, Stage::Ask),
    ensures
        asks(run) == Some(RequestView::ReadChainInfo),
        height == 149 ==> goes_on(
            run,
            Event::Blocks(Some(height)),
            Notes { height, ..run.notes },
        ),
        height != 149 ==> fails(
            run,
            Event::Blocks(Some(height)),
            None,
            "expected "@ + decimal(149) + ", got "@ + decimal(height as nat),
        ),
        fails(run, Event::Blocks(None), None, "blocks missing"@),
        fails(run, Event::Failed(error), None, "getblockchaininfo failed: "@ + error),
{
}

/// The tip past activation is at 155 exactly, and is noted.
pub proof fn law_tip_is_judged(run: Run<Seq<char>>, height: u64, error: Seq<char>)
    requires
        stands(run, Scenario::Activation, 17, Stage::Ask),
    ensures
        asks(run) == Some(RequestView::ReadChainInfo),
        height == 155 ==> goes_on(
            run,
            Event::Blocks(Some(height)),
            Notes { tip: height, ..run.notes },
        ),
        height != 155 ==> fails(
            run,
            Event::Blocks(Some(height)),
            None,
            "expected tip "@ + decimal(155) + ", got "@ + decimal(height as nat),
        ),
        fails(run, Event::Blocks(None), None, "blocks missing"@),
        fails(run, Event::Failed(error), None, "getblockchaininfo failed: "@ + error),
{
}

/// Whatever height the chain has before a node starts cold is the tip to reach.
pub proof fn law_cold_tip_is_noted(run: Run<Seq<char>>, height: u64, error: Seq<char>)
    requires
        stands(run, Scenario::Activation, 29, Stage::Ask),
    ensures
        asks(run) == Some(RequestView::ReadChainInfo),
        goes_on(run, Event::Blocks(Some(height)), Notes { tip: height, ..run.notes }),
        fails(run, Event::Blocks(None), None, "blocks missing"@),
        fails(run, Event::Failed(error), None, "getblockchaininfo failed: "@ + error),
{
}

/// The relay is started before the nodes, in either scenario.
pub proof fn law_relay_is_started(run: Run<Seq<char>>)
    requires
        stands(
            run,
            run.scenario,
            if run.scenario == Scenario::Activation {
                4
            } else {
                7
            },
            Stage::Ask,
        ),
    ensures
        asks(run) == Some(RequestView::StartRelay),
        goes_on(run, Event::Done, run.notes),
{
}

/// Alice's identity is noted whatever it is, Bob's where it is another, and
/// Carol's whatever it is. A node that does not start fails the scenario.
pub proof fn law_nodes_are_started(run: Run<Seq<char>>, id: Seq<char>, error: Seq<char>)
    requires
        stands(run, Scenario::Activation, run.pc as int, Stage::Ask),
        run.pc == 5 || run.pc == 6 || run.pc == 30,
    ensures
        run.pc == 5 ==> {
            &&& asks(run) == Some(RequestView::StartNode { node: Who::Alice })
            &&& goes_on(run, Event::NodeUp(id), Notes { alice_id: id, ..run.notes })
            &&& fails(run, Event::Failed(error), Some("failed to start alice"@), error)
        },
        run.pc == 6 ==> {
            &&& asks(run) == Some(RequestView::StartNode { node: Who::Bob })
            &&& id != run.notes.alice_id ==> goes_on(
                run,
                Event::NodeUp(id),
                Notes { bob_id: id, ..run.notes },
            )
            &&& fails(
                run,
                Event::NodeUp(run.notes.alice_id),
                None,
                "alice and bob share a node_id"@,
            )
            &&& fails(run, Event::Failed(error), Some("failed to start bob"@), error)
        },
        run.pc == 30 ==> {
            &&& asks(run) == Some(RequestView::StartNode { node: Who::Carol })
            &&& goes_on(run, Event::NodeUp(id), Notes { carol_id: id, ..run.notes })
            &&& fails(
                run,
                Event::Failed(error),
                Some("a node could not start against an already-activated chain"@),
                error,
            )
        },
{
}

/// At level 0 Alice starts, and her identity is noted whatever it is.
pub proof fn law_level_zero_node_is_started(run: Run<Seq<char>>, id: Seq<char>, error: Seq<char>)
    requires
        stands(run, Scenario::KnotsBackend, 8, Stage::Ask),
    ensures
        asks(run) == Some(RequestView::StartNode { node: Who::Alice }),
        goes_on(run, Event::NodeUp(id), Notes { alice_id: id, ..run.notes }),
        fails(run, Event::Failed(error), Some("node failed to start against Knots"@), error),
{
}

/// At level 0 the scenario passes exactly where Alice's address begins with
/// `bcrt1`, whatever follows.
pub proof fn law_address_decides(run: Run<Seq<char>>, address: Seq<char>, error: Seq<char>)
    requires
        stands(run, Scenario::KnotsBackend, 9, Stage::Ask),
    ensures
        asks(run) == Some(RequestView::NewAddress { node: Who::Alice }),
        goes_on(run, Event::Address("bcrt1"@ + address), run.notes),
        next(run, Event::Address("bcrt1"@ + address)).status is Passed,
        (forall|rest: Seq<char>| address != "bcrt1"@ + rest) ==> fails(
            run,
            Event::Address(address),
            None,
            "expected a regtest address, got "@ + address,
        ),
        fails(run, Event::Failed(error), Some("node could not generate an address"@), error),
{
    assert("bcrt1"@.is_prefix_of("bcrt1"@ + address)) by {
        assert(("bcrt1"@ + address).subrange(0, "bcrt1"@.len() as int) =~= "bcrt1"@);
    }
    if "bcrt1"@.is_prefix_of(address) {
        assert(address =~= "bcrt1"@ + address.skip("bcrt1"@.len() as int));
    }
}

/// Alice and Carol each open a channel of 2,000,000 satoshi to Bob and push
/// 500,000 millisatoshi.
pub proof fn law_channels_are_opened(run: Run<Seq<char>>, error: Seq<char>)
    requires
        stands(run, Scenario::Activation, run.pc as int, Stage::Ask),
        run.pc == 7 || run.pc == 32,
    ensures
        asks(run) == Some(
            RequestView::OpenChannel {
                from: if run.pc == 7 {
                    Who::Alice
                } else {
                    Who::Carol
                },
                peer: run.notes.bob_id,
                sats: 2_000_000,
                push_msat: 500_000,
            },
        ),
        goes_on(run, Event::Done, run.notes),
        fails(
            run,
            Event::Failed(error),
            Some(
                if run.pc == 7 {
                    "open_channel failed"@
                } else {
                    "carol could not open a channel on an activated chain"@
                },
            ),
            error,
        ),
{
}

/// Bob's balance is noted whatever it is.
pub proof fn law_balance_is_noted(run: Run<Seq<char>>, msat: u64, error: Seq<char>)
    requires
        stands(run, Scenario::Activation, run.pc as int, Stage::Ask),
        run.pc == 24 || run.pc == 36,
    ensures
        asks(run) == Some(RequestView::ReadBalance { node: Who::Bob }),
        goes_on(run, Event::Balance(msat), Notes { balance: msat, ..run.notes }),
        fails(run, Event::Failed(error), None, error),
{
}

/// Bob invoices 100,000 millisatoshi for each payment, and the invoice is noted
/// whatever it is.
pub proof fn law_invoice_is_noted(run: Run<Seq<char>>, invoice: Seq<char>, error: Seq<char>)
    requires
        stands(run, Scenario::Activation, run.pc as int, Stage::Ask),
        run.pc == 25 || run.pc == 37,
    ensures
        asks(run) == Some(
            RequestView::MakeInvoice {
                node: Who::Bob,
                msat: 100_000,
                description: if run.pc == 25 {
                    "activation e2e"@
                } else {
                    "activation e2e, v2-only channel"@
                },
            },
        ),
        goes_on(run, Event::Invoice(invoice), Notes { invoice, ..run.notes }),
        fails(run, Event::Failed(error), Some("bob make_invoice failed"@), error),
{
}

/// The invoice that was noted is the one that is paid, by Alice first and by
/// Carol later.
pub proof fn law_invoice_is_paid(run: Run<Seq<char>>, error: Seq<char>)
    requires
        stands(run, Scenario::Activation, run.pc as int, Stage::Ask),
        run.pc == 26 || run.pc == 38,
    ensures
        asks(run) == Some(
            RequestView::PayInvoice {
                node: if run.pc == 26 {
                    Who::Alice
                } else {
                    Who::Carol
                },
                invoice: run.notes.invoice,
            },
        ),
        goes_on(run, Event::Done, run.notes),
        fails(
            run,
            Event::Failed(error),
            Some(
                if run.pc == 26 {
                    "alice pay_invoice failed"@
                } else {
                    "carol pay_invoice failed"@
                },
            ),
            error,
        ),
{
}

/// Whether the channel at `i` is the first of a list with a peer.
pub open spec fn is_first(channels: Seq<Channel<Seq<char>>>, i: int, peer: Seq<char>) -> bool {
    &&& 0 <= i < channels.len()
    &&& channels[i].peer_pubkey == Some(peer)
    &&& forall|j: int| 0 <= j < i ==> (#[trigger] channels[j]).peer_pubkey != Some(peer)
}

/// Whether no channel of a list has a peer.
pub open spec fn has_none(channels: Seq<Channel<Seq<char>>>, peer: Seq<char>) -> bool {
    forall|j: int| 0 <= j < channels.len() ==> (#[trigger] channels[j]).peer_pubkey != Some(peer)
}

/// Before the switch the funding transaction of Alice's first channel with Bob
/// is noted, whatever else the channel reports.
pub proof fn law_channel_before_is_judged(
    run: Run<Seq<char>>,
    channels: Seq<Channel<Seq<char>>>,
    i: int,
    error: Seq<char>,
)
    requires
        stands(run, Scenario::Activation, 9, Stage::Ask),
    ensures
        asks(run) == Some(RequestView::ListChannels { node: Who::Alice }),
        is_first(channels, i, run.notes.bob_id) ==> match channels[i].funding_txid {
            Some(funding_txid) => goes_on(
                run,
                Event::Channels(channels),
                Notes { funding_txid, ..run.notes },
            ),
            None => fails(
                run,
                Event::Channels(channels),
                None,
                "channel has no funding_txid"@,
            ),
        },
        has_none(channels, run.notes.bob_id) ==> fails(
            run,
            Event::Channels(channels),
            None,
            "no channel with "@ + run.notes.bob_id,
        ),
        fails(run, Event::Failed(error), None, error),
{
    if is_first(channels, i, run.notes.bob_id) {
        law_first_is_found(channels, run.notes.bob_id, i);
    }
    if has_none(channels, run.notes.bob_id) {
        law_none_is_found(channels, run.notes.bob_id);
    }
}

/// After the switch Alice's first channel with Bob has to have the funding
/// transaction that was noted and to be active, and then its confirmation count
/// is noted, zero where it reports none.
pub proof fn law_channel_after_is_judged(
    run: Run<Seq<char>>,
    channels: Seq<Channel<Seq<char>>>,
    i: int,
    error: Seq<char>,
)
    requires
        stands(run, Scenario::Activation, 22, Stage::Ask),
    ensures
        asks(run) == Some(RequestView::ListChannels { node: Who::Alice }),
        is_first(channels, i, run.notes.bob_id) ==> {
            let now = channels[i];
            let same = now.funding_txid == Some(run.notes.funding_txid);
            let active = now.state == Some("active"@);
            &&& same && active && now.confirmations is None ==> goes_on(
                run,
                Event::Channels(channels),
                Notes { confirmations_after: 0, ..run.notes },
            )
            &&& same && active && now.confirmations is Some ==> goes_on(
                run,
                Event::Channels(channels),
                Notes { confirmations_after: now.confirmations->0, ..run.notes },
            )
            &&& !same ==> fails(
                run,
                Event::Channels(channels),
                None,
                "funding txid changed across activation: "@ + run.notes.funding_txid + " -> "@
                    + now.funding_txid_shown,
            )
            &&& same && !active ==> fails(
                run,
                Event::Channels(channels),
                None,
                "channel is "@ + now.state_shown + " after activation, expected active"@,
            )
        },
        has_none(channels, run.notes.bob_id) ==> fails(
            run,
            Event::Channels(channels),
            None,
            "no channel with "@ + run.notes.bob_id,
        ),
        fails(run, Event::Failed(error), None, error),
{
    if is_first(channels, i, run.notes.bob_id) {
        law_first_is_found(channels, run.notes.bob_id, i);
    }
    if has_none(channels, run.notes.bob_id) {
        law_none_is_found(channels, run.notes.bob_id);
    }
}

/// Whether a run is at one of the steps that sample a funding block.
pub open spec fn sampling(run: Run<Seq<char>>) -> bool {
    &&& well_formed(run)
    &&& run.scenario == Scenario::Activation
    &&& run.pc == 10 || run.pc == 23 || run.pc == 34
}

/// A sample begins with the height of the node whose channel it is: Alice's
/// before and after the switch, and Carol's later.
pub proof fn law_sample_reads_height(
    run: Run<Seq<char>>,
    left: u64,
    height: u64,
    error: Seq<char>,
)
    requires
        sampling(run),
        run.status == Status::<Seq<char>>::Running(Stage::SampleHeight { left }),
    ensures
        asks(run) == Some(
            RequestView::ReadNodeHeight {
                node: if run.pc == 34 {
                    Who::Carol
                } else {
                    Who::Alice
                },
            },
        ),
        moves_to(run, Event::NodeHeight(height), Stage::SampleChannel { left, height }),
        fails(run, Event::Failed(error), None, error),
{
}

/// Then the confirmation count of that node's first channel with Bob is taken
/// as it is reported.
pub proof fn law_sample_reads_channel(
    run: Run<Seq<char>>,
    left: u64,
    height: u64,
    channels: Seq<Channel<Seq<char>>>,
    i: int,
    error: Seq<char>,
)
    requires
        sampling(run),
        run.status == Status::<Seq<char>>::Running(Stage::SampleChannel { left, height }),
    ensures
        asks(run) == Some(
            RequestView::ListChannels {
                node: if run.pc == 34 {
                    Who::Carol
                } else {
                    Who::Alice
                },
            },
        ),
        is_first(channels, i, run.notes.bob_id) ==> moves_to(
            run,
            Event::Channels(channels),
            Stage::SampleAgain { left, height, confirmations: channels[i].confirmations },
        ),
        has_none(channels, run.notes.bob_id) ==> fails(
            run,
            Event::Channels(channels),
            None,
            "no channel with "@ + run.notes.bob_id,
        ),
        fails(run, Event::Failed(error), None, error),
{
    if is_first(channels, i, run.notes.bob_id) {
        law_first_is_found(channels, run.notes.bob_id, i);
    }
    if has_none(channels, run.notes.bob_id) {
        law_none_is_found(channels, run.notes.bob_id);
    }
}

/// Then the height is read again. Where it moved, the sample is tried again
/// while tries are left.
pub proof fn law_sample_is_retried(
    run: Run<Seq<char>>,
    left: u64,
    height: u64,
    confirmations: Option<u64>,
    again: u64,
    error: Seq<char>,
)
    requires
        sampling(run),
        run.status == Status::<Seq<char>>::Running(
            Stage::SampleAgain { left, height, confirmations },
        ),
    ensures
        asks(run) == Some(
            RequestView::ReadNodeHeight {
                node: if run.pc == 34 {
                    Who::Carol
                } else {
                    Who::Alice
                },
            },
        ),
        again != height && left > 1 ==> moves_to(
            run,
            Event::NodeHeight(again),
            Stage::SampleHeight { left: (left - 1) as u64 },
        ),
        again != height && left <= 1 ==> fails(
            run,
            Event::NodeHeight(again),
            None,
            "could not sample height and confirmations together"@,
        ),
        fails(run, Event::Failed(error), None, error),
{
}

/// A steady sample with a count gives the block that lies one less than the
/// count below the height. Before the switch that block is noted. After it the
/// block has to be that one, and the channel to have had confirmations. Carol's
/// has to be at 150 or past it, and is noted.
pub proof fn law_steady_sample_is_judged(
    run: Run<Seq<char>>,
    left: u64,
    height: u64,
    count: u64,
    block: u64,
)
    requires
        sampling(run),
        run.status == Status::<Seq<char>>::Running(
            Stage::SampleAgain { left, height, confirmations: Some(count) },
        ),
        1 <= count <= height,
        block + count == height + 1,
    ensures
        run.pc == 10 ==> goes_on(
            run,
            Event::NodeHeight(height),
            Notes { funding_before: block, ..run.notes },
        ),
        run.pc == 23 ==> {
            &&& block == run.notes.funding_before && run.notes.confirmations_after > 0 ==> goes_on(
                run,
                Event::NodeHeight(height),
                run.notes,
            )
            &&& block != run.notes.funding_before ==> fails(
                run,
                Event::NodeHeight(height),
                None,
                "the node stopped counting from the same block across activation: funding was in block "@
                    + decimal(run.notes.funding_before as nat)
                    + ", now its confirmations imply "@ + decimal(block as nat),
            )
            &&& block == run.notes.funding_before && run.notes.confirmations_after == 0 ==> fails(
                run,
                Event::NodeHeight(height),
                None,
                "channel reports no confirmations after activation"@,
            )
        },
        run.pc == 34 ==> {
            &&& block >= 150 ==> goes_on(
                run,
                Event::NodeHeight(height),
                Notes { v2_funding: block, ..run.notes },
            )
            &&& block < 150 ==> fails(
                run,
                Event::NodeHeight(height),
                None,
                "carol's funding is in block "@ + decimal(block as nat)
                    + ", below activation at "@ + decimal(150)
                    + " — this channel did not open under v2 headers"@,
            )
        },
{
}

/// A steady sample without a count, or with a count of zero, fails the scenario.
/// One with a count above the height is not taken, and every other one is.
pub proof fn law_sample_needs_a_count(
    run: Run<Seq<char>>,
    left: u64,
    height: u64,
    confirmations: Option<u64>,
    again: u64,
)
    requires
        sampling(run),
        run.status == Status::<Seq<char>>::Running(
            Stage::SampleAgain { left, height, confirmations },
        ),
    ensures
        confirmations is None ==> fails(
            run,
            Event::NodeHeight(height),
            None,
            "channel has no confirmations — is the node build current?"@,
        ),
        confirmations == Some(0u64) ==> fails(
            run,
            Event::NodeHeight(height),
            None,
            "channel funding is unconfirmed"@,
        ),
        !accepts(run, Event::NodeHeight(again)) <==> again == height && (
        confirmations matches Some(count) && count > height),
{
}

/// The height of the block whose header the step at `pc` checks.
pub open spec fn checked_height(pc: int, notes: Notes<Seq<char>>) -> u64 {
    if pc == 14 || pc == 18 {
        149
    } else if pc == 15 {
        notes.height_before
    } else if pc == 19 {
        150
    } else if pc == 20 {
        155
    } else {
        notes.v2_funding
    }
}

/// Whether a run of the activation scenario is at one of the steps that check a
/// header: v1 at 149 and at the height before the switch, v1 at 149 again, and
/// v2 at 150, at 155 and at Carol's funding block.
pub open spec fn checking(run: Run<Seq<char>>, want: u64) -> bool {
    &&& well_formed(run)
    &&& run.scenario == Scenario::Activation
    &&& (want == 1 && (run.pc == 14 || run.pc == 15 || run.pc == 18)) || (want == 2 && (run.pc
        == 19 || run.pc == 20 || run.pc == 35))
}

/// A header is looked up by the hash of the block at its height.
pub proof fn law_header_hash_is_read(
    run: Run<Seq<char>>,
    want: u64,
    hash: serde_json::Value,
    error: Seq<char>,
)
    requires
        checking(run, want),
        run.status == Status::<Seq<char>>::Running(Stage::Ask),
    ensures
        asks(run) == Some(
            RequestView::ReadBlockHash { height: checked_height(run.pc as int, run.notes) },
        ),
        moves_to(run, Event::BlockHash(hash), Stage::Info { hash }),
        fails(
            run,
            Event::Failed(error),
            None,
            "getblockhash("@ + decimal(checked_height(run.pc as int, run.notes) as nat)
                + ") failed: "@ + error,
        ),
{
}

/// The format that the verbose header reports has to be the one wanted.
pub proof fn law_reported_format_is_judged(
    run: Run<Seq<char>>,
    want: u64,
    hash: serde_json::Value,
    headerv: u64,
    error: Seq<char>,
)
    requires
        checking(run, want),
        run.status == Status::<Seq<char>>::Running(Stage::Info { hash }),
    ensures
        asks(run) == Some(RequestView::ReadHeaderInfo { hash }),
        moves_to(
            run,
            Event::HeaderVersion(Some(want)),
            Stage::Raw { hash, headerv: want },
        ),
        headerv != want ==> fails(
            run,
            Event::HeaderVersion(Some(headerv)),
            None,
            "height "@ + decimal(checked_height(run.pc as int, run.notes) as nat)
                + ": headerv is "@ + decimal(headerv as nat) + ", expected "@ + decimal(
                want as nat,
            ),
        ),
        fails(run, Event::HeaderVersion(None), None, "no headerv in the result"@),
        fails(
            run,
            Event::Failed(error),
            None,
            "getblockheader("@ + decimal(checked_height(run.pc as int, run.notes) as nat)
                + ") failed: "@ + error,
        ),
{
}

/// The number in the first four bytes of a header, the lowest first.
pub open spec fn low_first(raw: Seq<u8>) -> nat {
    (raw[0] + 256 * raw[1] + 65_536 * raw[2] + 16_777_216 * raw[3]) as nat
}

/// The serialized header completes its step exactly where it has the wanted
/// length, 80 bytes for v1 and 164 for v2, and the top bit of its fourth byte is
/// set for v2 and clear for v1.
pub proof fn law_serialized_header_is_judged(
    run: Run<Seq<char>>,
    want: u64,
    hash: serde_json::Value,
    headerv: u64,
    text: Seq<char>,
    error: Seq<char>,
)
    requires
        checking(run, want),
        run.status == Status::<Seq<char>>::Running(Stage::Raw { hash, headerv }),
    ensures
        asks(run) == Some(RequestView::ReadRawHeader { hash }),
        match decoded(encode_utf8(text)) {
            Err(bad) => fails(
                run,
                Event::HeaderText(Some(text)),
                None,
                hex_error_text(bad),
            ),
            Ok(raw) => {
                let height = decimal(checked_height(run.pc as int, run.notes) as nat);
                let length: nat = if want == 2 {
                    164
                } else {
                    80
                };
                &&& raw.len() == length && (raw[3] >= 128) == (want == 2) ==> goes_on(
                    run,
                    Event::HeaderText(Some(text)),
                    run.notes,
                )
                &&& raw.len() != length && raw.len() <= u64::MAX ==> fails(
                    run,
                    Event::HeaderText(Some(text)),
                    None,
                    "height "@ + height + ": header is "@ + decimal(raw.len())
                        + " bytes, expected "@ + decimal(length),
                )
                &&& raw.len() == length && (raw[3] >= 128) != (want == 2) ==> fails(
                    run,
                    Event::HeaderText(Some(text)),
                    None,
                    "height "@ + height + ": nVersion is 0x"@ + hex_digits(low_first(raw), 8)
                        + ", which disagrees with headerv "@ + decimal(want as nat),
                )
            },
        },
        fails(run, Event::HeaderText(None), None, "header not a string"@),
        fails(
            run,
            Event::Failed(error),
            None,
            "getblockheader("@ + decimal(checked_height(run.pc as int, run.notes) as nat)
                + ", false) failed: "@ + error,
        ),
{
}

/// Whether a run of the level 0 scenario is at one of the steps that check the
/// header of the block at a height: the first two and the tip at 110.
pub open spec fn checking_level_zero(run: Run<Seq<char>>, height: u64) -> bool {
    &&& well_formed(run)
    &&& run.scenario == Scenario::KnotsBackend
    &&& (run.pc == 4 && height == 0) || (run.pc == 5 && height == 1) || (run.pc == 6 && height
        == 110)
}

/// At level 0 a header is looked up by the hash of the block at its height.
pub proof fn law_level_zero_hash_is_read(
    run: Run<Seq<char>>,
    height: u64,
    hash: serde_json::Value,
    error: Seq<char>,
)
    requires
        checking_level_zero(run, height),
        run.status == Status::<Seq<char>>::Running(Stage::Ask),
    ensures
        asks(run) == Some(RequestView::ReadBlockHash { height }),
        moves_to(run, Event::BlockHash(hash), Stage::RawOnly { hash }),
        fails(
            run,
            Event::Failed(error),
            None,
            "getblockhash("@ + decimal(height as nat) + ") failed: "@ + error,
        ),
{
}

/// At level 0 the serialized header completes its step exactly where it has 80
/// bytes and the top bit of its fourth byte is clear.
pub proof fn law_level_zero_header_is_judged(
    run: Run<Seq<char>>,
    height: u64,
    hash: serde_json::Value,
    text: Seq<char>,
    error: Seq<char>,
)
    requires
        checking_level_zero(run, height),
        run.status == Status::<Seq<char>>::Running(Stage::RawOnly { hash }),
    ensures
        asks(run) == Some(RequestView::ReadRawHeader { hash }),
        match decoded(encode_utf8(text)) {
            Err(bad) => fails(
                run,
                Event::HeaderText(Some(text)),
                None,
                hex_error_text(bad),
            ),
            Ok(raw) => {
                &&& raw.len() == 80 && raw[3] < 128 ==> goes_on(
                    run,
                    Event::HeaderText(Some(text)),
                    run.notes,
                )
                &&& raw.len() != 80 && raw.len() <= u64::MAX ==> fails(
                    run,
                    Event::HeaderText(Some(text)),
                    None,
                    "block "@ + decimal(height as nat)
                        + ": expected an 80-byte v1 header, got "@ + decimal(raw.len())
                        + " bytes"@,
                )
                &&& raw.len() == 80 && raw[3] >= 128 ==> fails(
                    run,
                    Event::HeaderText(Some(text)),
                    None,
                    "block "@ + decimal(height as nat)
                        + ": bit 31 of nVersion is set (0x"@ + hex_digits(low_first(raw), 8)
                        + ") — this is a v2 header"@,
                )
            },
        },
        fails(run, Event::HeaderText(None), None, "header not a string"@),
        fails(run, Event::Failed(error), None, "getblockheader failed: "@ + error),
{
}

/// Whether a run is at one of the steps that wait, and how many seconds that
/// wait has: 180 for a channel to be ready and for Alice and Bob to reach the
/// tip, 120 for Carol to reach it, and 60 for each payment.
pub open spec fn waiting(run: Run<Seq<char>>, limit: u64) -> bool {
    &&& well_formed(run)
    &&& run.scenario == Scenario::Activation
    &&& (limit == 180 && (run.pc == 8 || run.pc == 21 || run.pc == 33)) || (limit == 120 && run.pc
        == 31) || (limit == 60 && (run.pc == 27 || run.pc == 39))
}

/// A wait starts its timer and polls at once, and after each pause of a second
/// it polls again.
pub proof fn law_wait_begins(run: Run<Seq<char>>, limit: u64)
    requires
        waiting(run, limit),
    ensures
        run.status == Status::<Seq<char>>::Running(Stage::Ask) ==> {
            &&& asks(run) == Some(RequestView::StartTimer)
            &&& moves_to(run, Event::Done, Stage::Poll { part: 0 })
        },
        run.status == Status::<Seq<char>>::Running(Stage::Rest) ==> {
            &&& asks(run) == Some(RequestView::Pause { secs: 1 })
            &&& moves_to(run, Event::Done, Stage::Poll { part: 0 })
        },
{
}

/// After a poll that says no the clock decides: below the limit the wait goes
/// on, and at the limit or past it the wait fails. Only the wait for Alice and
/// Bob is reported as something else.
pub proof fn law_wait_limits(run: Run<Seq<char>>, limit: u64, secs: u64)
    requires
        waiting(run, limit),
        run.status == Status::<Seq<char>>::Running(Stage::Clock),
    ensures
        asks(run) == Some(RequestView::ReadTimer),
        secs < limit ==> moves_to(run, Event::Elapsed(secs), Stage::Rest),
        secs >= limit ==> fails(
            run,
            Event::Elapsed(secs),
            if run.pc == 21 {
                Some("a node stopped following the chain across activation"@)
            } else {
                None
            },
            "timed out waiting for "@ + (if run.pc == 8 {
                "channel ready under v1 headers"@
            } else if run.pc == 21 {
                "both nodes at the post-activation tip"@
            } else if run.pc == 27 {
                "bob's balance to increase"@
            } else if run.pc == 31 {
                "carol to reach the tip"@
            } else if run.pc == 33 {
                "carol's channel to become ready"@
            } else {
                "bob's balance to increase again"@
            }),
        ),
{
}

/// A round of the wait for a channel mines a block and asks the opener about
/// Bob, and then, where the opener is ready, Bob about the opener.
pub proof fn law_ready_is_polled(run: Run<Seq<char>>, ready: bool)
    requires
        waiting(run, 180),
        run.pc == 8 || run.pc == 33,
    ensures
        run.status == Status::<Seq<char>>::Running(Stage::Poll { part: 0 }) ==> {
            &&& asks(run) == Some(RequestView::Mine { blocks: 1 })
            &&& moves_to(run, Event::Done, Stage::Poll { part: 1 })
        },
        run.status == Status::<Seq<char>>::Running(Stage::Poll { part: 1 }) ==> {
            &&& asks(run) == Some(
                RequestView::AskReady {
                    node: if run.pc == 8 {
                        Who::Alice
                    } else {
                        Who::Carol
                    },
                    peer: run.notes.bob_id,
                },
            )
            &&& moves_to(run, Event::Ready(true), Stage::Poll { part: 2 })
            &&& moves_to(run, Event::Ready(false), Stage::Clock)
        },
        run.status == Status::<Seq<char>>::Running(Stage::Poll { part: 2 }) ==> {
            &&& asks(run) == Some(
                RequestView::AskReady {
                    node: Who::Bob,
                    peer: if run.pc == 8 {
                        run.notes.alice_id
                    } else {
                        run.notes.carol_id
                    },
                },
            )
            &&& goes_on(run, Event::Ready(true), run.notes)
            &&& moves_to(run, Event::Ready(false), Stage::Clock)
        },
{
}

/// A round of the wait across activation asks Alice for her height and then,
/// where she is at 155 or past it, Bob for his.
pub proof fn law_following_is_polled(run: Run<Seq<char>>, height: u64, error: Seq<char>)
    requires
        waiting(run, 180),
        run.pc == 21,
    ensures
        run.status == Status::<Seq<char>>::Running(Stage::Poll { part: 0 }) ==> {
            &&& asks(run) == Some(RequestView::ReadNodeHeight { node: Who::Alice })
            &&& height >= 155 ==> moves_to(
                run,
                Event::NodeHeight(height),
                Stage::Poll { part: 1 },
            )
        },
        run.status == Status::<Seq<char>>::Running(Stage::Poll { part: 1 }) ==> {
            &&& asks(run) == Some(RequestView::ReadNodeHeight { node: Who::Bob })
            &&& height >= 155 ==> goes_on(run, Event::NodeHeight(height), run.notes)
        },
        run.status matches Status::Running(Stage::Poll { .. }) ==> {
            &&& height < 155 ==> moves_to(run, Event::NodeHeight(height), Stage::Clock)
            &&& fails(
                run,
                Event::Failed(error),
                Some("a node stopped following the chain across activation"@),
                error,
            )
        },
{
}

/// A round of the wait for a cold node asks Carol for her height, and ends the
/// wait exactly where it is at the noted tip or past it.
pub proof fn law_cold_sync_is_polled(run: Run<Seq<char>>, height: u64, error: Seq<char>)
    requires
        waiting(run, 120),
        run.status matches Status::Running(Stage::Poll { .. }),
    ensures
        asks(run) == Some(RequestView::ReadNodeHeight { node: Who::Carol }),
        height >= run.notes.tip ==> goes_on(run, Event::NodeHeight(height), run.notes),
        height < run.notes.tip ==> moves_to(run, Event::NodeHeight(height), Stage::Clock),
        fails(run, Event::Failed(error), None, error),
{
}

/// A round of the wait for a payment asks for Bob's balance, and ends the wait
/// exactly where it is above the noted one.
pub proof fn law_payment_is_polled(run: Run<Seq<char>>, msat: u64, error: Seq<char>)
    requires
        waiting(run, 60),
        run.status matches Status::Running(Stage::Poll { .. }),
    ensures
        asks(run) == Some(RequestView::ReadBalance { node: Who::Bob }),
        msat > run.notes.balance ==> goes_on(run, Event::Balance(msat), run.notes),
        msat <= run.notes.balance ==> moves_to(run, Event::Balance(msat), Stage::Clock),
        fails(run, Event::Failed(error), None, error),
{
}

/// A failed call is reported with its own error as the cause, exactly where it
/// was no call to the chain; those are reported in words of their own.
pub proof fn law_failed_call_is_the_cause(run: Run<Seq<char>>, error: Seq<char>)
    requires
        well_formed(run),
        accepts(run, Event::Failed(error)),
    ensures
        next(run, Event::Failed(error)).status matches Status::Failed(fault) && (fault.failure
            == Failure::Call(error) <==> !(asks(run)->0 is ReadChainInfo || asks(
            run,
        )->0 is ReadBlockHash || asks(run)->0 is ReadHeaderInfo || asks(
            run,
        )->0 is ReadRawHeader)),
{
}

} // verus!
