//! What holds of every run of a scenario.

use vstd::prelude::*;
use crate::channel::{first_with, Channel};
use crate::funding::{block_of, funding_of};
use crate::header::{is_format_text, V1, V2};
use crate::plan::{
    op_at, plan_length, timeout_of, Op, Scenario, Who, ACTIVATION_HEIGHT, CHANNEL_SATS,
    LAST_V1_HEIGHT, PAYMENT_MSAT, PUSH_MSAT, SAMPLES, START_HEIGHT, TIP_PAST_ACTIVATION,
};
use crate::protocol::{Action, Event, ReplyView, RequestView};
use crate::rules::{
    action_of, advance_of, after_funding, after_wait, entry_of, height_of, id_of, polled, sampled_by,
};
use crate::run::{accepts, next, start_of, well_formed};
use crate::state::{Advance, Notes, Polled, Run, Stage, Status};

verus! {

/// A scenario after some events.
pub open spec fn after(scenario: Scenario, events: Seq<ReplyView>) -> Run<Seq<char>>
    decreases events.len(),
{
    if events.len() == 0 {
        start_of(scenario)
    } else {
        next(after(scenario, events.drop_last()), events.last())
    }
}

/// A scenario after the first `i` of some events.
pub open spec fn at(scenario: Scenario, events: Seq<ReplyView>, i: int) -> Run<Seq<char>> {
    after(scenario, events.take(i))
}

/// Whether each event is taken in its turn.
pub open spec fn taken(scenario: Scenario, events: Seq<ReplyView>) -> bool {
    forall|i: int| 0 <= i < events.len() ==> accepts(#[trigger] at(scenario, events, i), events[i])
}

/// Whether a scenario passes on some events.
pub open spec fn passes(scenario: Scenario, events: Seq<ReplyView>) -> bool {
    taken(scenario, events) && after(scenario, events).status is Passed
}

/// What a run asks for, while it is under way.
pub open spec fn asks(run: Run<Seq<char>>) -> Option<RequestView> {
    match run.status {
        Status::Running(stage) => Some(
            action_of(op_at(run.scenario, run.pc), stage, run.notes),
        ),
        _ => None,
    }
}

/// An event that is taken keeps a run in order and in its scenario, and brings
/// it on by one step at most.
pub proof fn law_steps_keep_order(run: Run<Seq<char>>, event: ReplyView)
    requires
        well_formed(run),
        accepts(run, event),
    ensures
        well_formed(next(run, event)),
        next(run, event).scenario == run.scenario,
        next(run, event).pc == run.pc || next(run, event).pc == run.pc + 1,
{
}

/// A failed call ends a scenario at once, and it does not pass.
pub proof fn law_failed_call_fails(run: Run<Seq<char>>, error: Seq<char>)
    requires
        accepts(run, Event::Failed(error)),
    ensures
        next(run, Event::Failed(error)).status is Failed,
{
}

/// A scenario that has ended takes no event.
pub proof fn law_ended_takes_nothing(run: Run<Seq<char>>, event: ReplyView)
    requires
        run.status is Passed || run.status is Failed,
    ensures
        !accepts(run, event),
{
}

pub(crate) proof fn lemma_at(scenario: Scenario, events: Seq<ReplyView>, i: int)
    requires
        0 <= i < events.len(),
    ensures
        at(scenario, events, i + 1) == next(at(scenario, events, i), events[i]),
{
    assert(events.take(i + 1).drop_last() =~= events.take(i));
    assert(events.take(i + 1).last() == events[i]);
}

pub(crate) proof fn lemma_in_order(scenario: Scenario, events: Seq<ReplyView>, i: int)
    requires
        taken(scenario, events),
        0 <= i <= events.len(),
    ensures
        well_formed(at(scenario, events, i)),
        at(scenario, events, i).scenario == scenario,
    decreases i,
{
    if i > 0 {
        lemma_in_order(scenario, events, i - 1);
        lemma_at(scenario, events, i - 1);
        law_steps_keep_order(at(scenario, events, i - 1), events[i - 1]);
    } else {
        assert(at(scenario, events, 0) == start_of(scenario));
    }
}

proof fn lemma_one_step(scenario: Scenario, events: Seq<ReplyView>, i: int)
    requires
        taken(scenario, events),
        0 <= i < events.len(),
    ensures
        at(scenario, events, i).pc <= at(scenario, events, i + 1).pc <= at(scenario, events, i).pc
            + 1,
{
    lemma_in_order(scenario, events, i);
    lemma_at(scenario, events, i);
    law_steps_keep_order(at(scenario, events, i), events[i]);
}

proof fn lemma_start(scenario: Scenario, events: Seq<ReplyView>)
    ensures
        at(scenario, events, 0) == start_of(scenario),
        at(scenario, events, 0).pc == 0,
{
}

pub(crate) proof fn lemma_monotone(scenario: Scenario, events: Seq<ReplyView>, i: int, j: int)
    requires
        taken(scenario, events),
        0 <= i <= j <= events.len(),
    ensures
        at(scenario, events, i).pc <= at(scenario, events, j).pc,
    decreases j - i,
{
    if i < j {
        lemma_monotone(scenario, events, i, j - 1);
        lemma_one_step(scenario, events, j - 1);
    }
}

/// Whether the event at `i` completes the step at `pc`.
pub open spec fn completes(scenario: Scenario, events: Seq<ReplyView>, i: int, pc: usize) -> bool {
    &&& 0 <= i < events.len()
    &&& at(scenario, events, i).pc == pc
    &&& at(scenario, events, i + 1).pc == pc + 1
}

pub(crate) proof fn lemma_completed(scenario: Scenario, events: Seq<ReplyView>, n: int, pc: usize) -> (i: int)
    requires
        taken(scenario, events),
        0 <= n <= events.len(),
        pc < at(scenario, events, n).pc,
    ensures
        completes(scenario, events, i, pc),
        i < n,
    decreases n,
{
    lemma_start(scenario, events);
    lemma_one_step(scenario, events, n - 1);
    if at(scenario, events, n - 1).pc == pc {
        n - 1
    } else {
        lemma_completed(scenario, events, n - 1, pc)
    }
}

/// A scenario that passes has completed each of its steps.
pub proof fn law_pass_completes_every_step(scenario: Scenario, events: Seq<ReplyView>, pc: usize)
    requires
        passes(scenario, events),
        pc < plan_length(scenario),
    ensures
        exists|i: int| completes(scenario, events, i, pc),
{
    lemma_whole(scenario, events);
    lemma_in_order(scenario, events, events.len() as int);
    let i = lemma_completed(scenario, events, events.len() as int, pc);
}

/// The steps of a scenario are completed in their order.
pub proof fn law_steps_complete_in_order(
    scenario: Scenario,
    events: Seq<ReplyView>,
    i: int,
    j: int,
    first: usize,
    second: usize,
)
    requires
        taken(scenario, events),
        completes(scenario, events, i, first),
        completes(scenario, events, j, second),
    ensures
        first < second <==> i < j,
{
    if i < j {
        lemma_monotone(scenario, events, i + 1, j);
    } else if j < i {
        lemma_monotone(scenario, events, j + 1, i);
    }
}

proof fn lemma_whole(scenario: Scenario, events: Seq<ReplyView>)
    ensures
        at(scenario, events, events.len() as int) == after(scenario, events),
{
    assert(events.take(events.len() as int) =~= events);
}

proof fn lemma_before(scenario: Scenario, events: Seq<ReplyView>, i: int, stage: Stage)
    requires
        taken(scenario, events),
        0 <= i <= events.len(),
        at(scenario, events, i).status == Status::<Seq<char>>::Running(stage),
        stage != entry_of(op_at(scenario, at(scenario, events, i).pc)),
    ensures
        i > 0,
        at(scenario, events, i - 1).pc == at(scenario, events, i).pc,
        at(scenario, events, i - 1).notes == at(scenario, events, i).notes,
        events[i - 1] !is Failed,
        at(scenario, events, i - 1).status matches Status::Running(before) && advance_of(
            op_at(scenario, at(scenario, events, i).pc),
            before,
            at(scenario, events, i).notes,
            events[i - 1],
        ) == Advance::<Seq<char>>::Stay(stage),
{
    if i == 0 {
        assert(at(scenario, events, 0) == start_of(scenario));
    } else {
        lemma_in_order(scenario, events, i - 1);
        lemma_at(scenario, events, i - 1);
    }
}

/// Whether three exchanges from `i` on show that the block at a height has a
/// header of a format: its hash is read, the verbose header reports the format,
/// and the serialized one has its length and its bit.
pub open spec fn shows_header(
    scenario: Scenario,
    events: Seq<ReplyView>,
    i: int,
    height: u64,
    want: u64,
) -> bool {
    &&& 0 <= i
    &&& i + 2 < events.len()
    &&& asks(at(scenario, events, i)) == Some(RequestView::ReadBlockHash { height })
    &&& events[i] matches Event::BlockHash(hash)
    &&& asks(at(scenario, events, i + 1)) == Some(RequestView::ReadHeaderInfo { hash })
    &&& events[i + 1] == ReplyView::HeaderVersion(Some(want))
    &&& asks(at(scenario, events, i + 2)) == Some(RequestView::ReadRawHeader { hash })
    &&& events[i + 2] matches Event::HeaderText(Some(text))
    &&& is_format_text(text, want)
}

proof fn lemma_raw_stage(scenario: Scenario, events: Seq<ReplyView>, i: int)
    requires
        taken(scenario, events),
        0 <= i <= events.len(),
        op_at(scenario, at(scenario, events, i).pc) is Header,
        at(scenario, events, i).status matches Status::Running(Stage::Raw { .. }),
    ensures
        i >= 2,
        at(scenario, events, i - 1).pc == at(scenario, events, i).pc,
        at(scenario, events, i - 2).pc == at(scenario, events, i).pc,
        at(scenario, events, i - 2).notes == at(scenario, events, i).notes,
        at(scenario, events, i - 2).status == Status::<Seq<char>>::Running(Stage::Ask),
        at(scenario, events, i).status matches Status::Running(Stage::Raw { hash, headerv })
            && events[i - 2] == ReplyView::BlockHash(hash) && events[i - 1]
            == ReplyView::HeaderVersion(Some(headerv)) && at(scenario, events, i - 1).status
            == Status::<Seq<char>>::Running(Stage::Info { hash }),
{
    lemma_in_order(scenario, events, i);
    lemma_before(scenario, events, i, at(scenario, events, i).status->Running_0);
    lemma_in_order(scenario, events, i - 1);
    lemma_before(scenario, events, i - 1, at(scenario, events, i - 1).status->Running_0);
    lemma_in_order(scenario, events, i - 2);
}

/// A header step is completed only by a block whose reported format and whose
/// serialized header agree with each other and with what is wanted.
#[verifier::rlimit(40)]
pub proof fn law_header_is_cross_checked(scenario: Scenario, events: Seq<ReplyView>, i: int, pc: usize)
    requires
        taken(scenario, events),
        completes(scenario, events, i, pc),
        op_at(scenario, pc) is Header,
    ensures
        shows_header(
            scenario,
            events,
            i - 2,
            height_of(op_at(scenario, pc)->Header_at, at(scenario, events, i).notes),
            op_at(scenario, pc)->Header_want,
        ),
        at(scenario, events, i - 2).pc == pc,
{
    lemma_in_order(scenario, events, i);
    lemma_at(scenario, events, i);
    lemma_raw_stage(scenario, events, i);
    lemma_in_order(scenario, events, i - 1);
    lemma_in_order(scenario, events, i - 2);
}

/// In the activation scenario, what the notes hold stays as it is once the step
/// that writes it is done.
proof fn lemma_kept(events: Seq<ReplyView>, i: int, j: int)
    requires
        taken(Scenario::Activation, events),
        0 <= i <= j <= events.len(),
    ensures
        ({
            let first = at(Scenario::Activation, events, i);
            let second = at(Scenario::Activation, events, j);
            &&& first.pc > 5 ==> first.notes.alice_id == second.notes.alice_id
            &&& first.pc > 6 ==> first.notes.bob_id == second.notes.bob_id
            &&& first.pc > 9 ==> first.notes.funding_txid == second.notes.funding_txid
            &&& first.pc > 10 ==> first.notes.funding_before == second.notes.funding_before
            &&& first.pc > 11 ==> first.notes.height_before == second.notes.height_before
            &&& first.pc > 22 ==> first.notes.confirmations_after
                == second.notes.confirmations_after
            &&& 24 < first.pc && second.pc <= 36 ==> first.notes.balance == second.notes.balance
            &&& 25 < first.pc && second.pc <= 37 ==> first.notes.invoice == second.notes.invoice
            &&& first.pc > 29 ==> first.notes.tip == second.notes.tip
            &&& first.pc > 30 ==> first.notes.carol_id == second.notes.carol_id
            &&& first.pc > 34 ==> first.notes.v2_funding == second.notes.v2_funding
            &&& first.pc > 36 ==> first.notes.balance == second.notes.balance
            &&& first.pc > 37 ==> first.notes.invoice == second.notes.invoice
        }),
    decreases j - i,
{
    if i < j {
        lemma_kept(events, i, j - 1);
        lemma_in_order(Scenario::Activation, events, j - 1);
        lemma_monotone(Scenario::Activation, events, i, j - 1);
        lemma_at(Scenario::Activation, events, j - 1);
        lemma_step_keeps(at(Scenario::Activation, events, j - 1), events[j - 1]);
        law_steps_keep_order(at(Scenario::Activation, events, j - 1), events[j - 1]);
    }
}

proof fn lemma_step_keeps(run: Run<Seq<char>>, event: ReplyView)
    requires
        well_formed(run),
        accepts(run, event),
        run.scenario == Scenario::Activation,
    ensures
        run.pc != 5 ==> next(run, event).notes.alice_id == run.notes.alice_id,
        run.pc != 6 ==> next(run, event).notes.bob_id == run.notes.bob_id,
        run.pc != 9 ==> next(run, event).notes.funding_txid == run.notes.funding_txid,
        run.pc != 10 ==> next(run, event).notes.funding_before == run.notes.funding_before,
        run.pc != 11 ==> next(run, event).notes.height_before == run.notes.height_before,
        run.pc != 22 ==> next(run, event).notes.confirmations_after
            == run.notes.confirmations_after,
        run.pc != 24 && run.pc != 36 ==> next(run, event).notes.balance == run.notes.balance,
        run.pc != 25 && run.pc != 37 ==> next(run, event).notes.invoice == run.notes.invoice,
        run.pc != 17 && run.pc != 29 ==> next(run, event).notes.tip == run.notes.tip,
        run.pc != 30 ==> next(run, event).notes.carol_id == run.notes.carol_id,
        run.pc != 34 ==> next(run, event).notes.v2_funding == run.notes.v2_funding,
{
}

/// The event that completes the step at `pc` in a run that passes.
proof fn lemma_pick(scenario: Scenario, events: Seq<ReplyView>, pc: usize) -> (i: int)
    requires
        passes(scenario, events),
        pc < plan_length(scenario),
    ensures
        completes(scenario, events, i, pc),
        well_formed(at(scenario, events, i)),
        at(scenario, events, i).scenario == scenario,
        at(scenario, events, i + 1) == next(at(scenario, events, i), events[i]),
        accepts(at(scenario, events, i), events[i]),
{
    law_pass_completes_every_step(scenario, events, pc);
    let i = choose|i: int| completes(scenario, events, i, pc);
    lemma_in_order(scenario, events, i);
    lemma_at(scenario, events, i);
    i
}

proof fn lemma_shown(events: Seq<ReplyView>, pc: usize) -> (shown: (int, u64))
    requires
        passes(Scenario::Activation, events),
        pc < plan_length(Scenario::Activation),
        op_at(Scenario::Activation, pc) is Header,
    ensures
        shows_header(
            Scenario::Activation,
            events,
            shown.0,
            shown.1,
            op_at(Scenario::Activation, pc)->Header_want,
        ),
        at(Scenario::Activation, events, shown.0).pc == pc,
        at(Scenario::Activation, events, shown.0 + 2).pc == pc,
        pc == 15 ==> shown.1 == after(Scenario::Activation, events).notes.height_before,
        pc == 18 ==> shown.1 == LAST_V1_HEIGHT,
        pc == 19 ==> shown.1 == ACTIVATION_HEIGHT,
        pc == 20 ==> shown.1 == TIP_PAST_ACTIVATION,
{
    let i = lemma_pick(Scenario::Activation, events, pc);
    law_header_is_cross_checked(Scenario::Activation, events, i, pc);
    lemma_whole(Scenario::Activation, events);
    lemma_kept(events, i, events.len() as int);
    (
        i - 2,
        height_of(
            op_at(Scenario::Activation, pc)->Header_at,
            at(Scenario::Activation, events, i).notes,
        ),
    )
}

/// Whether the exchange at `i` reads the chain's height.
pub open spec fn reads_height(
    scenario: Scenario,
    events: Seq<ReplyView>,
    i: int,
    height: u64,
) -> bool {
    &&& 0 <= i < events.len()
    &&& asks(at(scenario, events, i)) == Some(RequestView::ReadChainInfo)
    &&& events[i] == ReplyView::Blocks(Some(height))
}

/// The exchange that reads the height with the channel confirmed.
proof fn lemma_height_before(events: Seq<ReplyView>) -> (c: int)
    requires
        passes(Scenario::Activation, events),
    ensures
        completes(Scenario::Activation, events, c, 11),
        reads_height(
            Scenario::Activation,
            events,
            c,
            after(Scenario::Activation, events).notes.height_before,
        ),
        after(Scenario::Activation, events).notes.height_before < ACTIVATION_HEIGHT,
{
    let c = lemma_pick(Scenario::Activation, events, 11);
    lemma_whole(Scenario::Activation, events);
    lemma_kept(events, c + 1, events.len() as int);
    c
}

/// The switch really happened: in a run that passes the chain's height is read
/// below activation, a v1 header is shown at that height and then on the last
/// height before activation, and after these v2 headers at activation and at
/// the tip past it.
#[verifier::rlimit(40)]
pub proof fn law_switch_is_real(events: Seq<ReplyView>)
    requires
        passes(Scenario::Activation, events),
    ensures
        ({
            let scenario = Scenario::Activation;
            let height = after(scenario, events).notes.height_before;
            &&& height < ACTIVATION_HEIGHT
            &&& exists|c: int, e: int, l: int, k: int, t: int|
                {
                    &&& c < e
                    &&& e + 2 < l
                    &&& l + 2 < k
                    &&& k + 2 < t
                    &&& #[trigger] reads_height(scenario, events, c, height)
                    &&& #[trigger] shows_header(scenario, events, e, height, V1)
                    &&& #[trigger] shows_header(scenario, events, l, LAST_V1_HEIGHT, V1)
                    &&& #[trigger] shows_header(scenario, events, k, ACTIVATION_HEIGHT, V2)
                    &&& #[trigger] shows_header(scenario, events, t, TIP_PAST_ACTIVATION, V2)
                }
        }),
{
    let scenario = Scenario::Activation;
    let height = after(scenario, events).notes.height_before;
    let c = lemma_height_before(events);
    let e = lemma_shown(events, 15).0;
    let l = lemma_shown(events, 18).0;
    let k = lemma_shown(events, 19).0;
    let t = lemma_shown(events, 20).0;
    lemma_earlier(events, c, e);
    lemma_earlier(events, e + 2, l);
    lemma_earlier(events, l + 2, k);
    lemma_earlier(events, k + 2, t);
    assert(reads_height(scenario, events, c, height));
    assert(shows_header(scenario, events, e, height, V1));
    assert(shows_header(scenario, events, l, LAST_V1_HEIGHT, V1));
    assert(shows_header(scenario, events, k, ACTIVATION_HEIGHT, V2));
    assert(shows_header(scenario, events, t, TIP_PAST_ACTIVATION, V2));
}

/// A chain that never activates does not pass: without a v2 header among the
/// replies the activation scenario fails or goes on.
pub proof fn law_unactivated_chain_does_not_pass(events: Seq<ReplyView>)
    requires
        taken(Scenario::Activation, events),
        forall|i: int| #![trigger events[i]]
            0 <= i < events.len() ==> (events[i] matches Event::HeaderText(Some(text))
                ==> !is_format_text(text, V2)),
    ensures
        !(after(Scenario::Activation, events).status is Passed),
{
    if passes(Scenario::Activation, events) {
        let i = lemma_activation_header(events);
        assert(events[i + 2] is HeaderText);
    }
}

/// Whether the exchange at `i` has a node report a height of at least `least`.
pub open spec fn node_reaches(
    scenario: Scenario,
    events: Seq<ReplyView>,
    i: int,
    node: Who,
    least: u64,
) -> bool {
    &&& 0 <= i < events.len()
    &&& asks(at(scenario, events, i)) == Some(RequestView::ReadNodeHeight { node })
    &&& events[i] matches Event::NodeHeight(height)
    &&& height >= least
}

/// The nodes keep following the chain: in a run that passes a v2 header is shown
/// at activation, and after it Alice and then Bob report a height at or past the
/// tip past activation.
pub proof fn law_nodes_follow(events: Seq<ReplyView>)
    requires
        passes(Scenario::Activation, events),
    ensures
        exists|k: int, i: int, j: int|
            {
                &&& k + 2 < i < j
                &&& #[trigger] shows_header(
                    Scenario::Activation,
                    events,
                    k,
                    ACTIVATION_HEIGHT,
                    V2,
                )
                &&& #[trigger] node_reaches(
                    Scenario::Activation,
                    events,
                    i,
                    Who::Alice,
                    TIP_PAST_ACTIVATION,
                )
                &&& #[trigger] node_reaches(
                    Scenario::Activation,
                    events,
                    j,
                    Who::Bob,
                    TIP_PAST_ACTIVATION,
                )
            },
{
    let scenario = Scenario::Activation;
    let k = lemma_activation_header(events);
    let j = lemma_followed(events);
    lemma_earlier(events, k + 2, j - 1);
    assert(shows_header(scenario, events, k, ACTIVATION_HEIGHT, V2));
    assert(node_reaches(scenario, events, j - 1, Who::Alice, TIP_PAST_ACTIVATION));
    assert(node_reaches(scenario, events, j, Who::Bob, TIP_PAST_ACTIVATION));
}

/// The exchange in which Bob reaches the tip, right after Alice.
proof fn lemma_followed(events: Seq<ReplyView>) -> (j: int)
    requires
        passes(Scenario::Activation, events),
    ensures
        node_reaches(Scenario::Activation, events, j - 1, Who::Alice, TIP_PAST_ACTIVATION),
        node_reaches(Scenario::Activation, events, j, Who::Bob, TIP_PAST_ACTIVATION),
        at(Scenario::Activation, events, j - 1).pc == 21,
{
    let j = lemma_pick(Scenario::Activation, events, 21);
    let stage = at(Scenario::Activation, events, j).status->Running_0;
    lemma_before(Scenario::Activation, events, j, stage);
    lemma_in_order(Scenario::Activation, events, j - 1);
    j
}

/// A node that stops at a height below activation, as one does that cannot read
/// a v2 header, keeps the scenario from passing.
pub proof fn law_stuck_node_does_not_pass(events: Seq<ReplyView>, node: Who)
    requires
        taken(Scenario::Activation, events),
        node == Who::Alice || node == Who::Bob,
        forall|i: int| !node_reaches(Scenario::Activation, events, i, node, ACTIVATION_HEIGHT),
    ensures
        !(after(Scenario::Activation, events).status is Passed),
{
    if passes(Scenario::Activation, events) {
        let j = lemma_followed(events);
        let i = if node == Who::Alice {
            j - 1
        } else {
            j
        };
        assert(node_reaches(Scenario::Activation, events, i, node, ACTIVATION_HEIGHT));
    }
}

/// Whether the exchange at `i` lists Alice's channels, and the first with a peer
/// is this one.
pub open spec fn sees_channel(
    scenario: Scenario,
    events: Seq<ReplyView>,
    i: int,
    peer: Seq<char>,
    channel: Channel<Seq<char>>,
) -> bool {
    &&& 0 <= i < events.len()
    &&& asks(at(scenario, events, i)) == Some(RequestView::ListChannels { node: Who::Alice })
    &&& events[i] matches Event::Channels(channels)
    &&& first_with(channels, peer) == Some(channel)
}

proof fn lemma_channel_before(events: Seq<ReplyView>) -> (found: (int, Channel<Seq<char>>))
    requires
        passes(Scenario::Activation, events),
    ensures
        completes(Scenario::Activation, events, found.0, 9),
        sees_channel(
            Scenario::Activation,
            events,
            found.0,
            after(Scenario::Activation, events).notes.bob_id,
            found.1,
        ),
        found.1.funding_txid == Some(after(Scenario::Activation, events).notes.funding_txid),
{
    let scenario = Scenario::Activation;
    let end = events.len() as int;
    lemma_whole(scenario, events);
    let i = lemma_pick(scenario, events, 9);
    lemma_kept(events, i, end);
    lemma_kept(events, i + 1, end);
    let peer = at(scenario, events, i).notes.bob_id;
    let before = first_with(events[i]->Channels_0, peer)->0;
    (i, before)
}

proof fn lemma_channel_after(events: Seq<ReplyView>) -> (found: (int, Channel<Seq<char>>))
    requires
        passes(Scenario::Activation, events),
    ensures
        completes(Scenario::Activation, events, found.0, 22),
        sees_channel(
            Scenario::Activation,
            events,
            found.0,
            after(Scenario::Activation, events).notes.bob_id,
            found.1,
        ),
        found.1.funding_txid == Some(after(Scenario::Activation, events).notes.funding_txid),
        found.1.state == Some("active"@),
        found.1.confirmations matches Some(count) && count > 0,
{
    let scenario = Scenario::Activation;
    let end = events.len() as int;
    lemma_whole(scenario, events);
    let j = lemma_pick(scenario, events, 22);
    lemma_kept(events, j, end);
    lemma_kept(events, j + 1, end);
    lemma_in_order(scenario, events, end);
    let peer = at(scenario, events, j).notes.bob_id;
    let now = first_with(events[j]->Channels_0, peer)->0;
    (j, now)
}

/// The exchanges that show the v2 header at activation.
proof fn lemma_activation_header(events: Seq<ReplyView>) -> (k: int)
    requires
        passes(Scenario::Activation, events),
    ensures
        shows_header(Scenario::Activation, events, k, ACTIVATION_HEIGHT, V2),
        at(Scenario::Activation, events, k).pc == 19,
        at(Scenario::Activation, events, k + 2).pc == 19,
{
    lemma_shown(events, 19).0
}

proof fn lemma_earlier(events: Seq<ReplyView>, i: int, j: int)
    requires
        taken(Scenario::Activation, events),
        0 <= i <= events.len(),
        0 <= j <= events.len(),
        at(Scenario::Activation, events, i).pc < at(Scenario::Activation, events, j).pc,
    ensures
        i < j,
{
    if j <= i {
        lemma_monotone(Scenario::Activation, events, j, i);
    }
}

/// Whether the exchange at `i` opens a channel to a peer.
pub open spec fn opens_channel(
    scenario: Scenario,
    events: Seq<ReplyView>,
    i: int,
    from: Who,
    peer: Seq<char>,
) -> bool {
    &&& 0 <= i < events.len()
    &&& asks(at(scenario, events, i)) == Some(
        RequestView::OpenChannel { from, peer, sats: CHANNEL_SATS, push_msat: PUSH_MSAT },
    )
    &&& events[i] is Done
}

/// Whether the two exchanges from `i` on have both ends of a channel with Bob
/// report it ready: the opener about Bob, then Bob about the opener.
pub open spec fn both_ready(
    scenario: Scenario,
    events: Seq<ReplyView>,
    i: int,
    opener: Who,
    opener_id: Seq<char>,
    bob_id: Seq<char>,
) -> bool {
    &&& 0 <= i
    &&& i + 1 < events.len()
    &&& asks(at(scenario, events, i)) == Some(
        RequestView::AskReady { node: opener, peer: bob_id },
    )
    &&& events[i] == ReplyView::Ready(true)
    &&& asks(at(scenario, events, i + 1)) == Some(
        RequestView::AskReady { node: Who::Bob, peer: opener_id },
    )
    &&& events[i + 1] == ReplyView::Ready(true)
}

/// A step that waits for a channel is completed only by both ends reporting it
/// ready, the opener first and Bob last.
pub proof fn law_ready_at_both_ends(scenario: Scenario, events: Seq<ReplyView>, i: int, pc: usize)
    requires
        taken(scenario, events),
        completes(scenario, events, i, pc),
        op_at(scenario, pc) is WaitReady,
    ensures
        both_ready(
            scenario,
            events,
            i - 1,
            op_at(scenario, pc)->WaitReady_opener,
            id_of(op_at(scenario, pc)->WaitReady_opener, at(scenario, events, i).notes),
            at(scenario, events, i).notes.bob_id,
        ),
        at(scenario, events, i - 1).pc == pc,
{
    lemma_in_order(scenario, events, i);
    lemma_at(scenario, events, i);
    lemma_before(scenario, events, i, at(scenario, events, i).status->Running_0);
    lemma_in_order(scenario, events, i - 1);
}

/// The exchange that opens a node's channel to Bob.
proof fn lemma_opened(events: Seq<ReplyView>, pc: usize) -> (o: int)
    requires
        passes(Scenario::Activation, events),
        pc == 7 || pc == 32,
    ensures
        completes(Scenario::Activation, events, o, pc),
        opens_channel(
            Scenario::Activation,
            events,
            o,
            if pc == 7 {
                Who::Alice
            } else {
                Who::Carol
            },
            after(Scenario::Activation, events).notes.bob_id,
        ),
{
    let o = lemma_pick(Scenario::Activation, events, pc);
    lemma_whole(Scenario::Activation, events);
    lemma_kept(events, o, events.len() as int);
    o
}

/// The exchanges in which both ends report a node's channel with Bob ready.
proof fn lemma_ready(events: Seq<ReplyView>, pc: usize) -> (r: int)
    requires
        passes(Scenario::Activation, events),
        pc == 8 || pc == 33,
    ensures
        completes(Scenario::Activation, events, r + 1, pc),
        at(Scenario::Activation, events, r).pc == pc,
        pc == 8 ==> both_ready(
            Scenario::Activation,
            events,
            r,
            Who::Alice,
            after(Scenario::Activation, events).notes.alice_id,
            after(Scenario::Activation, events).notes.bob_id,
        ),
        pc == 33 ==> both_ready(
            Scenario::Activation,
            events,
            r,
            Who::Carol,
            after(Scenario::Activation, events).notes.carol_id,
            after(Scenario::Activation, events).notes.bob_id,
        ),
{
    let i = lemma_pick(Scenario::Activation, events, pc);
    law_ready_at_both_ends(Scenario::Activation, events, i, pc);
    lemma_whole(Scenario::Activation, events);
    lemma_kept(events, i, events.len() as int);
    i - 1
}

/// A channel is opened under v1 headers: in a run that passes Alice opens a
/// channel to Bob, both ends report it ready, Alice lists it, and only then is
/// the chain's height read, below activation, with a v1 header shown at it.
#[verifier::rlimit(40)]
pub proof fn law_channel_opens_under_v1(events: Seq<ReplyView>)
    requires
        passes(Scenario::Activation, events),
    ensures
        ({
            let scenario = Scenario::Activation;
            let end = after(scenario, events).notes;
            &&& end.height_before < ACTIVATION_HEIGHT
            &&& exists|o: int, r: int, i: int, c: int, e: int, before: Channel<Seq<char>>|
                {
                    &&& o < r
                    &&& r + 1 < i
                    &&& i < c < e
                    &&& #[trigger] opens_channel(scenario, events, o, Who::Alice, end.bob_id)
                    &&& #[trigger] both_ready(
                        scenario,
                        events,
                        r,
                        Who::Alice,
                        end.alice_id,
                        end.bob_id,
                    )
                    &&& #[trigger] sees_channel(scenario, events, i, end.bob_id, before)
                    &&& before.funding_txid == Some(end.funding_txid)
                    &&& #[trigger] reads_height(scenario, events, c, end.height_before)
                    &&& #[trigger] shows_header(scenario, events, e, end.height_before, V1)
                }
        }),
{
    let scenario = Scenario::Activation;
    let end = after(scenario, events).notes;
    let o = lemma_opened(events, 7);
    let r = lemma_ready(events, 8);
    let (i, before) = lemma_channel_before(events);
    let c = lemma_height_before(events);
    let e = lemma_shown(events, 15).0;
    lemma_earlier(events, o, r);
    lemma_earlier(events, r + 1, i);
    lemma_earlier(events, i, c);
    lemma_earlier(events, c, e);
    assert(opens_channel(scenario, events, o, Who::Alice, end.bob_id));
    assert(both_ready(scenario, events, r, Who::Alice, end.alice_id, end.bob_id));
    assert(sees_channel(scenario, events, i, end.bob_id, before));
    assert(reads_height(scenario, events, c, end.height_before));
    assert(shows_header(scenario, events, e, end.height_before, V1));
}

/// The channel survives: in a run that passes Alice lists her channel with Bob,
/// the chain's height is then read below activation and a v1 header shown at
/// it, then a v2 header is shown at activation, and after it Alice lists the
/// channel again, with the same funding transaction, active and with
/// confirmations.
#[verifier::rlimit(40)]
pub proof fn law_channel_survives(events: Seq<ReplyView>)
    requires
        passes(Scenario::Activation, events),
    ensures
        ({
            let scenario = Scenario::Activation;
            let peer = after(scenario, events).notes.bob_id;
            let height = after(scenario, events).notes.height_before;
            &&& height < ACTIVATION_HEIGHT
            &&& exists|
                i: int,
                c: int,
                e: int,
                k: int,
                j: int,
                before: Channel<Seq<char>>,
                now: Channel<Seq<char>>,
            |
                {
                    &&& i < c < e
                    &&& e + 2 < k
                    &&& k + 2 < j
                    &&& #[trigger] sees_channel(scenario, events, i, peer, before)
                    &&& #[trigger] reads_height(scenario, events, c, height)
                    &&& #[trigger] shows_header(scenario, events, e, height, V1)
                    &&& #[trigger] shows_header(scenario, events, k, ACTIVATION_HEIGHT, V2)
                    &&& #[trigger] sees_channel(scenario, events, j, peer, now)
                    &&& before.funding_txid is Some
                    &&& now.funding_txid == before.funding_txid
                    &&& now.state == Some("active"@)
                    &&& now.confirmations matches Some(count) && count > 0
                }
        }),
{
    let scenario = Scenario::Activation;
    let peer = after(scenario, events).notes.bob_id;
    let height = after(scenario, events).notes.height_before;
    let (i, before) = lemma_channel_before(events);
    let c = lemma_height_before(events);
    let e = lemma_shown(events, 15).0;
    let k = lemma_activation_header(events);
    let (j, now) = lemma_channel_after(events);
    lemma_earlier(events, i, c);
    lemma_earlier(events, c, e);
    lemma_earlier(events, e + 2, k);
    lemma_earlier(events, k + 2, j);
    assert(sees_channel(scenario, events, i, peer, before));
    assert(reads_height(scenario, events, c, height));
    assert(shows_header(scenario, events, e, height, V1));
    assert(shows_header(scenario, events, k, ACTIVATION_HEIGHT, V2));
    assert(sees_channel(scenario, events, j, peer, now));
}

/// Whether three exchanges from `i` on sample the funding block of a node's
/// channel with a peer: the node's height, its channels, and the same height
/// again.
pub open spec fn samples_funding(
    scenario: Scenario,
    events: Seq<ReplyView>,
    i: int,
    node: Who,
    peer: Seq<char>,
    block: u64,
) -> bool {
    &&& 0 <= i
    &&& i + 2 < events.len()
    &&& asks(at(scenario, events, i)) == Some(RequestView::ReadNodeHeight { node })
    &&& events[i] matches Event::NodeHeight(height)
    &&& asks(at(scenario, events, i + 1)) == Some(RequestView::ListChannels { node })
    &&& events[i + 1] matches Event::Channels(channels)
    &&& asks(at(scenario, events, i + 2)) == Some(RequestView::ReadNodeHeight { node })
    &&& events[i + 2] == ReplyView::NodeHeight(height)
    &&& first_with(channels, peer) matches Some(channel)
    &&& channel.confirmations matches Some(count)
    &&& 0 < count <= height
    &&& block == block_of(height, count)
}

proof fn lemma_sample_stages(events: Seq<ReplyView>, i: int)
    requires
        taken(Scenario::Activation, events),
        0 <= i <= events.len(),
        at(Scenario::Activation, events, i).status matches Status::Running(
            Stage::SampleAgain { .. },
        ),
    ensures
        i >= 2,
        op_at(Scenario::Activation, at(Scenario::Activation, events, i).pc) is SampleFunding,
        at(Scenario::Activation, events, i - 1).pc == at(Scenario::Activation, events, i).pc,
        at(Scenario::Activation, events, i - 2).pc == at(Scenario::Activation, events, i).pc,
        at(Scenario::Activation, events, i).status matches Status::Running(
            Stage::SampleAgain { left, height, confirmations },
        ) && 1 <= left <= SAMPLES && events[i - 2] == ReplyView::NodeHeight(height) && at(
            Scenario::Activation,
            events,
            i - 1,
        ).status == Status::<Seq<char>>::Running(Stage::SampleChannel { left, height }) && at(
            Scenario::Activation,
            events,
            i - 2,
        ).status == Status::<Seq<char>>::Running(Stage::SampleHeight { left }) && (
        events[i - 1] matches Event::Channels(channels) && (first_with(
            channels,
            at(Scenario::Activation, events, i).notes.bob_id,
        ) matches Some(channel) && channel.confirmations == confirmations)),
{
    let scenario = Scenario::Activation;
    lemma_in_order(scenario, events, i);
    lemma_before(scenario, events, i, at(scenario, events, i).status->Running_0);
    lemma_in_order(scenario, events, i - 1);
    lemma_before(scenario, events, i - 1, at(scenario, events, i - 1).status->Running_0);
    lemma_in_order(scenario, events, i - 2);
}

proof fn lemma_sample(events: Seq<ReplyView>, i: int, pc: usize) -> (block: u64)
    requires
        taken(Scenario::Activation, events),
        completes(Scenario::Activation, events, i, pc),
        op_at(Scenario::Activation, pc) is SampleFunding,
    ensures
        samples_funding(
            Scenario::Activation,
            events,
            i - 2,
            sampled_by(op_at(Scenario::Activation, pc)),
            at(Scenario::Activation, events, i).notes.bob_id,
            block,
        ),
        at(Scenario::Activation, events, i - 2).pc == pc,
        after_funding(
            op_at(Scenario::Activation, pc)->SampleFunding_0,
            at(Scenario::Activation, events, i).notes,
            block,
        ) == Advance::Finish(at(Scenario::Activation, events, i + 1).notes),
{
    let scenario = Scenario::Activation;
    lemma_in_order(scenario, events, i);
    lemma_at(scenario, events, i);
    lemma_sample_stages(events, i);
    lemma_in_order(scenario, events, i - 1);
    lemma_in_order(scenario, events, i - 2);
    let again = at(scenario, events, i).status->Running_0;
    funding_of(again->SampleAgain_height, again->SampleAgain_confirmations)->Ok_0
}

/// The count is continuous: in a run that passes Alice's channel with Bob is
/// sampled before a v2 header is shown at activation and after it, and both
/// samples give one funding block.
#[verifier::rlimit(40)]
pub proof fn law_funding_block_stays(events: Seq<ReplyView>)
    requires
        passes(Scenario::Activation, events),
    ensures
        ({
            let peer = after(Scenario::Activation, events).notes.bob_id;
            exists|i: int, k: int, j: int, block: u64|
                {
                    &&& i + 2 < k
                    &&& k + 2 < j
                    &&& #[trigger] samples_funding(
                        Scenario::Activation,
                        events,
                        i,
                        Who::Alice,
                        peer,
                        block,
                    )
                    &&& #[trigger] shows_header(
                        Scenario::Activation,
                        events,
                        k,
                        ACTIVATION_HEIGHT,
                        V2,
                    )
                    &&& #[trigger] samples_funding(
                        Scenario::Activation,
                        events,
                        j,
                        Who::Alice,
                        peer,
                        block,
                    )
                }
        }),
{
    let scenario = Scenario::Activation;
    let end = events.len() as int;
    let peer = after(scenario, events).notes.bob_id;
    lemma_whole(scenario, events);
    let i = lemma_pick(scenario, events, 10);
    let before = lemma_sample(events, i, 10);
    lemma_kept(events, i, end);
    lemma_kept(events, i + 1, end);
    let j = lemma_pick(scenario, events, 23);
    let now = lemma_sample(events, j, 23);
    lemma_kept(events, j, end);
    let k = lemma_activation_header(events);
    lemma_earlier(events, i, k);
    lemma_earlier(events, k + 2, j - 2);
    assert(samples_funding(scenario, events, i - 2, Who::Alice, peer, before));
    assert(shows_header(scenario, events, k, ACTIVATION_HEIGHT, V2));
    assert(samples_funding(scenario, events, j - 2, Who::Alice, peer, before));
}

proof fn lemma_v2_sample(events: Seq<ReplyView>) -> (i: int)
    requires
        passes(Scenario::Activation, events),
    ensures
        after(Scenario::Activation, events).notes.v2_funding >= ACTIVATION_HEIGHT,
        samples_funding(
            Scenario::Activation,
            events,
            i,
            Who::Carol,
            after(Scenario::Activation, events).notes.bob_id,
            after(Scenario::Activation, events).notes.v2_funding,
        ),
        at(Scenario::Activation, events, i).pc == 34,
        at(Scenario::Activation, events, i + 2).pc == 34,
{
    let i = lemma_pick(Scenario::Activation, events, 34);
    let block = lemma_sample(events, i, 34);
    lemma_whole(Scenario::Activation, events);
    lemma_kept(events, i, events.len() as int);
    lemma_kept(events, i + 1, events.len() as int);
    i - 2
}

proof fn lemma_v2_header(events: Seq<ReplyView>) -> (j: int)
    requires
        passes(Scenario::Activation, events),
    ensures
        shows_header(
            Scenario::Activation,
            events,
            j,
            after(Scenario::Activation, events).notes.v2_funding,
            V2,
        ),
        at(Scenario::Activation, events, j).pc == 35,
        at(Scenario::Activation, events, j + 2).pc == 35,
{
    let j = lemma_pick(Scenario::Activation, events, 35);
    law_header_is_cross_checked(Scenario::Activation, events, j, 35);
    lemma_whole(Scenario::Activation, events);
    lemma_kept(events, j, events.len() as int);
    j - 2
}

/// Whether the exchange at `i` reads Bob's balance.
pub open spec fn reads_balance(
    scenario: Scenario,
    events: Seq<ReplyView>,
    i: int,
    msat: u64,
) -> bool {
    &&& 0 <= i < events.len()
    &&& asks(at(scenario, events, i)) == Some(RequestView::ReadBalance { node: Who::Bob })
    &&& events[i] == ReplyView::Balance(msat)
}

/// Whether the exchange at `i` has Bob make an invoice over the payment.
pub open spec fn makes_invoice(
    scenario: Scenario,
    events: Seq<ReplyView>,
    i: int,
    invoice: Seq<char>,
) -> bool {
    &&& 0 <= i < events.len()
    &&& asks(at(scenario, events, i)) matches Some(Action::MakeInvoice { node, msat, .. })
    &&& node == Who::Bob
    &&& msat == PAYMENT_MSAT
    &&& events[i] == ReplyView::Invoice(invoice)
}

/// Whether the exchange at `i` has a node pay an invoice.
pub open spec fn pays(
    scenario: Scenario,
    events: Seq<ReplyView>,
    i: int,
    node: Who,
    invoice: Seq<char>,
) -> bool {
    &&& 0 <= i < events.len()
    &&& asks(at(scenario, events, i)) == Some(RequestView::PayInvoice { node, invoice })
    &&& events[i] is Done
}

/// Whether a payment settles after the exchange at `from`: Bob's balance is
/// read, Bob makes an invoice, the payer pays it, and Bob's balance is then read
/// to be higher, all of it later than `from`.
pub open spec fn settles_after(
    scenario: Scenario,
    events: Seq<ReplyView>,
    from: int,
    payer: Who,
) -> bool {
    exists|i: int, m: int, p: int, j: int, before: u64, now: u64, invoice: Seq<char>|
        {
            &&& from < i < m < p < j
            &&& #[trigger] reads_balance(scenario, events, i, before)
            &&& #[trigger] makes_invoice(scenario, events, m, invoice)
            &&& #[trigger] pays(scenario, events, p, payer, invoice)
            &&& #[trigger] reads_balance(scenario, events, j, now)
            &&& now > before
        }
}

proof fn lemma_balance_before(events: Seq<ReplyView>, pc: usize) -> (i: int)
    requires
        passes(Scenario::Activation, events),
        pc == 24 || pc == 36,
    ensures
        completes(Scenario::Activation, events, i, pc),
        reads_balance(
            Scenario::Activation,
            events,
            i,
            at(Scenario::Activation, events, i + 1).notes.balance,
        ),
{
    lemma_pick(Scenario::Activation, events, pc)
}

proof fn lemma_invoiced(events: Seq<ReplyView>, pc: usize) -> (m: int)
    requires
        passes(Scenario::Activation, events),
        pc == 25 || pc == 37,
    ensures
        completes(Scenario::Activation, events, m, pc),
        makes_invoice(
            Scenario::Activation,
            events,
            m,
            at(Scenario::Activation, events, m + 1).notes.invoice,
        ),
{
    lemma_pick(Scenario::Activation, events, pc)
}

proof fn lemma_paid(events: Seq<ReplyView>, pc: usize) -> (p: int)
    requires
        passes(Scenario::Activation, events),
        pc == 26 || pc == 38,
    ensures
        completes(Scenario::Activation, events, p, pc),
        pays(
            Scenario::Activation,
            events,
            p,
            if pc == 26 {
                Who::Alice
            } else {
                Who::Carol
            },
            at(Scenario::Activation, events, p).notes.invoice,
        ),
{
    lemma_pick(Scenario::Activation, events, pc)
}

proof fn lemma_balance_after(events: Seq<ReplyView>, pc: usize) -> (found: (int, u64))
    requires
        passes(Scenario::Activation, events),
        pc == 27 || pc == 39,
    ensures
        completes(Scenario::Activation, events, found.0, pc),
        reads_balance(Scenario::Activation, events, found.0, found.1),
        found.1 > at(Scenario::Activation, events, found.0).notes.balance,
{
    let j = lemma_pick(Scenario::Activation, events, pc);
    (j, events[j]->Balance_0)
}

#[verifier::rlimit(40)]
proof fn lemma_settles(events: Seq<ReplyView>, from: int, first: usize, payer: Who)
    requires
        passes(Scenario::Activation, events),
        first == 24 && payer == Who::Alice || first == 36 && payer == Who::Carol,
        0 <= from <= events.len(),
        at(Scenario::Activation, events, from).pc < first,
    ensures
        settles_after(Scenario::Activation, events, from, payer),
{
    let scenario = Scenario::Activation;
    let i = lemma_balance_before(events, first);
    let m = lemma_invoiced(events, (first + 1) as usize);
    let p = lemma_paid(events, (first + 2) as usize);
    let (j, now) = lemma_balance_after(events, (first + 3) as usize);
    lemma_earlier(events, from, i);
    lemma_earlier(events, i, m);
    lemma_earlier(events, m, p);
    lemma_earlier(events, p, j);
    lemma_kept(events, i + 1, j);
    lemma_kept(events, m + 1, p);
    let invoice = at(scenario, events, p).notes.invoice;
    let before = at(scenario, events, j).notes.balance;
    assert(reads_balance(scenario, events, i, before));
    assert(makes_invoice(scenario, events, m, invoice));
    assert(pays(scenario, events, p, payer, invoice));
    assert(reads_balance(scenario, events, j, now));
}

/// Value moves on the far side: in a run that passes a v2 header is shown at
/// activation, Alice then lists her channel with Bob as active, and a payment
/// from her settles after that; and Carol opens a channel to Bob past
/// activation, both ends report it ready, and a payment from her settles after
/// that.
#[verifier::rlimit(40)]
pub proof fn law_payments_settle(events: Seq<ReplyView>)
    requires
        passes(Scenario::Activation, events),
    ensures
        ({
            let scenario = Scenario::Activation;
            let end = after(scenario, events).notes;
            &&& exists|k: int, j: int, now: Channel<Seq<char>>|
                {
                    &&& k + 2 < j
                    &&& #[trigger] shows_header(scenario, events, k, ACTIVATION_HEIGHT, V2)
                    &&& #[trigger] sees_channel(scenario, events, j, end.bob_id, now)
                    &&& now.state == Some("active"@)
                    &&& settles_after(scenario, events, j, Who::Alice)
                }
            &&& exists|k: int, o: int, r: int|
                {
                    &&& k + 2 < o < r
                    &&& #[trigger] shows_header(scenario, events, k, ACTIVATION_HEIGHT, V2)
                    &&& #[trigger] opens_channel(scenario, events, o, Who::Carol, end.bob_id)
                    &&& #[trigger] both_ready(
                        scenario,
                        events,
                        r,
                        Who::Carol,
                        end.carol_id,
                        end.bob_id,
                    )
                    &&& settles_after(scenario, events, r + 1, Who::Carol)
                }
        }),
{
    let scenario = Scenario::Activation;
    let end = after(scenario, events).notes;
    let k = lemma_activation_header(events);
    let (j, now) = lemma_channel_after(events);
    let o = lemma_opened(events, 32);
    let r = lemma_ready(events, 33);
    lemma_earlier(events, k + 2, j);
    lemma_settles(events, j, 24, Who::Alice);
    lemma_earlier(events, k + 2, o);
    lemma_earlier(events, o, r);
    lemma_settles(events, r + 1, 36, Who::Carol);
    assert(shows_header(scenario, events, k, ACTIVATION_HEIGHT, V2));
    assert(sees_channel(scenario, events, j, end.bob_id, now));
    assert(opens_channel(scenario, events, o, Who::Carol, end.bob_id));
    assert(both_ready(scenario, events, r, Who::Carol, end.carol_id, end.bob_id));
}

/// A channel under v2 headers only: in a run that passes Carol opens a channel
/// to Bob after a v2 header is shown at activation, both ends report it ready,
/// it is funded in a block at or past activation, that block is shown to have a
/// v2 header, and a payment from Carol then settles.
#[verifier::rlimit(40)]
pub proof fn law_v2_only_channel(events: Seq<ReplyView>)
    requires
        passes(Scenario::Activation, events),
    ensures
        ({
            let scenario = Scenario::Activation;
            let end = after(scenario, events).notes;
            &&& end.v2_funding >= ACTIVATION_HEIGHT
            &&& exists|k: int, o: int, r: int, i: int, j: int|
                {
                    &&& k + 2 < o < r
                    &&& r + 1 < i
                    &&& i + 2 < j
                    &&& #[trigger] shows_header(scenario, events, k, ACTIVATION_HEIGHT, V2)
                    &&& #[trigger] opens_channel(scenario, events, o, Who::Carol, end.bob_id)
                    &&& #[trigger] both_ready(
                        scenario,
                        events,
                        r,
                        Who::Carol,
                        end.carol_id,
                        end.bob_id,
                    )
                    &&& #[trigger] samples_funding(
                        scenario,
                        events,
                        i,
                        Who::Carol,
                        end.bob_id,
                        end.v2_funding,
                    )
                    &&& #[trigger] shows_header(scenario, events, j, end.v2_funding, V2)
                    &&& settles_after(scenario, events, j + 2, Who::Carol)
                }
        }),
{
    let scenario = Scenario::Activation;
    let end = after(scenario, events).notes;
    let k = lemma_activation_header(events);
    let o = lemma_opened(events, 32);
    let r = lemma_ready(events, 33);
    let i = lemma_v2_sample(events);
    let j = lemma_v2_header(events);
    lemma_earlier(events, k + 2, o);
    lemma_earlier(events, o, r);
    lemma_earlier(events, r + 1, i);
    lemma_earlier(events, i + 2, j);
    lemma_settles(events, j + 2, 36, Who::Carol);
    assert(shows_header(scenario, events, k, ACTIVATION_HEIGHT, V2));
    assert(opens_channel(scenario, events, o, Who::Carol, end.bob_id));
    assert(both_ready(scenario, events, r, Who::Carol, end.carol_id, end.bob_id));
    assert(samples_funding(scenario, events, i, Who::Carol, end.bob_id, end.v2_funding));
    assert(shows_header(scenario, events, j, end.v2_funding, V2));
}

proof fn lemma_cold_tip(events: Seq<ReplyView>) -> (h: int)
    requires
        passes(Scenario::Activation, events),
    ensures
        reads_height(
            Scenario::Activation,
            events,
            h,
            after(Scenario::Activation, events).notes.tip,
        ),
        at(Scenario::Activation, events, h).pc == 29,
{
    let h = lemma_pick(Scenario::Activation, events, 29);
    lemma_whole(Scenario::Activation, events);
    lemma_kept(events, h + 1, events.len() as int);
    h
}

proof fn lemma_cold_node(events: Seq<ReplyView>) -> (i: int)
    requires
        passes(Scenario::Activation, events),
    ensures
        0 <= i < events.len(),
        at(Scenario::Activation, events, i).pc == 30,
        asks(at(Scenario::Activation, events, i)) == Some(
            RequestView::StartNode { node: Who::Carol },
        ),
        events[i] is NodeUp,
{
    lemma_pick(Scenario::Activation, events, 30)
}

proof fn lemma_cold_sync(events: Seq<ReplyView>) -> (j: int)
    requires
        passes(Scenario::Activation, events),
    ensures
        0 <= j <= events.len(),
        at(Scenario::Activation, events, j).pc == 31,
        node_reaches(
            Scenario::Activation,
            events,
            j,
            Who::Carol,
            after(Scenario::Activation, events).notes.tip,
        ),
{
    let j = lemma_pick(Scenario::Activation, events, 31);
    lemma_whole(Scenario::Activation, events);
    lemma_kept(events, j, events.len() as int);
    j
}

/// A node comes up cold: in a run that passes Carol starts after a v2 header is
/// shown at activation and the chain's height is read, and reaches that height.
pub proof fn law_cold_start(events: Seq<ReplyView>)
    requires
        passes(Scenario::Activation, events),
    ensures
        ({
            let scenario = Scenario::Activation;
            let tip = after(scenario, events).notes.tip;
            exists|k: int, h: int, i: int, j: int|
                {
                    &&& k + 2 < h < i < j
                    &&& #[trigger] shows_header(scenario, events, k, ACTIVATION_HEIGHT, V2)
                    &&& #[trigger] reads_height(scenario, events, h, tip)
                    &&& asks(#[trigger] at(scenario, events, i)) == Some(
                        RequestView::StartNode { node: Who::Carol },
                    )
                    &&& events[i] is NodeUp
                    &&& #[trigger] node_reaches(scenario, events, j, Who::Carol, tip)
                }
        }),
{
    let scenario = Scenario::Activation;
    let tip = after(scenario, events).notes.tip;
    let k = lemma_activation_header(events);
    let h = lemma_cold_tip(events);
    let i = lemma_cold_node(events);
    let j = lemma_cold_sync(events);
    lemma_earlier(events, k + 2, h);
    lemma_earlier(events, h, i);
    lemma_earlier(events, i, j);
    assert(shows_header(scenario, events, k, ACTIVATION_HEIGHT, V2));
    assert(reads_height(scenario, events, h, tip));
    assert(asks(at(scenario, events, i)) == Some(RequestView::StartNode { node: Who::Carol }));
    assert(node_reaches(scenario, events, j, Who::Carol, tip));
}

/// Whether two exchanges from `i` on show that a block of a level 0 chain has a
/// v1 header.
pub open spec fn shows_level_zero(events: Seq<ReplyView>, i: int, height: u64) -> bool {
    let scenario = Scenario::KnotsBackend;
    &&& 0 <= i
    &&& i + 1 < events.len()
    &&& asks(at(scenario, events, i)) == Some(RequestView::ReadBlockHash { height })
    &&& events[i] matches Event::BlockHash(hash)
    &&& asks(at(scenario, events, i + 1)) == Some(RequestView::ReadRawHeader { hash })
    &&& events[i + 1] matches Event::HeaderText(Some(text))
    &&& is_format_text(text, V1)
}

#[verifier::rlimit(40)]
proof fn lemma_level_zero(events: Seq<ReplyView>, pc: usize) -> (i: int)
    requires
        passes(Scenario::KnotsBackend, events),
        4 <= pc <= 6,
    ensures
        shows_level_zero(
            events,
            i,
            if pc == 4 {
                0
            } else if pc == 5 {
                1
            } else {
                START_HEIGHT
            },
        ),
{
    let scenario = Scenario::KnotsBackend;
    let i = lemma_pick(scenario, events, pc);
    let stage = at(scenario, events, i).status->Running_0;
    lemma_before(scenario, events, i, stage);
    lemma_in_order(scenario, events, i - 1);
    i - 1
}

proof fn lemma_level_zero_node(events: Seq<ReplyView>) -> (i: int)
    requires
        passes(Scenario::KnotsBackend, events),
    ensures
        completes(Scenario::KnotsBackend, events, i, 8),
        asks(at(Scenario::KnotsBackend, events, i)) == Some(
            RequestView::StartNode { node: Who::Alice },
        ),
        events[i] is NodeUp,
{
    lemma_pick(Scenario::KnotsBackend, events, 8)
}

proof fn lemma_level_zero_address(events: Seq<ReplyView>) -> (j: int)
    requires
        passes(Scenario::KnotsBackend, events),
    ensures
        completes(Scenario::KnotsBackend, events, j, 9),
        asks(at(Scenario::KnotsBackend, events, j)) == Some(
            RequestView::NewAddress { node: Who::Alice },
        ),
        events[j] matches Event::Address(address) && "bcrt1"@.is_prefix_of(address),
{
    lemma_pick(Scenario::KnotsBackend, events, 9)
}

/// At level 0 the chain stays on v1 headers and a node runs against it: a run
/// that passes has been shown v1 headers at the first two blocks and at the tip,
/// and Alice came up and gave a regtest address.
pub proof fn law_level_zero_shows_v1(events: Seq<ReplyView>)
    requires
        passes(Scenario::KnotsBackend, events),
    ensures
        exists|i: int| shows_level_zero(events, i, 0),
        exists|i: int| shows_level_zero(events, i, 1),
        exists|i: int| shows_level_zero(events, i, START_HEIGHT),
        exists|i: int, j: int|
            {
                &&& 0 <= i < j < events.len()
                &&& asks(#[trigger] at(Scenario::KnotsBackend, events, i)) == Some(
                    RequestView::StartNode { node: Who::Alice },
                )
                &&& events[i] is NodeUp
                &&& asks(#[trigger] at(Scenario::KnotsBackend, events, j)) == Some(
                    RequestView::NewAddress { node: Who::Alice },
                )
                &&& events[j] matches Event::Address(address)
                &&& "bcrt1"@.is_prefix_of(address)
            },
{
    let zero = lemma_level_zero(events, 4);
    let one = lemma_level_zero(events, 5);
    let tip = lemma_level_zero(events, 6);
    assert(shows_level_zero(events, zero, 0));
    assert(shows_level_zero(events, one, 1));
    assert(shows_level_zero(events, tip, START_HEIGHT));
    let i = lemma_level_zero_node(events);
    let j = lemma_level_zero_address(events);
    law_steps_complete_in_order(Scenario::KnotsBackend, events, i, j, 8, 9);
}

/// Without a node binary the activation scenario builds one that reads v2
/// headers.
pub proof fn law_activation_builds_with_blake2b(events: Seq<ReplyView>)
    requires
        taken(Scenario::Activation, events),
        events.len() >= 1,
        events[0] == ReplyView::BinaryKnown(false),
    ensures
        asks(at(Scenario::Activation, events, 1)) == Some(
            RequestView::BuildNode { blake2b: true },
        ),
{
    assert(at(Scenario::Activation, events, 0) == start_of(Scenario::Activation));
    lemma_at(Scenario::Activation, events, 0);
}

/// The blocks that are asked for bring the chain from where the channel was
/// confirmed to the last v1 block.
pub proof fn law_mines_to_last_v1(events: Seq<ReplyView>, i: int, blocks: u64)
    requires
        taken(Scenario::Activation, events),
        0 <= i <= events.len(),
        at(Scenario::Activation, events, i).pc == 12,
        asks(at(Scenario::Activation, events, i)) == Some(RequestView::Mine { blocks }),
    ensures
        at(Scenario::Activation, events, i).notes.height_before + blocks == LAST_V1_HEIGHT,
{
    lemma_in_order(Scenario::Activation, events, i);
}

/// A sample describes one moment: a funding step is completed only by a sample
/// in which the node's height is the same on either side of the channel.
pub proof fn law_samples_describe_one_moment(events: Seq<ReplyView>, i: int, pc: usize)
    requires
        taken(Scenario::Activation, events),
        completes(Scenario::Activation, events, i, pc),
        op_at(Scenario::Activation, pc) is SampleFunding,
    ensures
        exists|first: int, block: u64|
            first == i - 2 && #[trigger] samples_funding(
                Scenario::Activation,
                events,
                first,
                sampled_by(op_at(Scenario::Activation, pc)),
                at(Scenario::Activation, events, i).notes.bob_id,
                block,
            ),
{
    let block = lemma_sample(events, i, pc);
    assert(samples_funding(
        Scenario::Activation,
        events,
        i - 2,
        sampled_by(op_at(Scenario::Activation, pc)),
        at(Scenario::Activation, events, i).notes.bob_id,
        block,
    ));
}

/// A wait polls before anything else, ends well only on a poll that says yes,
/// and fails only on a clock that is read after a poll that says no and that
/// has reached the timeout.
pub proof fn law_wait_outcomes(
    op: Op,
    stage: Stage,
    notes: Notes<Seq<char>>,
    event: ReplyView,
)
    ensures
        stage is Ask ==> after_wait(op, stage, notes, event) == Advance::<Seq<char>>::Stay(
            Stage::Poll { part: 0 },
        ),
        after_wait(op, stage, notes, event) is Finish <==> (stage matches Stage::Poll { part }
            && polled(op, part, notes, event) == Polled::Yes),
        after_wait(op, stage, notes, event) is Fail <==> (stage is Clock && (
        event matches Event::Elapsed(secs) && secs >= timeout_of(op))),
        stage is Poll && after_wait(op, stage, notes, event) == Advance::<Seq<char>>::Stay(
            Stage::Clock,
        ) ==> (stage matches Stage::Poll { part } && polled(op, part, notes, event) == Polled::No),
{
}

/// A v2 header on a level 0 chain fails the scenario.
pub proof fn law_v2_header_fails_level_zero(run: Run<Seq<char>>, text: Seq<char>)
    requires
        well_formed(run),
        run.scenario == Scenario::KnotsBackend,
        accepts(run, Event::HeaderText(Some(text))),
        is_format_text(text, V2),
    ensures
        next(run, Event::HeaderText(Some(text))).status is Failed,
{
}

/// Whether the height moved under the sample that the event at `i` completes.
pub open spec fn unsteady(events: Seq<ReplyView>, i: int) -> bool {
    &&& 2 <= i < events.len()
    &&& events[i - 2] matches Event::NodeHeight(height)
    &&& events[i - 1] is Channels
    &&& events[i] matches Event::NodeHeight(again)
    &&& again != height
}

#[verifier::rlimit(40)]
proof fn lemma_unsteady(events: Seq<ReplyView>, i: int, left: u64)
    requires
        taken(Scenario::Activation, events),
        0 <= i <= events.len(),
        at(Scenario::Activation, events, i).status matches Status::Running(
            Stage::SampleAgain { left: l, .. },
        ) && l == left,
    ensures
        i >= 2,
        events[i - 1] is Channels,
        events[i - 2] == ReplyView::NodeHeight(
            at(Scenario::Activation, events, i).status->Running_0->SampleAgain_height,
        ),
        1 <= left <= SAMPLES,
        forall|t: int|
            #![trigger unsteady(events, i - 3 * t)]
            1 <= t <= SAMPLES - left ==> unsteady(events, i - 3 * t),
    decreases i,
{
    let scenario = Scenario::Activation;
    lemma_sample_stages(events, i);
    let height = at(scenario, events, i - 2).status->Running_0;
    if left < SAMPLES {
        lemma_before(scenario, events, i - 2, height);
        lemma_in_order(scenario, events, i - 3);
        lemma_unsteady(events, i - 3, (left + 1) as u64);
        assert(unsteady(events, i - 3));
        assert forall|t: int|
            #![trigger unsteady(events, i - 3 * t)]
            1 <= t <= SAMPLES - left implies unsteady(events, i - 3 * t) by {
            if t > 1 {
                assert(i - 3 * t == (i - 3) - 3 * (t - 1));
                assert(unsteady(events, (i - 3) - 3 * (t - 1)));
            }
        }
    }
}

/// A sample is retried while the height moves under it, and given up only after
/// as many samples as are allowed.
pub proof fn law_sampling_gives_up_last(events: Seq<ReplyView>, i: int)
    requires
        taken(Scenario::Activation, events),
        0 <= i < events.len(),
        at(Scenario::Activation, events, i + 1).status matches Status::Failed(fault)
            && fault.failure is NoSteadySample,
    ensures
        forall|t: int|
            #![trigger unsteady(events, i - 3 * t)]
            0 <= t < SAMPLES ==> unsteady(events, i - 3 * t),
{
    let scenario = Scenario::Activation;
    lemma_in_order(scenario, events, i);
    lemma_at(scenario, events, i);
    lemma_unsteady(events, i, 1);
    assert(unsteady(events, i));
    assert forall|t: int|
        #![trigger unsteady(events, i - 3 * t)]
        0 <= t < SAMPLES implies unsteady(events, i - 3 * t) by {}
}

/// A run fails for want of time only on a clock that has reached the timeout of
/// the step that waits.
pub proof fn law_timeout_is_due(run: Run<Seq<char>>, event: ReplyView)
    requires
        well_formed(run),
        accepts(run, event),
        next(run, event).status matches Status::Failed(fault) && fault.failure is TimedOut,
    ensures
        asks(run) == Some(RequestView::ReadTimer),
        event matches Event::Elapsed(secs) && secs >= timeout_of(op_at(run.scenario, run.pc)),
{
}

/// A scenario goes the same way with a node binary that is given and with one
/// that it builds.
pub proof fn law_binary_source_does_not_matter(scenario: Scenario)
    ensures
        next(start_of(scenario), Event::BinaryKnown(true)) == next(
            next(start_of(scenario), Event::BinaryKnown(false)),
            Event::Done,
        ),
{
}

} // verus!
