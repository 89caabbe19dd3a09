//! What holds of every wait, from its first poll to its end.

use vstd::prelude::*;
use crate::failure::Failure;
use crate::laws::{asks, at, completes, lemma_at, lemma_in_order, lemma_monotone, taken};
use crate::plan::{context_of, label_of, op_at, timeout_of, Followers, Op, Scenario};
use crate::protocol::{answers, Action, Event, ReplyView};
use crate::rules::{polled, question_of};
use crate::run::stage_fits;
use crate::state::{Fault, Notes, Polled, Run, Stage, Status};

verus! {

/// Whether a step waits.
pub open spec fn waits(op: Op) -> bool {
    op is WaitReady || op is WaitHeights || op is WaitPaid
}

/// Whether a wait begins with the event at `from`.
pub open spec fn begins_wait(
    scenario: Scenario,
    events: Seq<ReplyView>,
    from: int,
    pc: usize,
) -> bool {
    &&& 0 <= from < events.len()
    &&& at(scenario, events, from).pc == pc
    &&& at(scenario, events, from).status == Status::<Seq<char>>::Running(Stage::Ask)
    &&& waits(op_at(scenario, pc))
}

/// Whether a node says that it has reached a height.
pub open spec fn reached(answer: ReplyView, least: u64) -> bool {
    answer matches Event::NodeHeight(height) && height >= least
}

/// Whether a node says that it is short of a height.
pub open spec fn short_of(answer: ReplyView, least: u64) -> bool {
    answer matches Event::NodeHeight(height) && height < least
}

/// Whether the answers of one round say that what is waited for is there: a
/// block is mined and both ends are ready, or each node has reached the tip, or
/// the balance has grown.
pub open spec fn says_yes(op: Op, notes: Notes<Seq<char>>, answers: Seq<ReplyView>) -> bool {
    match op {
        Op::WaitReady { .. } => answers == seq![
            ReplyView::Done,
            ReplyView::Ready(true),
            ReplyView::Ready(true),
        ],
        Op::WaitHeights { followers: Followers::Carol } => {
            answers.len() == 1 && reached(answers[0], notes.tip)
        },
        Op::WaitHeights { .. } => {
            answers.len() == 2 && reached(answers[0], notes.tip) && reached(answers[1], notes.tip)
        },
        Op::WaitPaid { .. } => {
            answers.len() == 1 && (answers[0] matches Event::Balance(msat) && msat > notes.balance)
        },
        _ => false,
    }
}

/// Whether the answers of one round say that it is not there. A round asks no
/// further once one answer says so.
pub open spec fn says_no(op: Op, notes: Notes<Seq<char>>, answers: Seq<ReplyView>) -> bool {
    match op {
        Op::WaitReady { .. } => {
            ||| answers == seq![ReplyView::Done, ReplyView::Ready(false)]
            ||| answers == seq![ReplyView::Done, ReplyView::Ready(true), ReplyView::Ready(false)]
        },
        Op::WaitHeights { followers: Followers::Carol } => {
            answers.len() == 1 && short_of(answers[0], notes.tip)
        },
        Op::WaitHeights { .. } => {
            ||| answers.len() == 1 && short_of(answers[0], notes.tip)
            ||| answers.len() == 2 && reached(answers[0], notes.tip) && short_of(
                answers[1],
                notes.tip,
            )
        },
        Op::WaitPaid { .. } => {
            answers.len() == 1 && (answers[0] matches Event::Balance(msat) && msat
                <= notes.balance)
        },
        _ => false,
    }
}

/// A round that did not end the wait: its answers, and the clock after them.
pub struct Round {
    pub answers: Seq<ReplyView>,
    pub secs: u64,
}

/// The events of some rounds: of each its answers, its clock and its pause.
pub open spec fn spent(rounds: Seq<Round>) -> Seq<ReplyView>
    decreases rounds.len(),
{
    if rounds.len() == 0 {
        Seq::empty()
    } else {
        spent(rounds.drop_last()) + rounds.last().answers + seq![
            ReplyView::Elapsed(rounds.last().secs),
            ReplyView::Done,
        ]
    }
}

/// Whether each of some rounds says no, with its clock below the timeout.
pub open spec fn all_in_time(op: Op, notes: Notes<Seq<char>>, rounds: Seq<Round>) -> bool {
    forall|i: int|
        #![trigger rounds[i]]
        0 <= i < rounds.len() ==> says_no(op, notes, rounds[i].answers) && rounds[i].secs
            < timeout_of(op)
}

/// A wait so far: its timer is started, some rounds have gone by, and more
/// events follow.
pub open spec fn so_far(rounds: Seq<Round>, rest: Seq<ReplyView>) -> Seq<ReplyView> {
    seq![ReplyView::Done] + spent(rounds) + rest
}

/// The answers of a round that is still to ask its question `part`.
spec fn partial(op: Op, notes: Notes<Seq<char>>, part: u64, answers: Seq<ReplyView>) -> bool {
    if part == 0 {
        answers.len() == 0
    } else if op is WaitReady {
        if part == 1 {
            answers == seq![ReplyView::Done]
        } else {
            part == 2 && answers == seq![ReplyView::Done, ReplyView::Ready(true)]
        }
    } else {
        &&& part == 1
        &&& op == (Op::WaitHeights { followers: Followers::AliceAndBob })
        &&& answers.len() == 1
        &&& reached(answers[0], notes.tip)
    }
}

/// What follows the rounds that have gone by, at a stage of a wait.
spec fn underway(op: Op, notes: Notes<Seq<char>>, stage: Stage, rest: Seq<ReplyView>) -> bool {
    match stage {
        Stage::Poll { part } => partial(op, notes, part, rest),
        Stage::Clock => says_no(op, notes, rest),
        Stage::Rest => {
            &&& rest.len() > 0
            &&& says_no(op, notes, rest.drop_last())
            &&& rest.last() matches Event::Elapsed(secs)
            &&& secs < timeout_of(op)
        },
        _ => false,
    }
}

/// What one answer makes of a round.
proof fn lemma_answer(
    op: Op,
    notes: Notes<Seq<char>>,
    part: u64,
    rest: Seq<ReplyView>,
    event: ReplyView,
)
    requires
        waits(op),
        stage_fits(op, Stage::Poll { part }),
        partial(op, notes, part, rest),
        answers(question_of(op, part, notes), event),
        event !is Failed,
    ensures
        match polled(op, part, notes, event) {
            Polled::More(next) => partial(op, notes, next, rest.push(event)),
            Polled::Yes => says_yes(op, notes, rest.push(event)),
            Polled::No => says_no(op, notes, rest.push(event)),
        },
{
    let all = rest.push(event);
    if op is WaitReady {
        if part == 0 {
            assert(all =~= seq![ReplyView::Done]);
        } else if part == 1 {
            if event == ReplyView::Ready(true) {
                assert(all =~= seq![ReplyView::Done, ReplyView::Ready(true)]);
            } else {
                assert(all =~= seq![ReplyView::Done, ReplyView::Ready(false)]);
            }
        } else {
            if event == ReplyView::Ready(true) {
                assert(all =~= seq![
                    ReplyView::Done,
                    ReplyView::Ready(true),
                    ReplyView::Ready(true),
                ]);
            } else {
                assert(all =~= seq![
                    ReplyView::Done,
                    ReplyView::Ready(true),
                    ReplyView::Ready(false),
                ]);
            }
        }
    }
}

proof fn lemma_extended(rounds: Seq<Round>, rest: Seq<ReplyView>, event: ReplyView)
    ensures
        so_far(rounds, rest).push(event) == so_far(rounds, rest.push(event)),
{
    assert(so_far(rounds, rest).push(event) =~= so_far(rounds, rest.push(event)));
}

proof fn lemma_round_over(rounds: Seq<Round>, round: Round)
    ensures
        so_far(
            rounds,
            round.answers.push(ReplyView::Elapsed(round.secs)).push(ReplyView::Done),
        ) == so_far(rounds.push(round), Seq::empty()),
{
    assert(rounds.push(round).drop_last() =~= rounds);
    assert(so_far(
        rounds,
        round.answers.push(ReplyView::Elapsed(round.secs)).push(ReplyView::Done),
    ) =~= so_far(rounds.push(round), Seq::empty()));
}

/// The events of a wait that goes on, as rounds that have gone by and the one
/// that is under way.
proof fn lemma_shape(scenario: Scenario, events: Seq<ReplyView>, from: int, e: int, pc: usize) -> (
    shape: (Seq<Round>, Seq<ReplyView>))
    requires
        taken(scenario, events),
        begins_wait(scenario, events, from, pc),
        from < e <= events.len(),
        at(scenario, events, e).pc == pc,
        at(scenario, events, e).status is Running,
    ensures
        events.subrange(from, e) == so_far(shape.0, shape.1),
        at(scenario, events, e).notes == at(scenario, events, from).notes,
        all_in_time(op_at(scenario, pc), at(scenario, events, from).notes, shape.0),
        underway(
            op_at(scenario, pc),
            at(scenario, events, from).notes,
            at(scenario, events, e).status->Running_0,
            shape.1,
        ),
    decreases e - from,
{
    let op = op_at(scenario, pc);
    let notes = at(scenario, events, from).notes;
    let event = events[e - 1];
    lemma_monotone(scenario, events, from, e - 1);
    lemma_monotone(scenario, events, e - 1, e);
    lemma_in_order(scenario, events, e - 1);
    lemma_at(scenario, events, e - 1);
    let whole = events.subrange(from, e);
    assert(whole =~= events.subrange(from, e - 1).push(event));
    if e - 1 == from {
        let none = Seq::<Round>::empty();
        assert(whole =~= so_far(none, Seq::empty()));
        (none, Seq::empty())
    } else {
        let (rounds, rest) = lemma_shape(scenario, events, from, e - 1, pc);
        let stage = at(scenario, events, e - 1).status->Running_0;
        lemma_extended(rounds, rest, event);
        match stage {
            Stage::Poll { part } => {
                lemma_answer(op, notes, part, rest, event);
                (rounds, rest.push(event))
            },
            Stage::Clock => {
                assert(rest.push(event).drop_last() =~= rest);
                (rounds, rest.push(event))
            },
            _ => {
                let round = Round { answers: rest.drop_last(), secs: rest.last()->Elapsed_0 };
                assert(rest =~= round.answers.push(ReplyView::Elapsed(round.secs)));
                lemma_round_over(rounds, round);
                (rounds.push(round), Seq::empty())
            },
        }
    }
}

/// A round that says no leads to the clock.
#[verifier::rlimit(40)]
proof fn lemma_no_round(
    scenario: Scenario,
    events: Seq<ReplyView>,
    b: int,
    pc: usize,
    round: Seq<ReplyView>,
)
    requires
        0 <= b,
        b + round.len() <= events.len(),
        at(scenario, events, b).scenario == scenario,
        at(scenario, events, b).pc == pc,
        at(scenario, events, b).status == Status::<Seq<char>>::Running(Stage::Poll { part: 0 }),
        events.subrange(b, b + round.len()) == round,
        waits(op_at(scenario, pc)),
        says_no(op_at(scenario, pc), at(scenario, events, b).notes, round),
    ensures
        at(scenario, events, b + round.len()) == (Run {
            status: Status::Running(Stage::Clock),
            ..at(scenario, events, b)
        }),
{
    assert(round[0] == events[b]);
    lemma_at(scenario, events, b);
    if round.len() > 1 {
        assert(round[1] == events[b + 1]);
        lemma_at(scenario, events, b + 1);
    }
    if round.len() > 2 {
        assert(round[2] == events[b + 2]);
        lemma_at(scenario, events, b + 2);
    }
}

/// A round that says yes completes the step with its last answer.
#[verifier::rlimit(40)]
proof fn lemma_yes_round(
    scenario: Scenario,
    events: Seq<ReplyView>,
    b: int,
    pc: usize,
    round: Seq<ReplyView>,
)
    requires
        0 <= b,
        b + round.len() <= events.len(),
        pc < 40,
        at(scenario, events, b).scenario == scenario,
        at(scenario, events, b).pc == pc,
        at(scenario, events, b).status == Status::<Seq<char>>::Running(Stage::Poll { part: 0 }),
        events.subrange(b, b + round.len()) == round,
        waits(op_at(scenario, pc)),
        says_yes(op_at(scenario, pc), at(scenario, events, b).notes, round),
    ensures
        completes(scenario, events, b + round.len() - 1, pc),
{
    assert(round[0] == events[b]);
    lemma_at(scenario, events, b);
    if round.len() > 1 {
        assert(round[1] == events[b + 1]);
        lemma_at(scenario, events, b + 1);
    }
    if round.len() > 2 {
        assert(round[2] == events[b + 2]);
        lemma_at(scenario, events, b + 2);
    }
}

/// A clock below the timeout and a pause lead to another poll.
proof fn lemma_clock(scenario: Scenario, events: Seq<ReplyView>, d: int, pc: usize, secs: u64)
    requires
        0 <= d,
        d + 2 <= events.len(),
        at(scenario, events, d).scenario == scenario,
        at(scenario, events, d).pc == pc,
        at(scenario, events, d).status == Status::<Seq<char>>::Running(Stage::Clock),
        waits(op_at(scenario, pc)),
        events[d] == ReplyView::Elapsed(secs),
        secs < timeout_of(op_at(scenario, pc)),
        events[d + 1] == ReplyView::Done,
    ensures
        at(scenario, events, d + 2) == (Run {
            status: Status::Running(Stage::Poll { part: 0 }),
            ..at(scenario, events, d)
        }),
{
    lemma_at(scenario, events, d);
    lemma_at(scenario, events, d + 1);
}

/// Where the last of some rounds stands among the events.
proof fn lemma_last_round(events: Seq<ReplyView>, from: int, b: int, rounds: Seq<Round>) -> (c: int)
    requires
        0 <= from <= b <= events.len(),
        rounds.len() > 0,
        events.subrange(from, b) == so_far(rounds, Seq::empty()),
    ensures
        from <= c,
        c + rounds.last().answers.len() + 2 == b,
        events.subrange(from, c) == so_far(rounds.drop_last(), Seq::empty()),
        events.subrange(c, c + rounds.last().answers.len()) == rounds.last().answers,
        events[c + rounds.last().answers.len()] == ReplyView::Elapsed(rounds.last().secs),
        events[c + rounds.last().answers.len() + 1] == ReplyView::Done,
{
    let whole = events.subrange(from, b);
    let round = rounds.last();
    let start = so_far(rounds.drop_last(), Seq::empty());
    let n = start.len() as int;
    let m = n + round.answers.len();
    assert(whole =~= start + round.answers + seq![
        ReplyView::Elapsed(round.secs),
        ReplyView::Done,
    ]);
    let c = from + n;
    assert(events.subrange(from, c) =~= whole.subrange(0, n));
    assert(whole.subrange(0, n) =~= start);
    assert(events.subrange(c, from + m) =~= whole.subrange(n, m));
    assert(whole.subrange(n, m) =~= round.answers);
    assert(whole[m] == events[from + m]);
    assert(whole[m + 1] == events[from + m + 1]);
    c
}

/// Rounds that say no in time lead to another poll.
proof fn lemma_through(
    scenario: Scenario,
    events: Seq<ReplyView>,
    from: int,
    b: int,
    pc: usize,
    rounds: Seq<Round>,
)
    requires
        begins_wait(scenario, events, from, pc),
        at(scenario, events, from).scenario == scenario,
        from <= b <= events.len(),
        events.subrange(from, b) == so_far(rounds, Seq::empty()),
        all_in_time(op_at(scenario, pc), at(scenario, events, from).notes, rounds),
    ensures
        from < b,
        at(scenario, events, b) == (Run {
            status: Status::Running(Stage::Poll { part: 0 }),
            ..at(scenario, events, from)
        }),
    decreases rounds.len(),
{
    if rounds.len() == 0 {
        let whole = events.subrange(from, b);
        assert(whole.len() == b - from);
        assert(whole[0] == events[from]);
        lemma_at(scenario, events, from);
    } else {
        let earlier = rounds.drop_last();
        let round = rounds[rounds.len() - 1];
        let c = lemma_last_round(events, from, b, rounds);
        assert(all_in_time(op_at(scenario, pc), at(scenario, events, from).notes, earlier)) by {
            assert forall|i: int| 0 <= i < earlier.len() implies #[trigger] earlier[i]
                == rounds[i] by {}
        }
        lemma_through(scenario, events, from, c, pc, earlier);
        lemma_no_round(scenario, events, c, pc, round.answers);
        lemma_clock(scenario, events, c + round.answers.len(), pc, round.secs);
    }
}

/// Where the events of a wait are some rounds and more, the rest begins at a
/// poll.
proof fn lemma_split(
    scenario: Scenario,
    events: Seq<ReplyView>,
    from: int,
    e: int,
    pc: usize,
    rounds: Seq<Round>,
    rest: Seq<ReplyView>,
) -> (b: int)
    requires
        begins_wait(scenario, events, from, pc),
        at(scenario, events, from).scenario == scenario,
        from <= e <= events.len(),
        events.subrange(from, e) == so_far(rounds, rest),
        all_in_time(op_at(scenario, pc), at(scenario, events, from).notes, rounds),
    ensures
        from < b,
        b + rest.len() == e,
        events.subrange(b, e) == rest,
        at(scenario, events, b) == (Run {
            status: Status::Running(Stage::Poll { part: 0 }),
            ..at(scenario, events, from)
        }),
{
    let whole = events.subrange(from, e);
    let start = so_far(rounds, Seq::empty());
    let b = from + start.len();
    assert(whole =~= start + rest);
    assert(events.subrange(from, b) =~= whole.take(start.len() as int));
    assert(events.subrange(from, b) =~= start);
    lemma_through(scenario, events, from, b, pc, rounds);
    assert(events.subrange(b, e) =~= whole.skip(start.len() as int));
    assert(events.subrange(b, e) =~= rest);
    b
}

/// A wait ends well exactly when some round says yes and every round before it
/// said no with the clock below the timeout.
pub proof fn law_wait_ends_well(
    scenario: Scenario,
    events: Seq<ReplyView>,
    from: int,
    e: int,
    pc: usize,
)
    requires
        taken(scenario, events),
        begins_wait(scenario, events, from, pc),
        from <= e < events.len(),
    ensures
        completes(scenario, events, e, pc) <==> exists|rounds: Seq<Round>, last: Seq<ReplyView>|
            {
                &&& events.subrange(from, e + 1) == #[trigger] so_far(rounds, last)
                &&& all_in_time(op_at(scenario, pc), at(scenario, events, from).notes, rounds)
                &&& says_yes(op_at(scenario, pc), at(scenario, events, from).notes, last)
            },
{
    let op = op_at(scenario, pc);
    let notes = at(scenario, events, from).notes;
    lemma_in_order(scenario, events, from);
    if completes(scenario, events, e, pc) {
        lemma_in_order(scenario, events, e);
        lemma_at(scenario, events, e);
        let (rounds, rest) = lemma_shape(scenario, events, from, e, pc);
        let part = at(scenario, events, e).status->Running_0->Poll_part;
        lemma_answer(op, notes, part, rest, events[e]);
        lemma_extended(rounds, rest, events[e]);
        assert(events.subrange(from, e + 1) =~= events.subrange(from, e).push(events[e]));
        assert(events.subrange(from, e + 1) == so_far(rounds, rest.push(events[e])));
    }
    if exists|rounds: Seq<Round>, last: Seq<ReplyView>|
        {
            &&& events.subrange(from, e + 1) == #[trigger] so_far(rounds, last)
            &&& all_in_time(op, notes, rounds)
            &&& says_yes(op, notes, last)
        } {
        let (rounds, last) = choose|rounds: Seq<Round>, last: Seq<ReplyView>|
            {
                &&& events.subrange(from, e + 1) == #[trigger] so_far(rounds, last)
                &&& all_in_time(op, notes, rounds)
                &&& says_yes(op, notes, last)
            };
        let b = lemma_split(scenario, events, from, e + 1, pc, rounds, last);
        lemma_yes_round(scenario, events, b, pc, last);
    }
}

/// A wait times out exactly when a round says no with the clock at the timeout
/// or past it, and every round before it said no with the clock below.
#[verifier::rlimit(40)]
pub proof fn law_wait_times_out(
    scenario: Scenario,
    events: Seq<ReplyView>,
    from: int,
    e: int,
    pc: usize,
)
    requires
        taken(scenario, events),
        begins_wait(scenario, events, from, pc),
        from <= e < events.len(),
    ensures
        (at(scenario, events, e).pc == pc && at(scenario, events, e + 1).status
            == Status::Failed(
            Fault {
                failure: Failure::TimedOut(label_of(op_at(scenario, pc))),
                context: context_of(op_at(scenario, pc)),
            },
        )) <==> exists|rounds: Seq<Round>, last: Seq<ReplyView>, secs: u64|
            {
                &&& events.subrange(from, e + 1) == #[trigger] so_far(
                    rounds,
                    last.push(ReplyView::Elapsed(secs)),
                )
                &&& all_in_time(op_at(scenario, pc), at(scenario, events, from).notes, rounds)
                &&& says_no(op_at(scenario, pc), at(scenario, events, from).notes, last)
                &&& secs >= timeout_of(op_at(scenario, pc))
            },
{
    let op = op_at(scenario, pc);
    let notes = at(scenario, events, from).notes;
    lemma_in_order(scenario, events, from);
    if at(scenario, events, e).pc == pc && at(scenario, events, e + 1).status == Status::Failed(
        Fault { failure: Failure::TimedOut(label_of(op)), context: context_of(op) },
    ) {
        lemma_in_order(scenario, events, e);
        lemma_at(scenario, events, e);
        let (rounds, rest) = lemma_shape(scenario, events, from, e, pc);
        let secs = events[e]->Elapsed_0;
        lemma_extended(rounds, rest, events[e]);
        assert(events.subrange(from, e + 1) =~= events.subrange(from, e).push(events[e]));
        assert(events.subrange(from, e + 1) == so_far(
            rounds,
            rest.push(ReplyView::Elapsed(secs)),
        ));
    }
    if exists|rounds: Seq<Round>, last: Seq<ReplyView>, secs: u64|
        {
            &&& events.subrange(from, e + 1) == #[trigger] so_far(
                rounds,
                last.push(ReplyView::Elapsed(secs)),
            )
            &&& all_in_time(op, notes, rounds)
            &&& says_no(op, notes, last)
            &&& secs >= timeout_of(op)
        } {
        let (rounds, last, secs) = choose|rounds: Seq<Round>, last: Seq<ReplyView>, secs: u64|
            {
                &&& events.subrange(from, e + 1) == #[trigger] so_far(
                    rounds,
                    last.push(ReplyView::Elapsed(secs)),
                )
                &&& all_in_time(op, notes, rounds)
                &&& says_no(op, notes, last)
                &&& secs >= timeout_of(op)
            };
        let all = last.push(ReplyView::Elapsed(secs));
        let b = lemma_split(scenario, events, from, e + 1, pc, rounds, all);
        assert(events.subrange(b, e) =~= all.drop_last());
        assert(all.drop_last() =~= last);
        lemma_no_round(scenario, events, b, pc, last);
        assert(events.subrange(b, e + 1)[last.len() as int] == events[e]);
        lemma_at(scenario, events, e);
    }
}

/// How many pauses a run has asked for between two places.
pub open spec fn pauses(scenario: Scenario, events: Seq<ReplyView>, from: int, to: int) -> nat
    decreases to - from,
{
    if to <= from {
        0
    } else {
        pauses(scenario, events, from, to - 1) + if asks(at(scenario, events, to - 1)) matches Some(
            Action::Pause { .. },
        ) {
            1nat
        } else {
            0nat
        }
    }
}

/// How many rounds of polls a run has begun between two places.
pub open spec fn rounds_begun(scenario: Scenario, events: Seq<ReplyView>, from: int, to: int) -> nat
    decreases to - from,
{
    if to <= from {
        0
    } else {
        rounds_begun(scenario, events, from, to - 1) + if at(scenario, events, to - 1).status
            == Status::<Seq<char>>::Running(Stage::Poll { part: 0 }) {
            1nat
        } else {
            0nat
        }
    }
}

/// Whether the clock counts the pauses: each reading between two places is at
/// least the number of pauses before it.
pub open spec fn clock_counts(scenario: Scenario, events: Seq<ReplyView>, from: int, to: int) -> bool {
    forall|t: int|
        #![trigger events[t]]
        from <= t < to ==> (events[t] matches Event::Elapsed(secs) ==> secs >= pauses(
            scenario,
            events,
            from,
            t,
        ))
}

/// How a wait goes from stage to stage.
proof fn lemma_moves(scenario: Scenario, events: Seq<ReplyView>, e: int, pc: usize)
    requires
        taken(scenario, events),
        0 <= e,
        e + 1 < events.len(),
        at(scenario, events, e).pc == pc,
        at(scenario, events, e + 1).pc == pc,
        waits(op_at(scenario, pc)),
    ensures
        at(scenario, events, e).status matches Status::Running(stage) && at(
            scenario,
            events,
            e + 1,
        ).status matches Status::Running(then) && match stage {
            Stage::Ask => then == (Stage::Poll { part: 0 }),
            Stage::Poll { .. } => then is Clock || (then matches Stage::Poll { part } && part > 0),
            Stage::Clock => then is Rest && (events[e] matches Event::Elapsed(secs) && secs
                < timeout_of(op_at(scenario, pc))),
            Stage::Rest => then == (Stage::Poll { part: 0 }),
            _ => false,
        },
{
    lemma_in_order(scenario, events, e);
    lemma_at(scenario, events, e);
}

/// A wait pauses at its rests only.
proof fn lemma_pause(scenario: Scenario, events: Seq<ReplyView>, e: int, pc: usize)
    requires
        taken(scenario, events),
        0 <= e < events.len(),
        at(scenario, events, e).pc == pc,
        waits(op_at(scenario, pc)),
    ensures
        asks(at(scenario, events, e)) matches Some(Action::Pause { .. }) <==> at(
            scenario,
            events,
            e,
        ).status == Status::<Seq<char>>::Running(Stage::Rest),
{
    lemma_in_order(scenario, events, e);
}

/// How many rounds and pauses a wait has behind it at each of its stages.
proof fn lemma_counted(scenario: Scenario, events: Seq<ReplyView>, from: int, e: int, pc: usize)
    requires
        taken(scenario, events),
        begins_wait(scenario, events, from, pc),
        from < e < events.len(),
        at(scenario, events, e).pc == pc,
        clock_counts(scenario, events, from, e),
    ensures
        at(scenario, events, e).status matches Status::Running(stage) && match stage {
            Stage::Poll { part } => {
                &&& pauses(scenario, events, from, e) <= timeout_of(op_at(scenario, pc))
                &&& rounds_begun(scenario, events, from, e) == pauses(scenario, events, from, e)
                    + if part == 0 {
                    0nat
                } else {
                    1nat
                }
            },
            Stage::Clock => {
                &&& pauses(scenario, events, from, e) <= timeout_of(op_at(scenario, pc))
                &&& rounds_begun(scenario, events, from, e) == pauses(scenario, events, from, e) + 1
            },
            Stage::Rest => {
                &&& pauses(scenario, events, from, e) < timeout_of(op_at(scenario, pc))
                &&& rounds_begun(scenario, events, from, e) == pauses(scenario, events, from, e) + 1
            },
            _ => false,
        },
    decreases e - from,
{
    lemma_monotone(scenario, events, from, e - 1);
    lemma_monotone(scenario, events, e - 1, e);
    lemma_moves(scenario, events, e - 1, pc);
    lemma_pause(scenario, events, e - 1, pc);
    if e - 1 == from {
        assert(pauses(scenario, events, from, from) == 0);
        assert(rounds_begun(scenario, events, from, from) == 0);
    } else {
        lemma_counted(scenario, events, from, e - 1, pc);
        assert(events[e - 1] is Elapsed ==> events[e - 1]->Elapsed_0 >= pauses(
            scenario,
            events,
            from,
            e - 1,
        ));
    }
}

/// A wait is bounded: where the clock counts the pauses, a wait of so many
/// seconds begins at most one round more than that.
pub proof fn law_wait_is_bounded(
    scenario: Scenario,
    events: Seq<ReplyView>,
    from: int,
    e: int,
    pc: usize,
)
    requires
        taken(scenario, events),
        begins_wait(scenario, events, from, pc),
        from <= e < events.len(),
        at(scenario, events, e).pc == pc,
        clock_counts(scenario, events, from, e),
    ensures
        rounds_begun(scenario, events, from, e + 1) <= timeout_of(op_at(scenario, pc)) + 1,
{
    if e == from {
        assert(rounds_begun(scenario, events, from, from) == 0);
    } else {
        lemma_counted(scenario, events, from, e, pc);
    }
}

} // verus!
