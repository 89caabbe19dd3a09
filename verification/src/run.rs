//! A run of a scenario: it says what to do next, and takes the reply.

use vstd::prelude::*;
use crate::channel::{channel_with, Channel};
use crate::failure::Failure;
use crate::funding::{funding_block, plausible};
use crate::header::{check_header, check_headerv, check_level_zero};
use crate::json::text_of;
use crate::plan::{
    invoice_description, length, op_at, plan_length, step_at, step_context, step_label,
    step_timeout, At, ChannelUse, Followers, FundingUse, HeightUse, Op, Scenario, Who,
    ACTIVATION_HEIGHT, CHANNEL_SATS, LAST_V1_HEIGHT, PAYMENT_MSAT, POLL_PAUSE_SECS, PUSH_MSAT,
    SAMPLES, START_HEIGHT, TIP_PAST_ACTIVATION,
};
use crate::protocol::{answers, is_reply, Action, Event, Reply, ReplyView, Request};
use crate::rules::{
    action_of, advance_of, after_channel, after_funding, after_header, after_height,
    after_level_zero, after_sample, after_start, after_wait, entry_of, failing, fault_of,
    first_action, height_of, id_of, polled, question_of, sampled_by,
};
use crate::state::{Advance, Fault, Notes, Polled, Run, Stage, Status, Verdict};
use crate::text::starts_with;

verus! {

/// Whether a stage belongs to a step.
pub open spec fn stage_fits(op: Op, stage: Stage) -> bool {
    match op {
        Op::FindBinary { .. } => stage is Ask || stage is Build,
        Op::Header { want, .. } => match stage {
            Stage::Ask => true,
            Stage::Info { .. } => true,
            Stage::Raw { headerv, .. } => headerv == want,
            _ => false,
        },
        Op::LevelZeroHeader { .. } => stage is Ask || stage is RawOnly,
        Op::SampleFunding(_) => match stage {
            Stage::SampleHeight { left } => 1 <= left <= SAMPLES,
            Stage::SampleChannel { left, .. } => 1 <= left <= SAMPLES,
            Stage::SampleAgain { left, .. } => 1 <= left <= SAMPLES,
            _ => false,
        },
        Op::WaitReady { .. } => match stage {
            Stage::Poll { part } => part <= 2,
            _ => stage is Ask || stage is Clock || stage is Rest,
        },
        Op::WaitHeights { followers } => match stage {
            Stage::Poll { part } => part == 0 || (part == 1 && followers == Followers::AliceAndBob),
            _ => stage is Ask || stage is Clock || stage is Rest,
        },
        Op::WaitPaid { .. } => match stage {
            Stage::Poll { part } => part == 0,
            _ => stage is Ask || stage is Clock || stage is Rest,
        },
        _ => stage is Ask,
    }
}

/// What the notes of a run hold once its steps have been done.
pub open spec fn notes_fit(scenario: Scenario, pc: usize, notes: Notes<Seq<char>>) -> bool {
    match scenario {
        Scenario::Activation => {
            &&& pc > 6 ==> notes.alice_id != notes.bob_id
            &&& pc > 11 ==> notes.height_before < ACTIVATION_HEIGHT
            &&& pc > 13 ==> notes.height == LAST_V1_HEIGHT
            &&& 17 < pc <= 29 ==> notes.tip == TIP_PAST_ACTIVATION
            &&& pc > 23 ==> notes.confirmations_after > 0
            &&& pc > 34 ==> notes.v2_funding >= ACTIVATION_HEIGHT
        },
        Scenario::KnotsBackend => pc > 3 ==> notes.height == START_HEIGHT,
    }
}

/// Whether a run is in order.
pub open spec fn well_formed(run: Run<Seq<char>>) -> bool {
    &&& notes_fit(run.scenario, run.pc, run.notes)
    &&& match run.status {
        Status::Running(stage) => run.pc < plan_length(run.scenario) && stage_fits(
            op_at(run.scenario, run.pc),
            stage,
        ),
        Status::Passed => run.pc == plan_length(run.scenario),
        Status::Failed(_) => run.pc < plan_length(run.scenario),
    }
}

/// A scenario before its first step.
pub open spec fn start_of(scenario: Scenario) -> Run<Seq<char>> {
    Run {
        scenario,
        pc: 0,
        notes: Notes {
            height: 0,
            height_before: 0,
            tip: 0,
            alice_id: ""@,
            bob_id: ""@,
            carol_id: ""@,
            funding_txid: ""@,
            funding_before: 0,
            confirmations_after: 0,
            v2_funding: 0,
            balance: 0,
            invoice: ""@,
        },
        status: Status::Running(Stage::Ask),
    }
}

/// Whether a run takes an event: the event replies to what the run asks for,
/// and where it completes a sample, the node has not counted more confirmations
/// than its height has blocks.
pub open spec fn accepts(run: Run<Seq<char>>, event: ReplyView) -> bool {
    match run.status {
        Status::Running(stage) => {
            &&& answers(action_of(op_at(run.scenario, run.pc), stage, run.notes), event)
            &&& match (stage, event) {
                (Stage::SampleAgain { height, confirmations, .. }, Event::NodeHeight(again)) => {
                    again == height ==> plausible(height, confirmations)
                },
                _ => true,
            }
        },
        _ => false,
    }
}

/// The run after a step is done.
pub open spec fn finished(run: Run<Seq<char>>, notes: Notes<Seq<char>>) -> Run<Seq<char>> {
    let pc = (run.pc + 1) as usize;
    Run {
        pc,
        notes,
        status: if pc >= plan_length(run.scenario) {
            Status::Passed
        } else {
            Status::Running(entry_of(op_at(run.scenario, pc)))
        },
        ..run
    }
}

/// The run after an event.
pub open spec fn next(run: Run<Seq<char>>, event: ReplyView) -> Run<Seq<char>> {
    match run.status {
        Status::Running(stage) => {
            let op = op_at(run.scenario, run.pc);
            match event {
                Event::Failed(error) => Run {
                    status: Status::Failed(fault_of(op, stage, run.notes, error)),
                    ..run
                },
                _ => match advance_of(op, stage, run.notes, event) {
                    Advance::Stay(stage) => Run { status: Status::Running(stage), ..run },
                    Advance::Finish(notes) => finished(run, notes),
                    Advance::Fail(fault) => Run { status: Status::Failed(fault), ..run },
                },
            }
        },
        _ => run,
    }
}

fn height_at(at: At, notes: &Notes<String>) -> (height: u64)
    ensures
        height == height_of(at, notes@),
{
    match at {
        At::Height(height) => height,
        At::LastRead => notes.height,
        At::BeforeSwitch => notes.height_before,
        At::Tip => notes.tip,
        At::V2Funding => notes.v2_funding,
    }
}

fn identity(node: Who, notes: &Notes<String>) -> (id: &str)
    ensures
        id@ == id_of(node, notes@),
{
    match node {
        Who::Alice => notes.alice_id.as_str(),
        Who::Bob => notes.bob_id.as_str(),
        Who::Carol => notes.carol_id.as_str(),
    }
}

fn sampled(op: Op) -> (node: Who)
    ensures
        node == sampled_by(op),
{
    match op {
        Op::SampleFunding(FundingUse::V2Only) => Who::Carol,
        _ => Who::Alice,
    }
}

fn question(op: Op, part: u64, notes: &Notes<String>) -> (action: Request<'_>)
    ensures
        action@ == question_of(op, part, notes@),
{
    match op {
        Op::WaitReady { opener } => if part == 0 {
            Action::Mine { blocks: 1 }
        } else if part == 1 {
            Action::AskReady { node: opener, peer: notes.bob_id.as_str() }
        } else {
            Action::AskReady { node: Who::Bob, peer: identity(opener, notes) }
        },
        Op::WaitHeights { followers: Followers::Carol } => Action::ReadNodeHeight {
            node: Who::Carol,
        },
        Op::WaitHeights { .. } => Action::ReadNodeHeight {
            node: if part == 0 {
                Who::Alice
            } else {
                Who::Bob
            },
        },
        _ => Action::ReadBalance { node: Who::Bob },
    }
}

fn first_request(op: Op, notes: &Notes<String>) -> (action: Request<'_>)
    requires
        op == Op::MineToLastV1 ==> notes.height_before <= LAST_V1_HEIGHT,
    ensures
        action@ == first_action(op, notes@),
{
    match op {
        Op::FindBinary { .. } => Action::ProbeBinary,
        Op::StartChain { activation } => Action::StartChain { activation },
        Op::Mine { blocks } => Action::Mine { blocks },
        Op::MineToLastV1 => Action::Mine { blocks: LAST_V1_HEIGHT - notes.height_before },
        Op::ReadHeight(_) => Action::ReadChainInfo,
        Op::StartRelay => Action::StartRelay,
        Op::StartNode { node, .. } => Action::StartNode { node },
        Op::OpenChannel { from } => Action::OpenChannel {
            from,
            peer: notes.bob_id.as_str(),
            sats: CHANNEL_SATS,
            push_msat: PUSH_MSAT,
        },
        Op::WaitReady { .. } => Action::StartTimer,
        Op::ReadChannel(_) => Action::ListChannels { node: Who::Alice },
        Op::SampleFunding(_) => Action::ReadNodeHeight { node: sampled(op) },
        Op::Header { at, .. } => Action::ReadBlockHash { height: height_at(at, notes) },
        Op::LevelZeroHeader { at } => Action::ReadBlockHash { height: height_at(at, notes) },
        Op::WaitHeights { .. } => Action::StartTimer,
        Op::ReadBalance => Action::ReadBalance { node: Who::Bob },
        Op::MakeInvoice { payer } => Action::MakeInvoice {
            node: Who::Bob,
            msat: PAYMENT_MSAT,
            description: invoice_description(payer),
        },
        Op::Pay { payer } => Action::PayInvoice { node: payer, invoice: notes.invoice.as_str() },
        Op::WaitPaid { .. } => Action::StartTimer,
        Op::NewAddress => Action::NewAddress { node: Who::Alice },
    }
}

fn entry(op: Op) -> (stage: Stage)
    ensures
        stage == entry_of(op),
{
    match op {
        Op::SampleFunding(_) => Stage::SampleHeight { left: SAMPLES },
        _ => Stage::Ask,
    }
}

fn fault(op: Op, stage: &Stage, notes: &Notes<String>, error: String) -> (fault: Fault<String>)
    ensures
        fault@ == fault_of(op, *stage, notes@, error@),
{
    let context = step_context(op);
    let failure = match op {
        Op::ReadHeight(_) => Failure::ChainInfo(error),
        Op::Header { at, .. } => {
            let height = height_at(at, notes);
            match stage {
                Stage::Ask => Failure::BlockHash { height, error },
                Stage::Info { .. } => Failure::HeaderInfo { height, error },
                _ => Failure::RawHeader { height, error },
            }
        },
        Op::LevelZeroHeader { at } => match stage {
            Stage::Ask => Failure::BlockHash { height: height_at(at, notes), error },
            _ => Failure::LevelZeroHeader(error),
        },
        _ => Failure::Call(error),
    };
    Fault { failure, context }
}

fn fail(failure: Failure<String>) -> (advance: Advance<String>)
    ensures
        advance@ == failing(failure@),
{
    Advance::Fail(Fault { failure, context: None })
}

fn take_height(used: HeightUse, notes: Notes<String>, height: u64) -> (advance: Advance<String>)
    ensures
        advance@ == after_height(used, notes@, height),
{
    match used {
        HeightUse::Start => if height != START_HEIGHT {
            fail(Failure::WrongStartHeight(height))
        } else if height >= ACTIVATION_HEIGHT {
            fail(Failure::PastActivation)
        } else {
            Advance::Finish(Notes { height, ..notes })
        },
        HeightUse::LevelZeroStart => if height != START_HEIGHT {
            fail(Failure::WrongStartHeight(height))
        } else {
            Advance::Finish(Notes { height, ..notes })
        },
        HeightUse::BeforeSwitch => if height >= ACTIVATION_HEIGHT {
            fail(Failure::ConfirmedTooLate(height))
        } else {
            Advance::Finish(Notes { height_before: height, ..notes })
        },
        HeightUse::LastV1 => if height != LAST_V1_HEIGHT {
            fail(Failure::WrongHeight { want: LAST_V1_HEIGHT, got: height })
        } else {
            Advance::Finish(Notes { height, ..notes })
        },
        HeightUse::Tip => if height != TIP_PAST_ACTIVATION {
            fail(Failure::WrongTip { want: TIP_PAST_ACTIVATION, got: height })
        } else {
            Advance::Finish(Notes { tip: height, ..notes })
        },
        HeightUse::ColdTip => Advance::Finish(Notes { tip: height, ..notes }),
    }
}

fn take_start(node: Who, notes: Notes<String>, id: String) -> (advance: Advance<String>)
    ensures
        advance@ == after_start(node, notes@, id@),
{
    match node {
        Who::Alice => Advance::Finish(Notes { alice_id: id, ..notes }),
        Who::Bob => if id == notes.alice_id {
            fail(Failure::SharedNodeId)
        } else {
            Advance::Finish(Notes { bob_id: id, ..notes })
        },
        Who::Carol => Advance::Finish(Notes { carol_id: id, ..notes }),
    }
}

/// Whether an optional text is this one.
fn is_text(text: &Option<String>, wanted: &String) -> (is: bool)
    ensures
        is == (text_of(*text) == Some(wanted@)),
{
    match text {
        Some(text) => *text == *wanted,
        None => false,
    }
}

fn take_channel(used: ChannelUse, notes: Notes<String>, channel: &Channel<String>) -> (advance:
    Advance<String>)
    ensures
        advance@ == after_channel(used, notes@, channel@),
{
    match used {
        ChannelUse::BeforeSwitch => match &channel.funding_txid {
            None => fail(Failure::NoFundingTxid),
            Some(txid) => Advance::Finish(Notes { funding_txid: txid.clone(), ..notes }),
        },
        ChannelUse::AfterSwitch => if !is_text(&channel.funding_txid, &notes.funding_txid) {
            fail(
                Failure::TxidChanged {
                    before: notes.funding_txid,
                    after: channel.funding_txid_shown.clone(),
                },
            )
        } else if !is_text(&channel.state, &"active".to_owned()) {
            fail(Failure::NotActive(channel.state_shown.clone()))
        } else {
            let confirmations_after: u64 = match channel.confirmations {
                Some(confirmations) => confirmations,
                None => 0,
            };
            Advance::Finish(Notes { confirmations_after, ..notes })
        },
    }
}

fn take_funding(used: FundingUse, notes: Notes<String>, block: u64) -> (advance: Advance<String>)
    ensures
        advance@ == after_funding(used, notes@, block),
{
    match used {
        FundingUse::BeforeSwitch => Advance::Finish(Notes { funding_before: block, ..notes }),
        FundingUse::AfterSwitch => if block != notes.funding_before {
            fail(Failure::FundingMoved { was: notes.funding_before, now: block })
        } else if notes.confirmations_after == 0 {
            fail(Failure::NothingConfirmed)
        } else {
            Advance::Finish(notes)
        },
        FundingUse::V2Only => if block < ACTIVATION_HEIGHT {
            fail(Failure::FundedBelowActivation { block, activation: ACTIVATION_HEIGHT })
        } else {
            Advance::Finish(Notes { v2_funding: block, ..notes })
        },
    }
}

fn take_sample(used: FundingUse, stage: Stage, notes: Notes<String>, event: Reply) -> (advance:
    Advance<String>)
    requires
        match (stage, event) {
            (Stage::SampleAgain { height, confirmations, .. }, Event::NodeHeight(again)) => {
                again == height ==> plausible(height, confirmations)
            },
            _ => true,
        },
    ensures
        advance@ == after_sample(used, stage, notes@, event@),
{
    match (stage, event) {
        (Stage::SampleHeight { left }, Event::NodeHeight(height)) => Advance::Stay(
            Stage::SampleChannel { left, height },
        ),
        (Stage::SampleChannel { left, height }, Event::Channels(channels)) => match channel_with(
            &channels,
            &notes.bob_id,
        ) {
            Err(failure) => fail(failure),
            Ok(channel) => Advance::Stay(
                Stage::SampleAgain { left, height, confirmations: channel.confirmations },
            ),
        },
        (Stage::SampleAgain { left, height, confirmations }, Event::NodeHeight(again)) => {
            if again != height {
                if left <= 1 {
                    fail(Failure::NoSteadySample)
                } else {
                    Advance::Stay(Stage::SampleHeight { left: left - 1 })
                }
            } else {
                match funding_block(height, confirmations) {
                    Err(failure) => fail(failure),
                    Ok(block) => take_funding(used, notes, block),
                }
            }
        },
        (stage, _) => Advance::Stay(stage),
    }
}

fn take_header(height: u64, want: u64, stage: Stage, notes: Notes<String>, event: Reply) -> (advance:
    Advance<String>)
    ensures
        advance@ == after_header(height, want, stage, notes@, event@),
{
    match (stage, event) {
        (Stage::Ask, Event::BlockHash(hash)) => Advance::Stay(Stage::Info { hash }),
        (Stage::Info { hash }, Event::HeaderVersion(headerv)) => match check_headerv(
            height,
            headerv,
            want,
        ) {
            Err(failure) => fail(failure),
            Ok(headerv) => Advance::Stay(Stage::Raw { hash, headerv }),
        },
        (Stage::Raw { headerv, .. }, Event::HeaderText(text)) => match check_header(
            height,
            headerv,
            &text,
            want,
        ) {
            Err(failure) => fail(failure),
            Ok(()) => Advance::Finish(notes),
        },
        (stage, _) => Advance::Stay(stage),
    }
}

fn take_level_zero(height: u64, stage: Stage, notes: Notes<String>, event: Reply) -> (advance:
    Advance<String>)
    ensures
        advance@ == after_level_zero(height, stage, notes@, event@),
{
    match (stage, event) {
        (Stage::Ask, Event::BlockHash(hash)) => Advance::Stay(Stage::RawOnly { hash }),
        (Stage::RawOnly { .. }, Event::HeaderText(text)) => match check_level_zero(height, &text) {
            Err(failure) => fail(failure),
            Ok(()) => Advance::Finish(notes),
        },
        (stage, _) => Advance::Stay(stage),
    }
}

fn poll(op: Op, part: u64, notes: &Notes<String>, event: &Reply) -> (said: Polled)
    ensures
        said == polled(op, part, notes@, event@),
{
    match (op, event) {
        (Op::WaitReady { .. }, Event::Done) => Polled::More(1),
        (Op::WaitReady { .. }, Event::Ready(ready)) => if !*ready {
            Polled::No
        } else if part == 1 {
            Polled::More(2)
        } else {
            Polled::Yes
        },
        (Op::WaitHeights { followers }, Event::NodeHeight(height)) => if *height < notes.tip {
            Polled::No
        } else if followers == Followers::AliceAndBob && part == 0 {
            Polled::More(1)
        } else {
            Polled::Yes
        },
        (Op::WaitPaid { .. }, Event::Balance(msat)) => if *msat > notes.balance {
            Polled::Yes
        } else {
            Polled::No
        },
        _ => Polled::No,
    }
}

fn take_wait(op: Op, stage: Stage, notes: Notes<String>, event: Reply) -> (advance: Advance<String>)
    ensures
        advance@ == after_wait(op, stage, notes@, event@),
{
    match (stage, event) {
        (Stage::Ask, _) => Advance::Stay(Stage::Poll { part: 0 }),
        (Stage::Poll { part }, event) => match poll(op, part, &notes, &event) {
            Polled::More(part) => Advance::Stay(Stage::Poll { part }),
            Polled::Yes => Advance::Finish(notes),
            Polled::No => Advance::Stay(Stage::Clock),
        },
        (Stage::Clock, Event::Elapsed(secs)) => if secs < step_timeout(op) {
            Advance::Stay(Stage::Rest)
        } else {
            Advance::Fail(
                Fault {
                    failure: Failure::TimedOut(step_label(op).to_owned()),
                    context: step_context(op),
                },
            )
        },
        (Stage::Rest, _) => Advance::Stay(Stage::Poll { part: 0 }),
        (stage, _) => Advance::Stay(stage),
    }
}

fn take(op: Op, stage: Stage, notes: Notes<String>, event: Reply) -> (advance: Advance<String>)
    requires
        match (stage, event) {
            (Stage::SampleAgain { height, confirmations, .. }, Event::NodeHeight(again)) => {
                again == height ==> plausible(height, confirmations)
            },
            _ => true,
        },
    ensures
        advance@ == advance_of(op, stage, notes@, event@),
{
    match (op, event) {
        (Op::FindBinary { .. }, Event::BinaryKnown(given)) => if given {
            Advance::Finish(notes)
        } else {
            Advance::Stay(Stage::Build)
        },
        (Op::ReadHeight(used), Event::Blocks(blocks)) => match blocks {
            None => fail(Failure::BlocksMissing),
            Some(height) => take_height(used, notes, height),
        },
        (Op::StartNode { node, .. }, Event::NodeUp(id)) => take_start(node, notes, id),
        (Op::WaitReady { .. }, event) => take_wait(op, stage, notes, event),
        (Op::ReadChannel(used), Event::Channels(channels)) => match channel_with(
            &channels,
            &notes.bob_id,
        ) {
            Err(failure) => fail(failure),
            Ok(channel) => take_channel(used, notes, channel),
        },
        (Op::SampleFunding(used), event) => take_sample(used, stage, notes, event),
        (Op::Header { at, want }, event) => {
            let height = height_at(at, &notes);
            take_header(height, want, stage, notes, event)
        },
        (Op::LevelZeroHeader { at }, event) => {
            let height = height_at(at, &notes);
            take_level_zero(height, stage, notes, event)
        },
        (Op::WaitHeights { .. }, event) => take_wait(op, stage, notes, event),
        (Op::ReadBalance, Event::Balance(msat)) => Advance::Finish(Notes { balance: msat, ..notes }),
        (Op::MakeInvoice { .. }, Event::Invoice(invoice)) => Advance::Finish(
            Notes { invoice, ..notes },
        ),
        (Op::WaitPaid { .. }, event) => take_wait(op, stage, notes, event),
        (Op::NewAddress, Event::Address(address)) => if starts_with(&address, "bcrt1") {
            Advance::Finish(notes)
        } else {
            fail(Failure::NotRegtest(address))
        },
        _ => Advance::Finish(notes),
    }
}

impl Run<String> {
    /// Starts a scenario.
    pub fn start(scenario: Scenario) -> (run: Self)
        ensures
            run@ == start_of(scenario),
            well_formed(run@),
    {
        Run {
            scenario,
            pc: 0,
            notes: Notes {
                height: 0,
                height_before: 0,
                tip: 0,
                alice_id: "".to_owned(),
                bob_id: "".to_owned(),
                carol_id: "".to_owned(),
                funding_txid: "".to_owned(),
                funding_before: 0,
                confirmations_after: 0,
                v2_funding: 0,
                balance: 0,
                invoice: "".to_owned(),
            },
            status: Status::Running(Stage::Ask),
        }
    }

    /// What the run asks for, while it is under way.
    pub fn action(&self) -> (action: Option<Request<'_>>)
        requires
            well_formed(self@),
        ensures
            match self@.status {
                Status::Running(stage) => action is Some && action->0@ == action_of(
                    op_at(self.scenario, self.pc),
                    stage,
                    self@.notes,
                ),
                _ => action is None,
            },
    {
        let op = step_at(self.scenario, self.pc);
        let notes = &self.notes;
        match &self.status {
            Status::Running(stage) => Some(
                match stage {
                    Stage::Ask => first_request(op, notes),
                    Stage::Build => Action::BuildNode {
                        blake2b: op == (Op::FindBinary { blake2b: true }),
                    },
                    Stage::Info { hash } => Action::ReadHeaderInfo { hash },
                    Stage::Raw { hash, .. } => Action::ReadRawHeader { hash },
                    Stage::RawOnly { hash } => Action::ReadRawHeader { hash },
                    Stage::SampleHeight { .. } => Action::ReadNodeHeight { node: sampled(op) },
                    Stage::SampleChannel { .. } => Action::ListChannels { node: sampled(op) },
                    Stage::SampleAgain { .. } => Action::ReadNodeHeight { node: sampled(op) },
                    Stage::Poll { part } => question(op, *part, notes),
                    Stage::Clock => Action::ReadTimer,
                    Stage::Rest => Action::Pause { secs: POLL_PAUSE_SECS },
                },
            ),
            _ => None,
        }
    }

    /// Whether the run takes an event.
    pub fn takes(&self, event: &Reply) -> (taken: bool)
        requires
            well_formed(self@),
        ensures
            taken == accepts(self@, event@),
    {
        let replies = match self.action() {
            Some(action) => is_reply(&action, event),
            None => false,
        };
        if !replies {
            return false;
        }
        match (&self.status, event) {
            (
                Status::Running(Stage::SampleAgain { height, confirmations: Some(count), .. }),
                Event::NodeHeight(again),
            ) => *again != *height || *count <= *height,
            _ => true,
        }
    }

    /// How the scenario ended, once it has.
    pub fn verdict(&self) -> (verdict: Option<Verdict>)
        ensures
            verdict == match self@.status {
                Status::Running(_) => None,
                Status::Passed => Some(Verdict::Pass),
                Status::Failed(_) => Some(Verdict::Fail),
            },
    {
        match &self.status {
            Status::Running(_) => None,
            Status::Passed => Some(Verdict::Pass),
            Status::Failed(_) => Some(Verdict::Fail),
        }
    }

    /// Takes a reply to what the run asks for.
    pub fn step(self, event: Reply) -> (after: Self)
        requires
            well_formed(self@),
            accepts(self@, event@),
        ensures
            after@ == next(self@, event@),
            well_formed(after@),
    {
        let scenario = self.scenario;
        let pc = self.pc;
        let op = step_at(scenario, pc);
        match self.status {
            Status::Running(stage) => match event {
                Event::Failed(error) => {
                    let fault = fault(op, &stage, &self.notes, error);
                    Run { scenario, pc, notes: self.notes, status: Status::Failed(fault) }
                },
                event => {
                    let kept = self.notes.duplicate();
                    match take(op, stage, self.notes, event) {
                        Advance::Stay(stage) => Run {
                            scenario,
                            pc,
                            notes: kept,
                            status: Status::Running(stage),
                        },
                        Advance::Finish(notes) => {
                            let pc: usize = pc + 1;
                            let status = if pc >= length(scenario) {
                                Status::Passed
                            } else {
                                Status::Running(entry(step_at(scenario, pc)))
                            };
                            Run { scenario, pc, notes, status }
                        },
                        Advance::Fail(fault) => Run {
                            scenario,
                            pc,
                            notes: kept,
                            status: Status::Failed(fault),
                        },
                    }
                },
            },
            status => Run { scenario, pc, notes: self.notes, status },
        }
    }
}

} // verus!
