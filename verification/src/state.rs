//! How a run stands.

use vstd::prelude::*;
use crate::failure::{failure_text, Failure};
use crate::plan::{context_text, Context, Scenario};

verus! {

/// Where a run is within a step.
#[derive(Debug)]
pub enum Stage {
    /// At the step's first action.
    Ask,
    /// The node is being built.
    Build,
    /// The verbose header is asked for.
    Info { hash: serde_json::Value },
    /// The raw header is asked for, after the verbose one.
    Raw { hash: serde_json::Value, headerv: u64 },
    /// Only the raw header is asked for.
    RawOnly { hash: serde_json::Value },
    /// A sample starts with the node's height; `left` samples may still be tried.
    SampleHeight { left: u64 },
    /// Then the channel is read.
    SampleChannel { left: u64, height: u64 },
    /// Then the height is read again.
    SampleAgain { left: u64, height: u64, confirmations: Option<u64> },
    /// A wait polls; a poll may take several questions.
    Poll { part: u64 },
    /// The poll said no, and the clock is read.
    Clock,
    /// There is time left, and the wait pauses.
    Rest,
}

/// What a run has learned. `T` is the type of its texts.
#[derive(Debug)]
pub struct Notes<T> {
    /// The last chain height that was read at a start or before the switch.
    pub height: u64,
    /// The chain height before the switch, with the channel confirmed.
    pub height_before: u64,
    /// The tip that the nodes have to reach.
    pub tip: u64,
    /// Alice's identity.
    pub alice_id: T,
    /// Bob's identity.
    pub bob_id: T,
    /// Carol's identity.
    pub carol_id: T,
    /// The funding transaction before the switch.
    pub funding_txid: T,
    /// The funding block before the switch.
    pub funding_before: u64,
    /// The confirmation count after the switch.
    pub confirmations_after: u64,
    /// The funding block of the channel opened under v2 headers.
    pub v2_funding: u64,
    /// Bob's balance before a payment.
    pub balance: u64,
    /// Bob's invoice.
    pub invoice: T,
}

impl View for Notes<String> {
    type V = Notes<Seq<char>>;

    open spec fn view(&self) -> Notes<Seq<char>> {
        Notes {
            height: self.height,
            height_before: self.height_before,
            tip: self.tip,
            alice_id: self.alice_id@,
            bob_id: self.bob_id@,
            carol_id: self.carol_id@,
            funding_txid: self.funding_txid@,
            funding_before: self.funding_before,
            confirmations_after: self.confirmations_after,
            v2_funding: self.v2_funding,
            balance: self.balance,
            invoice: self.invoice@,
        }
    }
}

impl Notes<String> {
    /// The same notes once more.
    pub fn duplicate(&self) -> (notes: Self)
        ensures
            notes@ == self@,
    {
        Notes {
            height: self.height,
            height_before: self.height_before,
            tip: self.tip,
            alice_id: self.alice_id.clone(),
            bob_id: self.bob_id.clone(),
            carol_id: self.carol_id.clone(),
            funding_txid: self.funding_txid.clone(),
            funding_before: self.funding_before,
            confirmations_after: self.confirmations_after,
            v2_funding: self.v2_funding,
            balance: self.balance,
            invoice: self.invoice.clone(),
        }
    }
}

/// A failure, and what it is reported as, where not as itself.
#[derive(Debug)]
pub struct Fault<T> {
    pub failure: Failure<T>,
    pub context: Option<Context>,
}

impl View for Fault<String> {
    type V = Fault<Seq<char>>;

    open spec fn view(&self) -> Fault<Seq<char>> {
        Fault { failure: self.failure@, context: self.context }
    }
}

/// The words that a failure is reported with.
pub open spec fn fault_text(fault: Fault<Seq<char>>) -> Seq<char> {
    match fault.context {
        Some(context) => context_text(context),
        None => failure_text(fault.failure),
    }
}

impl Fault<String> {
    /// The words that the failure is reported with: those of its context, or
    /// else its own.
    pub fn message(&self) -> (message: String)
        ensures
            message@ == fault_text(self@),
    {
        match &self.context {
            Some(context) => context.message().to_owned(),
            None => self.failure.message(),
        }
    }
}

/// How a run stands.
#[derive(Debug)]
pub enum Status<T> {
    /// It waits for a reply.
    Running(Stage),
    /// It passed.
    Passed,
    /// It failed.
    Failed(Fault<T>),
}

impl View for Status<String> {
    type V = Status<Seq<char>>;

    open spec fn view(&self) -> Status<Seq<char>> {
        match *self {
            Status::Running(stage) => Status::Running(stage),
            Status::Passed => Status::Passed,
            Status::Failed(fault) => Status::Failed(fault@),
        }
    }
}

/// How a scenario ended.
#[derive(Clone, Copy, Debug, PartialEq, Eq, Structural)]
pub enum Verdict {
    Pass,
    Fail,
}

impl Verdict {
    /// What is printed.
    pub fn banner(&self) -> (banner: &'static str)
        ensures
            banner@ == match *self {
                Verdict::Pass => "=== PASS ==="@,
                Verdict::Fail => "=== FAIL ==="@,
            },
    {
        match self {
            Verdict::Pass => "=== PASS ===",
            Verdict::Fail => "=== FAIL ===",
        }
    }

    /// The exit status: zero exactly where the scenario passed.
    pub fn exit_status(&self) -> (status: i32)
        ensures
            status == match *self {
                Verdict::Pass => 0i32,
                Verdict::Fail => 1i32,
            },
    {
        match self {
            Verdict::Pass => 0,
            Verdict::Fail => 1,
        }
    }
}

/// A run of a scenario.
#[derive(Debug)]
pub struct Run<T> {
    pub scenario: Scenario,
    /// The step that it is at.
    pub pc: usize,
    pub notes: Notes<T>,
    pub status: Status<T>,
}

impl View for Run<String> {
    type V = Run<Seq<char>>;

    open spec fn view(&self) -> Run<Seq<char>> {
        Run {
            scenario: self.scenario,
            pc: self.pc,
            notes: self.notes@,
            status: self.status@,
        }
    }
}

/// What a reply leads to within a step.
pub enum Advance<T> {
    /// On to another stage of the step.
    Stay(Stage),
    /// The step is done.
    Finish(Notes<T>),
    /// The scenario fails.
    Fail(Fault<T>),
}

impl View for Advance<String> {
    type V = Advance<Seq<char>>;

    open spec fn view(&self) -> Advance<Seq<char>> {
        match *self {
            Advance::Stay(stage) => Advance::Stay(stage),
            Advance::Finish(notes) => Advance::Finish(notes@),
            Advance::Fail(fault) => Advance::Fail(fault@),
        }
    }
}

/// What one answer says about a poll.
#[derive(Clone, Copy, Debug, PartialEq, Eq, Structural)]
pub enum Polled {
    /// Another question has to be asked.
    More(u64),
    /// What is waited for is there.
    Yes,
    /// It is not there.
    No,
}

/// A failure is reported under its context where it has one, and in its own
/// words otherwise.
pub proof fn law_fault_words(failure: Failure<Seq<char>>, context: Context)
    ensures
        fault_text(Fault { failure, context: None }) == failure_text(failure),
        fault_text(Fault { failure, context: Some(context) }) == context_text(context),
{
}

/// The view of a run keeps its scenario, its step, its notes and how it stands.
pub proof fn law_run_view(run: Run<String>)
    ensures
        run@.scenario == run.scenario,
        run@.pc == run.pc,
        run@.notes.height == run.notes.height,
        run@.notes.height_before == run.notes.height_before,
        run@.notes.tip == run.notes.tip,
        run@.notes.alice_id == run.notes.alice_id@,
        run@.notes.bob_id == run.notes.bob_id@,
        run@.notes.carol_id == run.notes.carol_id@,
        run@.notes.funding_txid == run.notes.funding_txid@,
        run@.notes.funding_before == run.notes.funding_before,
        run@.notes.confirmations_after == run.notes.confirmations_after,
        run@.notes.v2_funding == run.notes.v2_funding,
        run@.notes.balance == run.notes.balance,
        run@.notes.invoice == run.notes.invoice@,
        run@.status is Passed <==> run.status is Passed,
        run.status matches Status::Running(stage) ==> run@.status == Status::<
            Seq<char>,
        >::Running(stage),
        run.status matches Status::Failed(fault) ==> (run@.status matches Status::Failed(shown)
            && shown.failure == fault.failure@ && shown.context == fault.context),
{
}

} // verus!
