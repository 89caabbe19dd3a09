//! The scenarios, each as a plan of steps.

use vstd::prelude::*;
use crate::header::{V1, V2};

verus! {

/// The height at which BLAKE2b activates. Comfortably above coinbase maturity,
/// so that a channel can be funded and confirmed while the chain is still v1.
pub const ACTIVATION_HEIGHT: u64 = 150;

/// The last height whose block has a v1 header.
pub const LAST_V1_HEIGHT: u64 = 149;

/// How many blocks are mined past activation before the assertions run.
pub const BLOCKS_PAST_ACTIVATION: u64 = 5;

/// The tip once the chain is mined across activation.
pub const TIP_PAST_ACTIVATION: u64 = 155;

/// How many blocks a chain starts with.
pub const START_HEIGHT: u64 = 110;

/// The capacity of each channel.
pub const CHANNEL_SATS: u64 = 2_000_000;

/// What each channel's opener pushes to the other end.
pub const PUSH_MSAT: u64 = 500_000;

/// What each payment moves.
pub const PAYMENT_MSAT: u64 = 100_000;

/// How often a height and a confirmation count are sampled before giving up.
pub const SAMPLES: u64 = 10;

/// How long a wait pauses between two polls.
pub const POLL_PAUSE_SECS: u64 = 1;

/// The scenarios.
#[derive(Clone, Copy, Debug, PartialEq, Eq, Structural)]
pub enum Scenario {
    /// BLAKE2b activates under running nodes.
    Activation,
    /// A node runs against a chain that never activates.
    KnotsBackend,
}

/// The nodes.
#[derive(Clone, Copy, Debug, PartialEq, Eq, Structural)]
pub enum Who {
    Alice,
    Bob,
    Carol,
}

/// What a failed call is reported as.
#[derive(Clone, Copy, Debug, PartialEq, Eq, Structural)]
pub enum Context {
    StartAlice,
    StartBob,
    StartCarol,
    StartLevelZero,
    OpenFromAlice,
    OpenFromCarol,
    Follow,
    Invoice,
    PayFromAlice,
    PayFromCarol,
    NewAddress,
}

/// Which block's header a step looks at.
#[derive(Clone, Copy, Debug, PartialEq, Eq, Structural)]
pub enum At {
    /// This height.
    Height(u64),
    /// The last chain height that was read.
    LastRead,
    /// The chain height before the switch, with the channel confirmed.
    BeforeSwitch,
    /// The tip past activation.
    Tip,
    /// The block that funds the channel opened under v2 headers.
    V2Funding,
}

/// What a chain height is read for.
#[derive(Clone, Copy, Debug, PartialEq, Eq, Structural)]
pub enum HeightUse {
    /// The start of the activation scenario.
    Start,
    /// The start of the level 0 scenario.
    LevelZeroStart,
    /// The channel is confirmed.
    BeforeSwitch,
    /// The last v1 block is mined.
    LastV1,
    /// The chain is mined across activation.
    Tip,
    /// The chain is mined on before a node starts cold.
    ColdTip,
}

/// When the channel opened under v1 headers is looked at.
#[derive(Clone, Copy, Debug, PartialEq, Eq, Structural)]
pub enum ChannelUse {
    BeforeSwitch,
    AfterSwitch,
}

/// What a funding block is sampled for.
#[derive(Clone, Copy, Debug, PartialEq, Eq, Structural)]
pub enum FundingUse {
    /// Alice's channel, before the switch.
    BeforeSwitch,
    /// Alice's channel, after the switch.
    AfterSwitch,
    /// Carol's channel, opened under v2 headers.
    V2Only,
}

/// The nodes that have to reach the tip.
#[derive(Clone, Copy, Debug, PartialEq, Eq, Structural)]
pub enum Followers {
    AliceAndBob,
    Carol,
}

/// One step of a scenario.
#[derive(Clone, Copy, Debug, PartialEq, Eq, Structural)]
pub enum Op {
    /// Use the node binary that is given, or build one.
    FindBinary { blake2b: bool },
    /// Start the chain, activating at a height or never.
    StartChain { activation: Option<u64> },
    /// Mine this many blocks.
    Mine { blocks: u64 },
    /// Mine to the last v1 block.
    MineToLastV1,
    /// Read the chain's height and judge it.
    ReadHeight(HeightUse),
    /// Start the relay.
    StartRelay,
    /// Start a node.
    StartNode { node: Who, context: Context },
    /// Open a channel to Bob.
    OpenChannel { from: Who },
    /// Mine until both ends report the channel with Bob ready.
    WaitReady { opener: Who },
    /// Look at the channel between Alice and Bob.
    ReadChannel(ChannelUse),
    /// Sample a channel's funding block.
    SampleFunding(FundingUse),
    /// Check a block's header format, as reported and as serialized.
    Header { at: At, want: u64 },
    /// Check that a block of a level 0 chain has a v1 header.
    LevelZeroHeader { at: At },
    /// Wait until nodes reach the tip.
    WaitHeights { followers: Followers },
    /// Read Bob's balance.
    ReadBalance,
    /// Bob invoices a payment.
    MakeInvoice { payer: Who },
    /// Pay Bob's invoice.
    Pay { payer: Who },
    /// Wait until Bob's balance grows.
    WaitPaid { payer: Who },
    /// Get an on-chain address from Alice.
    NewAddress,
}

/// How many steps a scenario has.
pub open spec fn plan_length(scenario: Scenario) -> usize {
    match scenario {
        Scenario::Activation => 40,
        Scenario::KnotsBackend => 10,
    }
}

/// The step of the activation scenario at a place.
pub open spec fn activation_op(pc: usize) -> Op {
    match pc {
        // A node that can read v2 headers.
        0 => Op::FindBinary { blake2b: true },
        // A chain that will activate.
        1 => Op::StartChain { activation: Some(ACTIVATION_HEIGHT) },
        2 => Op::Mine { blocks: START_HEIGHT },
        3 => Op::ReadHeight(HeightUse::Start),
        // Two nodes and a channel, all under v1 headers.
        4 => Op::StartRelay,
        5 => Op::StartNode { node: Who::Alice, context: Context::StartAlice },
        6 => Op::StartNode { node: Who::Bob, context: Context::StartBob },
        7 => Op::OpenChannel { from: Who::Alice },
        8 => Op::WaitReady { opener: Who::Alice },
        9 => Op::ReadChannel(ChannelUse::BeforeSwitch),
        10 => Op::SampleFunding(FundingUse::BeforeSwitch),
        11 => Op::ReadHeight(HeightUse::BeforeSwitch),
        // The last v1 block.
        12 => Op::MineToLastV1,
        13 => Op::ReadHeight(HeightUse::LastV1),
        14 => Op::Header { at: At::LastRead, want: V1 },
        15 => Op::Header { at: At::BeforeSwitch, want: V1 },
        // Across activation. The switch is real, or the rest shows nothing.
        16 => Op::Mine { blocks: (1 + BLOCKS_PAST_ACTIVATION) as u64 },
        17 => Op::ReadHeight(HeightUse::Tip),
        18 => Op::Header { at: At::Height(LAST_V1_HEIGHT), want: V1 },
        19 => Op::Header { at: At::Height(ACTIVATION_HEIGHT), want: V2 },
        20 => Op::Header { at: At::Tip, want: V2 },
        // The nodes follow it.
        21 => Op::WaitHeights { followers: Followers::AliceAndBob },
        // The channel survived, and kept counting.
        22 => Op::ReadChannel(ChannelUse::AfterSwitch),
        23 => Op::SampleFunding(FundingUse::AfterSwitch),
        // Value moves on the far side.
        24 => Op::ReadBalance,
        25 => Op::MakeInvoice { payer: Who::Alice },
        26 => Op::Pay { payer: Who::Alice },
        27 => Op::WaitPaid { payer: Who::Alice },
        // A node that starts against an activated chain.
        28 => Op::Mine { blocks: 2 },
        29 => Op::ReadHeight(HeightUse::ColdTip),
        30 => Op::StartNode { node: Who::Carol, context: Context::StartCarol },
        31 => Op::WaitHeights { followers: Followers::Carol },
        // A channel that never saw a v1 header.
        32 => Op::OpenChannel { from: Who::Carol },
        33 => Op::WaitReady { opener: Who::Carol },
        34 => Op::SampleFunding(FundingUse::V2Only),
        35 => Op::Header { at: At::V2Funding, want: V2 },
        36 => Op::ReadBalance,
        37 => Op::MakeInvoice { payer: Who::Carol },
        38 => Op::Pay { payer: Who::Carol },
        _ => Op::WaitPaid { payer: Who::Carol },
    }
}

/// The step of the level 0 scenario at a place.
pub open spec fn knots_backend_op(pc: usize) -> Op {
    match pc {
        // The Knots build of the node.
        0 => Op::FindBinary { blake2b: false },
        // A chain that never activates.
        1 => Op::StartChain { activation: None },
        2 => Op::Mine { blocks: START_HEIGHT },
        3 => Op::ReadHeight(HeightUse::LevelZeroStart),
        // Its headers are v1.
        4 => Op::LevelZeroHeader { at: At::Height(0) },
        5 => Op::LevelZeroHeader { at: At::Height(1) },
        6 => Op::LevelZeroHeader { at: At::LastRead },
        // A node runs against it.
        7 => Op::StartRelay,
        8 => Op::StartNode { node: Who::Alice, context: Context::StartLevelZero },
        _ => Op::NewAddress,
    }
}

/// The step of a scenario at a place.
pub open spec fn op_at(scenario: Scenario, pc: usize) -> Op {
    match scenario {
        Scenario::Activation => activation_op(pc),
        Scenario::KnotsBackend => knots_backend_op(pc),
    }
}

/// How many steps a scenario has.
pub fn length(scenario: Scenario) -> (steps: usize)
    ensures
        steps == plan_length(scenario),
{
    match scenario {
        Scenario::Activation => 40,
        Scenario::KnotsBackend => 10,
    }
}

fn activation_step(pc: usize) -> (op: Op)
    ensures
        op == activation_op(pc),
{
    match pc {
        0 => Op::FindBinary { blake2b: true },
        1 => Op::StartChain { activation: Some(ACTIVATION_HEIGHT) },
        2 => Op::Mine { blocks: START_HEIGHT },
        3 => Op::ReadHeight(HeightUse::Start),
        4 => Op::StartRelay,
        5 => Op::StartNode { node: Who::Alice, context: Context::StartAlice },
        6 => Op::StartNode { node: Who::Bob, context: Context::StartBob },
        7 => Op::OpenChannel { from: Who::Alice },
        8 => Op::WaitReady { opener: Who::Alice },
        9 => Op::ReadChannel(ChannelUse::BeforeSwitch),
        10 => Op::SampleFunding(FundingUse::BeforeSwitch),
        11 => Op::ReadHeight(HeightUse::BeforeSwitch),
        12 => Op::MineToLastV1,
        13 => Op::ReadHeight(HeightUse::LastV1),
        14 => Op::Header { at: At::LastRead, want: V1 },
        15 => Op::Header { at: At::BeforeSwitch, want: V1 },
        16 => Op::Mine { blocks: 1 + BLOCKS_PAST_ACTIVATION },
        17 => Op::ReadHeight(HeightUse::Tip),
        18 => Op::Header { at: At::Height(LAST_V1_HEIGHT), want: V1 },
        19 => Op::Header { at: At::Height(ACTIVATION_HEIGHT), want: V2 },
        20 => Op::Header { at: At::Tip, want: V2 },
        21 => Op::WaitHeights { followers: Followers::AliceAndBob },
        22 => Op::ReadChannel(ChannelUse::AfterSwitch),
        23 => Op::SampleFunding(FundingUse::AfterSwitch),
        24 => Op::ReadBalance,
        25 => Op::MakeInvoice { payer: Who::Alice },
        26 => Op::Pay { payer: Who::Alice },
        27 => Op::WaitPaid { payer: Who::Alice },
        28 => Op::Mine { blocks: 2 },
        29 => Op::ReadHeight(HeightUse::ColdTip),
        30 => Op::StartNode { node: Who::Carol, context: Context::StartCarol },
        31 => Op::WaitHeights { followers: Followers::Carol },
        32 => Op::OpenChannel { from: Who::Carol },
        33 => Op::WaitReady { opener: Who::Carol },
        34 => Op::SampleFunding(FundingUse::V2Only),
        35 => Op::Header { at: At::V2Funding, want: V2 },
        36 => Op::ReadBalance,
        37 => Op::MakeInvoice { payer: Who::Carol },
        38 => Op::Pay { payer: Who::Carol },
        _ => Op::WaitPaid { payer: Who::Carol },
    }
}

fn knots_backend_step(pc: usize) -> (op: Op)
    ensures
        op == knots_backend_op(pc),
{
    match pc {
        0 => Op::FindBinary { blake2b: false },
        1 => Op::StartChain { activation: None },
        2 => Op::Mine { blocks: START_HEIGHT },
        3 => Op::ReadHeight(HeightUse::LevelZeroStart),
        4 => Op::LevelZeroHeader { at: At::Height(0) },
        5 => Op::LevelZeroHeader { at: At::Height(1) },
        6 => Op::LevelZeroHeader { at: At::LastRead },
        7 => Op::StartRelay,
        8 => Op::StartNode { node: Who::Alice, context: Context::StartLevelZero },
        _ => Op::NewAddress,
    }
}

/// The step of a scenario at a place.
pub fn step_at(scenario: Scenario, pc: usize) -> (op: Op)
    ensures
        op == op_at(scenario, pc),
{
    match scenario {
        Scenario::Activation => activation_step(pc),
        Scenario::KnotsBackend => knots_backend_step(pc),
    }
}

/// The words of a context.
pub open spec fn context_text(context: Context) -> Seq<char> {
    match context {
        Context::StartAlice => "failed to start alice"@,
        Context::StartBob => "failed to start bob"@,
        Context::StartCarol => "a node could not start against an already-activated chain"@,
        Context::StartLevelZero => "node failed to start against Knots"@,
        Context::OpenFromAlice => "open_channel failed"@,
        Context::OpenFromCarol => "carol could not open a channel on an activated chain"@,
        Context::Follow => "a node stopped following the chain across activation"@,
        Context::Invoice => "bob make_invoice failed"@,
        Context::PayFromAlice => "alice pay_invoice failed"@,
        Context::PayFromCarol => "carol pay_invoice failed"@,
        Context::NewAddress => "node could not generate an address"@,
    }
}

impl Context {
    /// The words of the context.
    pub fn message(&self) -> (message: &'static str)
        ensures
            message@ == context_text(*self),
    {
        match self {
            Context::StartAlice => "failed to start alice",
            Context::StartBob => "failed to start bob",
            Context::StartCarol => "a node could not start against an already-activated chain",
            Context::StartLevelZero => "node failed to start against Knots",
            Context::OpenFromAlice => "open_channel failed",
            Context::OpenFromCarol => "carol could not open a channel on an activated chain",
            Context::Follow => "a node stopped following the chain across activation",
            Context::Invoice => "bob make_invoice failed",
            Context::PayFromAlice => "alice pay_invoice failed",
            Context::PayFromCarol => "carol pay_invoice failed",
            Context::NewAddress => "node could not generate an address",
        }
    }
}

/// What a failure in a step is reported as, where not as itself.
pub open spec fn context_of(op: Op) -> Option<Context> {
    match op {
        Op::StartNode { context, .. } => Some(context),
        Op::OpenChannel { from: Who::Carol } => Some(Context::OpenFromCarol),
        Op::OpenChannel { .. } => Some(Context::OpenFromAlice),
        Op::WaitHeights { followers: Followers::AliceAndBob } => Some(Context::Follow),
        Op::MakeInvoice { .. } => Some(Context::Invoice),
        Op::Pay { payer: Who::Carol } => Some(Context::PayFromCarol),
        Op::Pay { .. } => Some(Context::PayFromAlice),
        Op::NewAddress => Some(Context::NewAddress),
        _ => None,
    }
}

/// What a failure in a step is reported as, where not as itself.
pub fn step_context(op: Op) -> (context: Option<Context>)
    ensures
        context == context_of(op),
{
    match op {
        Op::StartNode { context, .. } => Some(context),
        Op::OpenChannel { from: Who::Carol } => Some(Context::OpenFromCarol),
        Op::OpenChannel { .. } => Some(Context::OpenFromAlice),
        Op::WaitHeights { followers: Followers::AliceAndBob } => Some(Context::Follow),
        Op::MakeInvoice { .. } => Some(Context::Invoice),
        Op::Pay { payer: Who::Carol } => Some(Context::PayFromCarol),
        Op::Pay { .. } => Some(Context::PayFromAlice),
        Op::NewAddress => Some(Context::NewAddress),
        _ => None,
    }
}

/// How many seconds a waiting step waits at most.
pub open spec fn timeout_of(op: Op) -> u64 {
    match op {
        Op::WaitHeights { followers: Followers::Carol } => 120,
        Op::WaitPaid { .. } => 60,
        _ => 180,
    }
}

/// How many seconds a waiting step waits at most.
pub fn step_timeout(op: Op) -> (secs: u64)
    ensures
        op is WaitReady ==> secs == 180,
        op == (Op::WaitHeights { followers: Followers::AliceAndBob }) ==> secs == 180,
        op == (Op::WaitHeights { followers: Followers::Carol }) ==> secs == 120,
        op is WaitPaid ==> secs == 60,
        secs == timeout_of(op),
{
    match op {
        Op::WaitHeights { followers: Followers::Carol } => 120,
        Op::WaitPaid { .. } => 60,
        _ => 180,
    }
}

/// What a waiting step waits for.
pub open spec fn label_of(op: Op) -> Seq<char> {
    match op {
        Op::WaitReady { opener: Who::Carol } => "carol's channel to become ready"@,
        Op::WaitReady { .. } => "channel ready under v1 headers"@,
        Op::WaitHeights { followers: Followers::AliceAndBob } => {
            "both nodes at the post-activation tip"@
        },
        Op::WaitHeights { followers: Followers::Carol } => "carol to reach the tip"@,
        Op::WaitPaid { payer: Who::Carol } => "bob's balance to increase again"@,
        _ => "bob's balance to increase"@,
    }
}

/// What a waiting step waits for.
pub fn step_label(op: Op) -> (label: &'static str)
    ensures
        label@ == label_of(op),
{
    match op {
        Op::WaitReady { opener: Who::Carol } => "carol's channel to become ready",
        Op::WaitReady { .. } => "channel ready under v1 headers",
        Op::WaitHeights { followers: Followers::AliceAndBob } => {
            "both nodes at the post-activation tip"
        },
        Op::WaitHeights { followers: Followers::Carol } => "carol to reach the tip",
        Op::WaitPaid { payer: Who::Carol } => "bob's balance to increase again",
        _ => "bob's balance to increase",
    }
}

/// What Bob writes on the invoice for a payer.
pub open spec fn description_of(payer: Who) -> Seq<char> {
    match payer {
        Who::Carol => "activation e2e, v2-only channel"@,
        _ => "activation e2e"@,
    }
}

/// What Bob writes on the invoice for a payer.
pub fn invoice_description(payer: Who) -> (description: &'static str)
    ensures
        description@ == description_of(payer),
{
    match payer {
        Who::Carol => "activation e2e, v2-only channel",
        _ => "activation e2e",
    }
}

/// The node whose channel with Bob is sampled.
pub open spec fn sampled_node(used: FundingUse) -> Who {
    match used {
        FundingUse::V2Only => Who::Carol,
        _ => Who::Alice,
    }
}

/// A context says what could not be done, and with whom.
pub proof fn law_context_words()
    ensures
        context_text(Context::StartAlice) == "failed to start alice"@,
        context_text(Context::StartBob) == "failed to start bob"@,
        context_text(Context::StartCarol)
            == "a node could not start against an already-activated chain"@,
        context_text(Context::StartLevelZero) == "node failed to start against Knots"@,
        context_text(Context::OpenFromAlice) == "open_channel failed"@,
        context_text(Context::OpenFromCarol)
            == "carol could not open a channel on an activated chain"@,
        context_text(Context::Follow) == "a node stopped following the chain across activation"@,
        context_text(Context::Invoice) == "bob make_invoice failed"@,
        context_text(Context::PayFromAlice) == "alice pay_invoice failed"@,
        context_text(Context::PayFromCarol) == "carol pay_invoice failed"@,
        context_text(Context::NewAddress) == "node could not generate an address"@,
{
}

/// The heights of the plan fit together: activation follows the last v1 block
/// at once, and the tip past activation is what is mined on from there.
pub proof fn law_heights_fit()
    ensures
        ACTIVATION_HEIGHT == 150,
        START_HEIGHT == 110,
        START_HEIGHT < ACTIVATION_HEIGHT,
        LAST_V1_HEIGHT + 1 == ACTIVATION_HEIGHT,
        LAST_V1_HEIGHT + (1 + BLOCKS_PAST_ACTIVATION) == TIP_PAST_ACTIVATION,
        TIP_PAST_ACTIVATION == ACTIVATION_HEIGHT + BLOCKS_PAST_ACTIVATION,
{
}

} // verus!
