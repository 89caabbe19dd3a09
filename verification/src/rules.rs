//! The rules of a run: what each step asks for, and what each reply leads to.

use vstd::prelude::*;
use crate::channel::{first_with, Channel};
use crate::failure::Failure;
use crate::funding::funding_of;
use crate::header::{header_fault, headerv_fault, level_zero_fault};
use crate::plan::{
    context_of, description_of, label_of, sampled_node, timeout_of, At, ChannelUse, Followers,
    FundingUse, HeightUse, Op, Who, ACTIVATION_HEIGHT, CHANNEL_SATS, LAST_V1_HEIGHT, PAYMENT_MSAT,
    POLL_PAUSE_SECS, PUSH_MSAT, SAMPLES, START_HEIGHT, TIP_PAST_ACTIVATION,
};
use crate::protocol::{Action, Event, ReplyView, RequestView};
use crate::state::{Advance, Fault, Notes, Polled, Stage};

verus! {

/// The stage at which a step begins.
pub open spec fn entry_of(op: Op) -> Stage {
    match op {
        Op::SampleFunding(_) => Stage::SampleHeight { left: SAMPLES },
        _ => Stage::Ask,
    }
}

/// The height of the block that a step looks at.
pub open spec fn height_of(at: At, notes: Notes<Seq<char>>) -> u64 {
    match at {
        At::Height(height) => height,
        At::LastRead => notes.height,
        At::BeforeSwitch => notes.height_before,
        At::Tip => notes.tip,
        At::V2Funding => notes.v2_funding,
    }
}

/// A node's identity.
pub open spec fn id_of(node: Who, notes: Notes<Seq<char>>) -> Seq<char> {
    match node {
        Who::Alice => notes.alice_id,
        Who::Bob => notes.bob_id,
        Who::Carol => notes.carol_id,
    }
}

/// The question that a waiting step asks at a part of its poll.
pub open spec fn question_of(op: Op, part: u64, notes: Notes<Seq<char>>) -> RequestView {
    match op {
        Op::WaitReady { opener } => if part == 0 {
            Action::Mine { blocks: 1 }
        } else if part == 1 {
            Action::AskReady { node: opener, peer: notes.bob_id }
        } else {
            Action::AskReady { node: Who::Bob, peer: id_of(opener, notes) }
        },
        Op::WaitHeights { followers: Followers::Carol } => Action::ReadNodeHeight {
            node: Who::Carol,
        },
        Op::WaitHeights { .. } => Action::ReadNodeHeight {
            node: if part == 0 {
                Who::Alice
            } else {
                Who::Bob
            },
        },
        _ => Action::ReadBalance { node: Who::Bob },
    }
}

/// What a step asks for first.
pub open spec fn first_action(op: Op, notes: Notes<Seq<char>>) -> RequestView {
    match op {
        Op::FindBinary { .. } => Action::ProbeBinary,
        Op::StartChain { activation } => Action::StartChain { activation },
        Op::Mine { blocks } => Action::Mine { blocks },
        Op::MineToLastV1 => Action::Mine { blocks: (LAST_V1_HEIGHT - notes.height_before) as u64 },
        Op::ReadHeight(_) => Action::ReadChainInfo,
        Op::StartRelay => Action::StartRelay,
        Op::StartNode { node, .. } => Action::StartNode { node },
        Op::OpenChannel { from } => Action::OpenChannel {
            from,
            peer: notes.bob_id,
            sats: CHANNEL_SATS,
            push_msat: PUSH_MSAT,
        },
        Op::WaitReady { .. } => Action::StartTimer,
        Op::ReadChannel(_) => Action::ListChannels { node: Who::Alice },
        Op::SampleFunding(used) => Action::ReadNodeHeight { node: sampled_node(used) },
        Op::Header { at, .. } => Action::ReadBlockHash { height: height_of(at, notes) },
        Op::LevelZeroHeader { at } => Action::ReadBlockHash { height: height_of(at, notes) },
        Op::WaitHeights { .. } => Action::StartTimer,
        Op::ReadBalance => Action::ReadBalance { node: Who::Bob },
        Op::MakeInvoice { payer } => Action::MakeInvoice {
            node: Who::Bob,
            msat: PAYMENT_MSAT,
            description: description_of(payer),
        },
        Op::Pay { payer } => Action::PayInvoice { node: payer, invoice: notes.invoice },
        Op::WaitPaid { .. } => Action::StartTimer,
        Op::NewAddress => Action::NewAddress { node: Who::Alice },
    }
}

/// The node that a step samples.
pub open spec fn sampled_by(op: Op) -> Who {
    match op {
        Op::SampleFunding(used) => sampled_node(used),
        _ => Who::Alice,
    }
}

/// What a step asks for at a stage.
pub open spec fn action_of(op: Op, stage: Stage, notes: Notes<Seq<char>>) -> RequestView {
    match stage {
        Stage::Ask => first_action(op, notes),
        Stage::Build => Action::BuildNode { blake2b: op == (Op::FindBinary { blake2b: true }) },
        Stage::Info { hash } => Action::ReadHeaderInfo { hash },
        Stage::Raw { hash, .. } => Action::ReadRawHeader { hash },
        Stage::RawOnly { hash } => Action::ReadRawHeader { hash },
        Stage::SampleHeight { .. } => Action::ReadNodeHeight { node: sampled_by(op) },
        Stage::SampleChannel { .. } => Action::ListChannels { node: sampled_by(op) },
        Stage::SampleAgain { .. } => Action::ReadNodeHeight { node: sampled_by(op) },
        Stage::Poll { part } => question_of(op, part, notes),
        Stage::Clock => Action::ReadTimer,
        Stage::Rest => Action::Pause { secs: POLL_PAUSE_SECS },
    }
}

/// What a failed call leads to.
pub open spec fn fault_of(op: Op, stage: Stage, notes: Notes<Seq<char>>, error: Seq<char>) -> Fault<
    Seq<char>,
> {
    let failure = match op {
        Op::ReadHeight(_) => Failure::ChainInfo(error),
        Op::Header { at, .. } => {
            let height = height_of(at, notes);
            match stage {
                Stage::Ask => Failure::BlockHash { height, error },
                Stage::Info { .. } => Failure::HeaderInfo { height, error },
                _ => Failure::RawHeader { height, error },
            }
        },
        Op::LevelZeroHeader { at } => match stage {
            Stage::Ask => Failure::BlockHash { height: height_of(at, notes), error },
            _ => Failure::LevelZeroHeader(error),
        },
        _ => Failure::Call(error),
    };
    Fault { failure, context: context_of(op) }
}

/// A failure that is reported as itself.
pub open spec fn failing(failure: Failure<Seq<char>>) -> Advance<Seq<char>> {
    Advance::Fail(Fault { failure, context: None })
}

/// What a chain height leads to.
pub open spec fn after_height(used: HeightUse, notes: Notes<Seq<char>>, height: u64) -> Advance<
    Seq<char>,
> {
    match used {
        HeightUse::Start => if height != START_HEIGHT {
            failing(Failure::WrongStartHeight(height))
        } else if height >= ACTIVATION_HEIGHT {
            failing(Failure::PastActivation)
        } else {
            Advance::Finish(Notes { height, ..notes })
        },
        HeightUse::LevelZeroStart => if height != START_HEIGHT {
            failing(Failure::WrongStartHeight(height))
        } else {
            Advance::Finish(Notes { height, ..notes })
        },
        HeightUse::BeforeSwitch => if height >= ACTIVATION_HEIGHT {
            failing(Failure::ConfirmedTooLate(height))
        } else {
            Advance::Finish(Notes { height_before: height, ..notes })
        },
        HeightUse::LastV1 => if height != LAST_V1_HEIGHT {
            failing(Failure::WrongHeight { want: LAST_V1_HEIGHT, got: height })
        } else {
            Advance::Finish(Notes { height, ..notes })
        },
        HeightUse::Tip => if height != TIP_PAST_ACTIVATION {
            failing(Failure::WrongTip { want: TIP_PAST_ACTIVATION, got: height })
        } else {
            Advance::Finish(Notes { tip: height, ..notes })
        },
        HeightUse::ColdTip => Advance::Finish(Notes { tip: height, ..notes }),
    }
}

/// What a started node's identity leads to.
pub open spec fn after_start(node: Who, notes: Notes<Seq<char>>, id: Seq<char>) -> Advance<
    Seq<char>,
> {
    match node {
        Who::Alice => Advance::Finish(Notes { alice_id: id, ..notes }),
        Who::Bob => if id == notes.alice_id {
            failing(Failure::SharedNodeId)
        } else {
            Advance::Finish(Notes { bob_id: id, ..notes })
        },
        Who::Carol => Advance::Finish(Notes { carol_id: id, ..notes }),
    }
}

/// What the channel between Alice and Bob leads to.
pub open spec fn after_channel(
    used: ChannelUse,
    notes: Notes<Seq<char>>,
    channel: Channel<Seq<char>>,
) -> Advance<Seq<char>> {
    match used {
        ChannelUse::BeforeSwitch => match channel.funding_txid {
            None => failing(Failure::NoFundingTxid),
            Some(funding_txid) => Advance::Finish(Notes { funding_txid, ..notes }),
        },
        ChannelUse::AfterSwitch => if channel.funding_txid != Some(notes.funding_txid) {
            failing(
                Failure::TxidChanged {
                    before: notes.funding_txid,
                    after: channel.funding_txid_shown,
                },
            )
        } else if channel.state != Some("active"@) {
            failing(Failure::NotActive(channel.state_shown))
        } else {
            Advance::Finish(
                Notes {
                    confirmations_after: match channel.confirmations {
                        Some(confirmations) => confirmations,
                        None => 0,
                    },
                    ..notes
                },
            )
        },
    }
}

/// What a sampled funding block leads to.
pub open spec fn after_funding(used: FundingUse, notes: Notes<Seq<char>>, block: u64) -> Advance<
    Seq<char>,
> {
    match used {
        FundingUse::BeforeSwitch => Advance::Finish(Notes { funding_before: block, ..notes }),
        FundingUse::AfterSwitch => if block != notes.funding_before {
            failing(Failure::FundingMoved { was: notes.funding_before, now: block })
        } else if notes.confirmations_after == 0 {
            failing(Failure::NothingConfirmed)
        } else {
            Advance::Finish(notes)
        },
        FundingUse::V2Only => if block < ACTIVATION_HEIGHT {
            failing(Failure::FundedBelowActivation { block, activation: ACTIVATION_HEIGHT })
        } else {
            Advance::Finish(Notes { v2_funding: block, ..notes })
        },
    }
}

/// What a reply leads to while a funding block is sampled. The height is read
/// on either side of the channel, and only a sample in which it stood still
/// counts.
pub open spec fn after_sample(
    used: FundingUse,
    stage: Stage,
    notes: Notes<Seq<char>>,
    event: ReplyView,
) -> Advance<Seq<char>> {
    match (stage, event) {
        (Stage::SampleHeight { left }, Event::NodeHeight(height)) => Advance::Stay(
            Stage::SampleChannel { left, height },
        ),
        (Stage::SampleChannel { left, height }, Event::Channels(channels)) => match first_with(
            channels,
            notes.bob_id,
        ) {
            None => failing(Failure::NoChannel(notes.bob_id)),
            Some(channel) => Advance::Stay(
                Stage::SampleAgain { left, height, confirmations: channel.confirmations },
            ),
        },
        (Stage::SampleAgain { left, height, confirmations }, Event::NodeHeight(again)) => {
            if again != height {
                if left <= 1 {
                    failing(Failure::NoSteadySample)
                } else {
                    Advance::Stay(Stage::SampleHeight { left: (left - 1) as u64 })
                }
            } else {
                match funding_of(height, confirmations) {
                    Err(failure) => failing(failure),
                    Ok(block) => after_funding(used, notes, block),
                }
            }
        },
        _ => Advance::Stay(stage),
    }
}

/// What a reply leads to while a header is checked.
pub open spec fn after_header(
    height: u64,
    want: u64,
    stage: Stage,
    notes: Notes<Seq<char>>,
    event: ReplyView,
) -> Advance<Seq<char>> {
    match (stage, event) {
        (Stage::Ask, Event::BlockHash(hash)) => Advance::Stay(Stage::Info { hash }),
        (Stage::Info { hash }, Event::HeaderVersion(headerv)) => match headerv_fault(
            height,
            headerv,
            want,
        ) {
            Some(failure) => failing(failure),
            None => Advance::Stay(Stage::Raw { hash, headerv: headerv->0 }),
        },
        (Stage::Raw { headerv, .. }, Event::HeaderText(text)) => match header_fault(
            height,
            headerv,
            text,
            want,
        ) {
            Some(failure) => failing(failure),
            None => Advance::Finish(notes),
        },
        _ => Advance::Stay(stage),
    }
}

/// What a reply leads to while a header of a level 0 chain is checked.
pub open spec fn after_level_zero(
    height: u64,
    stage: Stage,
    notes: Notes<Seq<char>>,
    event: ReplyView,
) -> Advance<Seq<char>> {
    match (stage, event) {
        (Stage::Ask, Event::BlockHash(hash)) => Advance::Stay(Stage::RawOnly { hash }),
        (Stage::RawOnly { .. }, Event::HeaderText(text)) => match level_zero_fault(height, text) {
            Some(failure) => failing(failure),
            None => Advance::Finish(notes),
        },
        _ => Advance::Stay(stage),
    }
}

/// What an answer says about a poll.
pub open spec fn polled(op: Op, part: u64, notes: Notes<Seq<char>>, event: ReplyView) -> Polled {
    match (op, event) {
        (Op::WaitReady { .. }, Event::Done) => Polled::More(1),
        (Op::WaitReady { .. }, Event::Ready(ready)) => if !ready {
            Polled::No
        } else if part == 1 {
            Polled::More(2)
        } else {
            Polled::Yes
        },
        (Op::WaitHeights { followers }, Event::NodeHeight(height)) => if height < notes.tip {
            Polled::No
        } else if followers == Followers::AliceAndBob && part == 0 {
            Polled::More(1)
        } else {
            Polled::Yes
        },
        (Op::WaitPaid { .. }, Event::Balance(msat)) => if msat > notes.balance {
            Polled::Yes
        } else {
            Polled::No
        },
        _ => Polled::No,
    }
}

/// What a reply leads to in a waiting step. A poll comes first; after each poll
/// that says no the clock is read, and the wait fails once its time is up.
pub open spec fn after_wait(op: Op, stage: Stage, notes: Notes<Seq<char>>, event: ReplyView) -> Advance<
    Seq<char>,
> {
    match (stage, event) {
        (Stage::Ask, _) => Advance::Stay(Stage::Poll { part: 0 }),
        (Stage::Poll { part }, _) => match polled(op, part, notes, event) {
            Polled::More(part) => Advance::Stay(Stage::Poll { part }),
            Polled::Yes => Advance::Finish(notes),
            Polled::No => Advance::Stay(Stage::Clock),
        },
        (Stage::Clock, Event::Elapsed(secs)) => if secs < timeout_of(op) {
            Advance::Stay(Stage::Rest)
        } else {
            Advance::Fail(
                Fault { failure: Failure::TimedOut(label_of(op)), context: context_of(op) },
            )
        },
        (Stage::Rest, _) => Advance::Stay(Stage::Poll { part: 0 }),
        _ => Advance::Stay(stage),
    }
}

/// What a reply other than a failure leads to.
pub open spec fn advance_of(op: Op, stage: Stage, notes: Notes<Seq<char>>, event: ReplyView) -> Advance<
    Seq<char>,
> {
    match (op, event) {
        (Op::FindBinary { .. }, Event::BinaryKnown(given)) => if given {
            Advance::Finish(notes)
        } else {
            Advance::Stay(Stage::Build)
        },
        (Op::ReadHeight(used), Event::Blocks(blocks)) => match blocks {
            None => failing(Failure::BlocksMissing),
            Some(height) => after_height(used, notes, height),
        },
        (Op::StartNode { node, .. }, Event::NodeUp(id)) => after_start(node, notes, id),
        (Op::WaitReady { .. }, _) => after_wait(op, stage, notes, event),
        (Op::ReadChannel(used), Event::Channels(channels)) => match first_with(
            channels,
            notes.bob_id,
        ) {
            None => failing(Failure::NoChannel(notes.bob_id)),
            Some(channel) => after_channel(used, notes, channel),
        },
        (Op::SampleFunding(used), _) => after_sample(used, stage, notes, event),
        (Op::Header { at, want }, _) => after_header(
            height_of(at, notes),
            want,
            stage,
            notes,
            event,
        ),
        (Op::LevelZeroHeader { at }, _) => after_level_zero(
            height_of(at, notes),
            stage,
            notes,
            event,
        ),
        (Op::WaitHeights { .. }, _) => after_wait(op, stage, notes, event),
        (Op::ReadBalance, Event::Balance(msat)) => Advance::Finish(Notes { balance: msat, ..notes }),
        (Op::MakeInvoice { .. }, Event::Invoice(invoice)) => Advance::Finish(
            Notes { invoice, ..notes },
        ),
        (Op::WaitPaid { .. }, _) => after_wait(op, stage, notes, event),
        (Op::NewAddress, Event::Address(address)) => if "bcrt1"@.is_prefix_of(address) {
            Advance::Finish(notes)
        } else {
            failing(Failure::NotRegtest(address))
        },
        _ => Advance::Finish(notes),
    }
}

} // verus!
