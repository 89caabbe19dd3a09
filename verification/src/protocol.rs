//! What a run asks for, and the replies.

use vstd::prelude::*;
use crate::channel::{channels_view, Channel};
use crate::json::text_of;
use crate::plan::Who;

verus! {

/// What a run asks for. `S` is the type of its texts, `H` that of block hashes.
#[derive(Debug)]
pub enum Action<S, H> {
    /// Say whether a node binary is given.
    ProbeBinary,
    /// Build a node, able to read v2 headers or not.
    BuildNode { blake2b: bool },
    /// Start a chain, activating at a height or never.
    StartChain { activation: Option<u64> },
    /// Mine this many blocks.
    Mine { blocks: u64 },
    /// Read the chain's block count.
    ReadChainInfo,
    /// Start the relay.
    StartRelay,
    /// Start a node and say its identity.
    StartNode { node: Who },
    /// Open a channel from a node to the node with this identity.
    OpenChannel { from: Who, peer: S, sats: u64, push_msat: u64 },
    /// Say whether a node has a ready channel with this identity.
    AskReady { node: Who, peer: S },
    /// List a node's channels.
    ListChannels { node: Who },
    /// Read the height that a node is at.
    ReadNodeHeight { node: Who },
    /// Read the hash of the block at a height.
    ReadBlockHash { height: u64 },
    /// Read the format that the verbose header of a block reports.
    ReadHeaderInfo { hash: H },
    /// Read the serialized header of a block.
    ReadRawHeader { hash: H },
    /// Read a node's balance in millisatoshi.
    ReadBalance { node: Who },
    /// Have a node make an invoice.
    MakeInvoice { node: Who, msat: u64, description: S },
    /// Have a node pay an invoice.
    PayInvoice { node: Who, invoice: S },
    /// Get an on-chain address from a node.
    NewAddress { node: Who },
    /// Start the clock of a wait.
    StartTimer,
    /// Say how many whole seconds have passed since then.
    ReadTimer,
    /// Sleep.
    Pause { secs: u64 },
}

impl<'a> View for Action<&'a str, &'a serde_json::Value> {
    type V = Action<Seq<char>, serde_json::Value>;

    open spec fn view(&self) -> Action<Seq<char>, serde_json::Value> {
        match *self {
            Action::ProbeBinary => Action::ProbeBinary,
            Action::BuildNode { blake2b } => Action::BuildNode { blake2b },
            Action::StartChain { activation } => Action::StartChain { activation },
            Action::Mine { blocks } => Action::Mine { blocks },
            Action::ReadChainInfo => Action::ReadChainInfo,
            Action::StartRelay => Action::StartRelay,
            Action::StartNode { node } => Action::StartNode { node },
            Action::OpenChannel { from, peer, sats, push_msat } => Action::OpenChannel {
                from,
                peer: peer@,
                sats,
                push_msat,
            },
            Action::AskReady { node, peer } => Action::AskReady { node, peer: peer@ },
            Action::ListChannels { node } => Action::ListChannels { node },
            Action::ReadNodeHeight { node } => Action::ReadNodeHeight { node },
            Action::ReadBlockHash { height } => Action::ReadBlockHash { height },
            Action::ReadHeaderInfo { hash } => Action::ReadHeaderInfo { hash: *hash },
            Action::ReadRawHeader { hash } => Action::ReadRawHeader { hash: *hash },
            Action::ReadBalance { node } => Action::ReadBalance { node },
            Action::MakeInvoice { node, msat, description } => Action::MakeInvoice {
                node,
                msat,
                description: description@,
            },
            Action::PayInvoice { node, invoice } => Action::PayInvoice { node, invoice: invoice@ },
            Action::NewAddress { node } => Action::NewAddress { node },
            Action::StartTimer => Action::StartTimer,
            Action::ReadTimer => Action::ReadTimer,
            Action::Pause { secs } => Action::Pause { secs },
        }
    }
}

/// A reply to an action. `T` is the type of its texts, `L` that of channel
/// lists.
#[derive(Debug)]
pub enum Event<T, L> {
    /// It is done.
    Done,
    /// It failed with this error.
    Failed(T),
    /// Whether a node binary is given.
    BinaryKnown(bool),
    /// The chain's block count, where the reply has one.
    Blocks(Option<u64>),
    /// The node is up and has this identity.
    NodeUp(T),
    /// Whether the channel is ready.
    Ready(bool),
    /// The node's channels.
    Channels(L),
    /// The height that the node is at.
    NodeHeight(u64),
    /// The block's hash.
    BlockHash(serde_json::Value),
    /// The header format, where the reply names one.
    HeaderVersion(Option<u64>),
    /// The serialized header, where the reply is a string.
    HeaderText(Option<T>),
    /// The balance in millisatoshi.
    Balance(u64),
    /// The invoice.
    Invoice(T),
    /// The address.
    Address(T),
    /// How many whole seconds have passed.
    Elapsed(u64),
}

impl View for Event<String, Vec<Channel<String>>> {
    type V = Event<Seq<char>, Seq<Channel<Seq<char>>>>;

    open spec fn view(&self) -> Event<Seq<char>, Seq<Channel<Seq<char>>>> {
        match *self {
            Event::Done => Event::Done,
            Event::Failed(error) => Event::Failed(error@),
            Event::BinaryKnown(given) => Event::BinaryKnown(given),
            Event::Blocks(blocks) => Event::Blocks(blocks),
            Event::NodeUp(id) => Event::NodeUp(id@),
            Event::Ready(ready) => Event::Ready(ready),
            Event::Channels(channels) => Event::Channels(channels_view(channels@)),
            Event::NodeHeight(height) => Event::NodeHeight(height),
            Event::BlockHash(hash) => Event::BlockHash(hash),
            Event::HeaderVersion(headerv) => Event::HeaderVersion(headerv),
            Event::HeaderText(text) => Event::HeaderText(text_of(text)),
            Event::Balance(msat) => Event::Balance(msat),
            Event::Invoice(invoice) => Event::Invoice(invoice@),
            Event::Address(address) => Event::Address(address@),
            Event::Elapsed(secs) => Event::Elapsed(secs),
        }
    }
}

/// An action as a run asks for it.
pub type Request<'a> = Action<&'a str, &'a serde_json::Value>;

/// The view of an action.
pub type RequestView = Action<Seq<char>, serde_json::Value>;

/// An event as a run takes it.
pub type Reply = Event<String, Vec<Channel<String>>>;

/// The view of an event.
pub type ReplyView = Event<Seq<char>, Seq<Channel<Seq<char>>>>;

/// Whether an event is a reply to an action. Only the calls that can fail may
/// be answered by a failure.
pub open spec fn answers(action: RequestView, event: ReplyView) -> bool {
    match action {
        Action::ProbeBinary => event is BinaryKnown,
        Action::BuildNode { .. } => event is Done || event is Failed,
        Action::StartChain { .. } => event is Done,
        Action::Mine { .. } => event is Done,
        Action::ReadChainInfo => event is Blocks || event is Failed,
        Action::StartRelay => event is Done,
        Action::StartNode { .. } => event is NodeUp || event is Failed,
        Action::OpenChannel { .. } => event is Done || event is Failed,
        Action::AskReady { .. } => event is Ready,
        Action::ListChannels { .. } => event is Channels || event is Failed,
        Action::ReadNodeHeight { .. } => event is NodeHeight || event is Failed,
        Action::ReadBlockHash { .. } => event is BlockHash || event is Failed,
        Action::ReadHeaderInfo { .. } => event is HeaderVersion || event is Failed,
        Action::ReadRawHeader { .. } => event is HeaderText || event is Failed,
        Action::ReadBalance { .. } => event is Balance || event is Failed,
        Action::MakeInvoice { .. } => event is Invoice || event is Failed,
        Action::PayInvoice { .. } => event is Done || event is Failed,
        Action::NewAddress { .. } => event is Address || event is Failed,
        Action::StartTimer => event is Done,
        Action::ReadTimer => event is Elapsed,
        Action::Pause { .. } => event is Done,
    }
}

/// Whether an event is a reply to an action.
pub fn is_reply(action: &Request<'_>, event: &Reply) -> (reply: bool)
    ensures
        reply == answers(action@, event@),
{
    match (action, event) {
        (Action::ProbeBinary, Event::BinaryKnown(_)) => true,
        (Action::BuildNode { .. }, Event::Done | Event::Failed(_)) => true,
        (Action::StartChain { .. }, Event::Done) => true,
        (Action::Mine { .. }, Event::Done) => true,
        (Action::ReadChainInfo, Event::Blocks(_) | Event::Failed(_)) => true,
        (Action::StartRelay, Event::Done) => true,
        (Action::StartNode { .. }, Event::NodeUp(_) | Event::Failed(_)) => true,
        (Action::OpenChannel { .. }, Event::Done | Event::Failed(_)) => true,
        (Action::AskReady { .. }, Event::Ready(_)) => true,
        (Action::ListChannels { .. }, Event::Channels(_) | Event::Failed(_)) => true,
        (Action::ReadNodeHeight { .. }, Event::NodeHeight(_) | Event::Failed(_)) => true,
        (Action::ReadBlockHash { .. }, Event::BlockHash(_) | Event::Failed(_)) => true,
        (Action::ReadHeaderInfo { .. }, Event::HeaderVersion(_) | Event::Failed(_)) => true,
        (Action::ReadRawHeader { .. }, Event::HeaderText(_) | Event::Failed(_)) => true,
        (Action::ReadBalance { .. }, Event::Balance(_) | Event::Failed(_)) => true,
        (Action::MakeInvoice { .. }, Event::Invoice(_) | Event::Failed(_)) => true,
        (Action::PayInvoice { .. }, Event::Done | Event::Failed(_)) => true,
        (Action::NewAddress { .. }, Event::Address(_) | Event::Failed(_)) => true,
        (Action::StartTimer, Event::Done) => true,
        (Action::ReadTimer, Event::Elapsed(_)) => true,
        (Action::Pause { .. }, Event::Done) => true,
        _ => false,
    }
}

/// A reply that carries something fits exactly the request for it, whatever it
/// carries.
pub proof fn law_reply_fits_its_request(action: RequestView, event: ReplyView)
    ensures
        event is BinaryKnown ==> (answers(action, event) <==> action is ProbeBinary),
        event is Blocks ==> (answers(action, event) <==> action is ReadChainInfo),
        event is NodeUp ==> (answers(action, event) <==> action is StartNode),
        event is Ready ==> (answers(action, event) <==> action is AskReady),
        event is Channels ==> (answers(action, event) <==> action is ListChannels),
        event is NodeHeight ==> (answers(action, event) <==> action is ReadNodeHeight),
        event is BlockHash ==> (answers(action, event) <==> action is ReadBlockHash),
        event is HeaderVersion ==> (answers(action, event) <==> action is ReadHeaderInfo),
        event is HeaderText ==> (answers(action, event) <==> action is ReadRawHeader),
        event is Balance ==> (answers(action, event) <==> action is ReadBalance),
        event is Invoice ==> (answers(action, event) <==> action is MakeInvoice),
        event is Address ==> (answers(action, event) <==> action is NewAddress),
        event is Elapsed ==> (answers(action, event) <==> action is ReadTimer),
{
}

/// What has nothing to report is answered by its being done. Everything that is
/// asked of a node or of the chain's interface may fail, and so may a build;
/// starting the chain or the relay, mining, asking for readiness and the clock
/// may not.
pub proof fn law_plain_replies(action: RequestView, error: Seq<char>)
    ensures
        answers(action, Event::Done) <==> (action is BuildNode || action is StartChain
            || action is Mine || action is StartRelay || action is OpenChannel
            || action is PayInvoice || action is StartTimer || action is Pause),
        !answers(action, Event::Failed(error)) <==> (action is ProbeBinary || action is StartChain
            || action is Mine || action is StartRelay || action is AskReady
            || action is StartTimer || action is ReadTimer || action is Pause),
{
}

/// The view of an event keeps its kind and what it carries.
pub proof fn law_event_view(
    text: String,
    flag: bool,
    number: u64,
    perhaps: Option<u64>,
    hash: serde_json::Value,
    channels: Vec<Channel<String>>,
)
    ensures
        Reply::Done@ == ReplyView::Done,
        Reply::Failed(text)@ == ReplyView::Failed(text@),
        Reply::BinaryKnown(flag)@ == ReplyView::BinaryKnown(flag),
        Reply::Blocks(perhaps)@ == ReplyView::Blocks(perhaps),
        Reply::NodeUp(text)@ == ReplyView::NodeUp(text@),
        Reply::Ready(flag)@ == ReplyView::Ready(flag),
        Reply::Channels(channels)@ matches Event::Channels(view) && view.len() == channels@.len()
            && forall|i: int| 0 <= i < channels@.len() ==> view[i] == (#[trigger] channels@[i])@,
        Reply::NodeHeight(number)@ == ReplyView::NodeHeight(number),
        Reply::BlockHash(hash)@ == ReplyView::BlockHash(hash),
        Reply::HeaderVersion(perhaps)@ == ReplyView::HeaderVersion(perhaps),
        Reply::HeaderText(Some(text))@ == ReplyView::HeaderText(Some(text@)),
        Reply::HeaderText(None)@ == ReplyView::HeaderText(None),
        Reply::Balance(number)@ == ReplyView::Balance(number),
        Reply::Invoice(text)@ == ReplyView::Invoice(text@),
        Reply::Address(text)@ == ReplyView::Address(text@),
        Reply::Elapsed(number)@ == ReplyView::Elapsed(number),
{
}

/// The view of an action keeps its kind and what it asks for.
pub proof fn law_action_view<'a>(
    text: &'a str,
    hash: &'a serde_json::Value,
    node: Who,
    flag: bool,
    number: u64,
    other: u64,
    perhaps: Option<u64>,
)
    ensures
        Request::ProbeBinary@ == RequestView::ProbeBinary,
        (Request::BuildNode { blake2b: flag })@ == (RequestView::BuildNode { blake2b: flag }),
        (Request::StartChain { activation: perhaps })@ == (RequestView::StartChain {
            activation: perhaps,
        }),
        (Request::Mine { blocks: number })@ == (RequestView::Mine { blocks: number }),
        Request::ReadChainInfo@ == RequestView::ReadChainInfo,
        Request::StartRelay@ == RequestView::StartRelay,
        (Request::StartNode { node })@ == (RequestView::StartNode { node }),
        (Request::OpenChannel { from: node, peer: text, sats: number, push_msat: other })@ == (
        RequestView::OpenChannel { from: node, peer: text@, sats: number, push_msat: other }),
        (Request::AskReady { node, peer: text })@ == (RequestView::AskReady { node, peer: text@ }),
        (Request::ListChannels { node })@ == (RequestView::ListChannels { node }),
        (Request::ReadNodeHeight { node })@ == (RequestView::ReadNodeHeight { node }),
        (Request::ReadBlockHash { height: number })@ == (RequestView::ReadBlockHash {
            height: number,
        }),
        (Request::ReadHeaderInfo { hash })@ == (RequestView::ReadHeaderInfo { hash: *hash }),
        (Request::ReadRawHeader { hash })@ == (RequestView::ReadRawHeader { hash: *hash }),
        (Request::ReadBalance { node })@ == (RequestView::ReadBalance { node }),
        (Request::MakeInvoice { node, msat: number, description: text })@ == (
        RequestView::MakeInvoice { node, msat: number, description: text@ }),
        (Request::PayInvoice { node, invoice: text })@ == (RequestView::PayInvoice {
            node,
            invoice: text@,
        }),
        (Request::NewAddress { node })@ == (RequestView::NewAddress { node }),
        Request::StartTimer@ == RequestView::StartTimer,
        Request::ReadTimer@ == RequestView::ReadTimer,
        (Request::Pause { secs: number })@ == (RequestView::Pause { secs: number }),
{
}

} // verus!
