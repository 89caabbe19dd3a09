//! A lightning channel as its node reports it.

use vstd::prelude::*;
use crate::failure::Failure;
use crate::json::{as_str, as_u64, debug, display, member};
use crate::json::{
    json_content, json_debug, json_display, json_member, json_str, json_u64, text_of, Json,
};

verus! {

/// What the scenarios read of a channel. `T` is the type of its texts.
#[derive(Debug)]
pub struct Channel<T> {
    /// The node at the other end, where the report names one.
    pub peer_pubkey: Option<T>,
    /// The funding transaction, where the report names one.
    pub funding_txid: Option<T>,
    /// The funding transaction as the report has it, for messages.
    pub funding_txid_shown: T,
    /// The state of the channel, where the report names one.
    pub state: Option<T>,
    /// The state as the report has it, for messages.
    pub state_shown: T,
    /// How many blocks confirm the funding transaction, where the report says.
    pub confirmations: Option<u64>,
}

impl View for Channel<String> {
    type V = Channel<Seq<char>>;

    open spec fn view(&self) -> Channel<Seq<char>> {
        Channel {
            peer_pubkey: text_of(self.peer_pubkey),
            funding_txid: text_of(self.funding_txid),
            funding_txid_shown: self.funding_txid_shown@,
            state: text_of(self.state),
            state_shown: self.state_shown@,
            confirmations: self.confirmations,
        }
    }
}

/// The channels of a list, each by its view.
pub open spec fn channels_view(channels: Seq<Channel<String>>) -> Seq<Channel<Seq<char>>> {
    Seq::new(channels.len(), |i: int| channels[i]@)
}

/// The channel in one entry of a node's channel list, by what the entry holds.
pub open spec fn channel_of(entry: Json) -> Channel<Seq<char>> {
    Channel {
        peer_pubkey: json_str(json_member(entry, "peer_pubkey"@)),
        funding_txid: json_str(json_member(entry, "funding_txid"@)),
        funding_txid_shown: json_display(json_member(entry, "funding_txid"@)),
        state: json_str(json_member(entry, "state"@)),
        state_shown: json_debug(json_member(entry, "state"@)),
        confirmations: json_u64(json_member(entry, "confirmations"@)),
    }
}

/// Reads one entry of a node's channel list.
pub fn read_channel(entry: &serde_json::Value) -> (channel: Channel<String>)
    ensures
        channel@ == channel_of(json_content(*entry)),
        match json_content(*entry) {
            Json::Object(members) => {
                &&& (members.dom().contains("confirmations"@) && members["confirmations"@] is Number) ==> channel.confirmations
                    == members["confirmations"@]->unsigned
                &&& !(members.dom().contains("confirmations"@) && members["confirmations"@] is Number) ==> channel.confirmations is None
                &&& (members.dom().contains("peer_pubkey"@) && members["peer_pubkey"@] is Text) ==> (
                channel.peer_pubkey matches Some(text) && text@ == members["peer_pubkey"@]->Text_0)
                &&& !(members.dom().contains("peer_pubkey"@) && members["peer_pubkey"@] is Text) ==> channel.peer_pubkey is None
                &&& (members.dom().contains("funding_txid"@) && members["funding_txid"@] is Text) ==> (
                channel.funding_txid matches Some(text) && text@ == members["funding_txid"@]->Text_0)
                &&& !(members.dom().contains("funding_txid"@) && members["funding_txid"@] is Text) ==> channel.funding_txid is None
                &&& (members.dom().contains("state"@) && members["state"@] is Text) ==> (
                channel.state matches Some(text) && text@ == members["state"@]->Text_0)
                &&& !(members.dom().contains("state"@) && members["state"@] is Text) ==> channel.state is None
                &&& channel.funding_txid_shown@ == json_display(
                    if members.dom().contains("funding_txid"@) {
                        members["funding_txid"@]
                    } else {
                        Json::Null
                    },
                )
                &&& channel.state_shown@ == json_debug(
                    if members.dom().contains("state"@) {
                        members["state"@]
                    } else {
                        Json::Null
                    },
                )
            },
            _ => {
                &&& channel.confirmations is None
                &&& channel.peer_pubkey is None
                &&& channel.funding_txid is None
                &&& channel.state is None
                &&& channel.funding_txid_shown@ == json_display(Json::Null)
                &&& channel.state_shown@ == json_debug(Json::Null)
            },
        },
{
    let txid = member(entry, "funding_txid");
    let state = member(entry, "state");
    Channel {
        peer_pubkey: as_str(member(entry, "peer_pubkey")),
        funding_txid: as_str(txid),
        funding_txid_shown: display(txid),
        state: as_str(state),
        state_shown: debug(state),
        confirmations: as_u64(member(entry, "confirmations")),
    }
}

/// Reads a node's channel list, in order.
pub fn read_channels(entries: &Vec<serde_json::Value>) -> (channels: Vec<Channel<String>>)
    ensures
        channels_view(channels@) == Seq::new(entries@.len(), |i: int| channel_of(json_content(entries@[i]))),
        channels@.len() == entries@.len(),
        forall|i: int|
            0 <= i < entries@.len() ==> (#[trigger] channels@[i])@ == channel_of(
                json_content(entries@[i]),
            ),
{
    let mut channels: Vec<Channel<String>> = Vec::new();
    for i in 0..entries.len()
        invariant
            channels@.len() == i,
            forall|j: int| 0 <= j < i ==> (#[trigger] channels@[j])@ == channel_of(
                json_content(entries@[j]),
            ),
    {
        channels.push(read_channel(&entries[i]));
    }
    channels
}

/// The first channel of a list whose other end is `peer`.
pub open spec fn first_with(channels: Seq<Channel<Seq<char>>>, peer: Seq<char>) -> Option<
    Channel<Seq<char>>,
>
    decreases channels.len(),
{
    if channels.len() == 0 {
        None
    } else if channels[0].peer_pubkey == Some(peer) {
        Some(channels[0])
    } else {
        first_with(channels.drop_first(), peer)
    }
}

/// Finds the first channel with a peer. It fails exactly where no channel of
/// the list has that peer.
pub fn channel_with<'a>(channels: &'a Vec<Channel<String>>, peer: &String) -> (found: Result<
    &'a Channel<String>,
    Failure<String>,
>)
    ensures
        match found {
            Ok(channel) => first_with(channels_view(channels@), peer@) == Some(channel@),
            Err(failure) => {
                &&& first_with(channels_view(channels@), peer@) is None
                &&& failure@ == Failure::NoChannel(peer@)
            },
        },
        match found {
            Ok(channel) => exists|i: int|
                {
                    &&& 0 <= i < channels@.len()
                    &&& *channel == #[trigger] channels@[i]
                    &&& channel@.peer_pubkey == Some(peer@)
                    &&& forall|j: int|
                        0 <= j < i ==> (#[trigger] channels@[j])@.peer_pubkey != Some(peer@)
                },
            Err(failure) => {
                &&& (failure matches Failure::NoChannel(named) && named@ == peer@)
                &&& forall|j: int|
                    0 <= j < channels@.len() ==> (#[trigger] channels@[j])@.peer_pubkey != Some(
                        peer@,
                    )
            },
        },
{
    let ghost all = channels_view(channels@);
    assert(all.skip(0) =~= all);
    for i in 0..channels.len()
        invariant
            all == channels_view(channels@),
            first_with(all, peer@) == first_with(all.skip(i as int), peer@),
            forall|j: int| 0 <= j < i ==> (#[trigger] channels@[j])@.peer_pubkey != Some(peer@),
    {
        let channel = &channels[i];
        assert(all.skip(i as int)[0] == channel@);
        if let Some(pubkey) = &channel.peer_pubkey {
            if *pubkey == *peer {
                return Ok(channel);
            }
        }
        assert(all.skip(i as int).drop_first() =~= all.skip(i + 1));
    }
    Err(Failure::NoChannel(peer.clone()))
}

/// The channel that is found is in the list, and none before it has the peer.
pub proof fn law_first_with_is_first(channels: Seq<Channel<Seq<char>>>, peer: Seq<char>)
    ensures
        match first_with(channels, peer) {
            Some(channel) => exists|i: int|
                0 <= i < channels.len() && #[trigger] channels[i] == channel
                    && channel.peer_pubkey == Some(peer) && (forall|j: int|
                    0 <= j < i ==> (#[trigger] channels[j]).peer_pubkey != Some(peer)),
            None => forall|j: int|
                0 <= j < channels.len() ==> (#[trigger] channels[j]).peer_pubkey != Some(peer),
        },
    decreases channels.len(),
{
    if channels.len() > 0 && channels[0].peer_pubkey != Some(peer) {
        let rest = channels.drop_first();
        law_first_with_is_first(rest, peer);
        match first_with(channels, peer) {
            Some(channel) => {
                let i = choose|i: int|
                    0 <= i < rest.len() && #[trigger] rest[i] == channel && channel.peer_pubkey
                        == Some(peer) && (forall|j: int|
                        0 <= j < i ==> (#[trigger] rest[j]).peer_pubkey != Some(peer));
                assert(channels[i + 1] == channel);
                assert forall|j: int| 0 <= j < i + 1 implies (#[trigger] channels[j]).peer_pubkey
                    != Some(peer) by {
                    if j > 0 {
                        assert(rest[j - 1] == channels[j]);
                    }
                }
            },
            None => {
                assert forall|j: int| 0 <= j < channels.len() implies (
                #[trigger] channels[j]).peer_pubkey != Some(peer) by {
                    if j > 0 {
                        assert(rest[j - 1] == channels[j]);
                    }
                }
            },
        }
    }
}

/// A channel that has the peer, with none before it that does, is the one found.
pub proof fn law_first_is_found(channels: Seq<Channel<Seq<char>>>, peer: Seq<char>, i: int)
    requires
        0 <= i < channels.len(),
        channels[i].peer_pubkey == Some(peer),
        forall|j: int| 0 <= j < i ==> (#[trigger] channels[j]).peer_pubkey != Some(peer),
    ensures
        first_with(channels, peer) == Some(channels[i]),
{
    law_first_with_is_first(channels, peer);
    match first_with(channels, peer) {
        Some(found) => {
            let k = choose|k: int|
                0 <= k < channels.len() && #[trigger] channels[k] == found && found.peer_pubkey
                    == Some(peer) && (forall|j: int|
                    0 <= j < k ==> (#[trigger] channels[j]).peer_pubkey != Some(peer));
            assert(channels[k].peer_pubkey == Some(peer));
        },
        None => {
            assert(channels[i].peer_pubkey != Some(peer));
        },
    }
}

/// Where no channel of the list has the peer, none is found.
pub proof fn law_none_is_found(channels: Seq<Channel<Seq<char>>>, peer: Seq<char>)
    requires
        forall|j: int|
            0 <= j < channels.len() ==> (#[trigger] channels[j]).peer_pubkey != Some(peer),
    ensures
        first_with(channels, peer) is None,
{
    law_first_with_is_first(channels, peer);
}

/// An entry of a channel list is read member by member: a number that is an
/// integer between zero and `u64::MAX` and each text exactly as it stands under
/// its key, and nothing where the member is missing or of another kind.
pub proof fn law_entry_is_read(entry: Json)
    ensures
        match entry {
            Json::Object(members) => {
                let channel = channel_of(entry);
                &&& (members.dom().contains("confirmations"@) && members["confirmations"@] is Number) ==> channel.confirmations
                    == members["confirmations"@]->unsigned
                &&& !(members.dom().contains("confirmations"@) && members["confirmations"@] is Number) ==> channel.confirmations is None
                &&& (members.dom().contains("peer_pubkey"@) && members["peer_pubkey"@] is Text) ==> (
                channel.peer_pubkey matches Some(text) && text == members["peer_pubkey"@]->Text_0)
                &&& !(members.dom().contains("peer_pubkey"@) && members["peer_pubkey"@] is Text) ==> channel.peer_pubkey is None
                &&& (members.dom().contains("funding_txid"@) && members["funding_txid"@] is Text) ==> (
                channel.funding_txid matches Some(text) && text == members["funding_txid"@]->Text_0)
                &&& !(members.dom().contains("funding_txid"@) && members["funding_txid"@] is Text) ==> channel.funding_txid is None
                &&& (members.dom().contains("state"@) && members["state"@] is Text) ==> (
                channel.state matches Some(text) && text == members["state"@]->Text_0)
                &&& !(members.dom().contains("state"@) && members["state"@] is Text) ==> channel.state is None
                &&& channel.funding_txid_shown == json_display(
                    if members.dom().contains("funding_txid"@) {
                        members["funding_txid"@]
                    } else {
                        Json::Null
                    },
                )
                &&& channel.state_shown == json_debug(
                    if members.dom().contains("state"@) {
                        members["state"@]
                    } else {
                        Json::Null
                    },
                )
            },
            _ => {
                let channel = channel_of(entry);
                &&& channel.confirmations is None
                &&& channel.peer_pubkey is None
                &&& channel.funding_txid is None
                &&& channel.state is None
                &&& channel.funding_txid_shown == json_display(Json::Null)
                &&& channel.state_shown == json_debug(Json::Null)
            },
        },
{
}

/// The view of a channel keeps each of its fields.
pub proof fn law_channel_view(channel: Channel<String>)
    ensures
        channel@.confirmations == channel.confirmations,
        channel@.funding_txid_shown == channel.funding_txid_shown@,
        channel@.state_shown == channel.state_shown@,
        channel.peer_pubkey matches Some(text) ==> channel@.peer_pubkey == Some(text@),
        channel.peer_pubkey is None ==> channel@.peer_pubkey is None,
        channel.funding_txid matches Some(text) ==> channel@.funding_txid == Some(text@),
        channel.funding_txid is None ==> channel@.funding_txid is None,
        channel.state matches Some(text) ==> channel@.state == Some(text@),
        channel.state is None ==> channel@.state is None,
{
}

/// A list is read in order, entry by entry, and none is lost.
pub proof fn law_list_view(channels: Seq<Channel<String>>, i: int)
    ensures
        channels_view(channels).len() == channels.len(),
        0 <= i < channels.len() ==> channels_view(channels)[i] == channels[i]@,
{
}

} // verus!
