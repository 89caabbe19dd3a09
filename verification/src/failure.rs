//! Why a scenario fails, and the words for it.

use vstd::prelude::*;
use vstd::string::*;
use crate::hexadecimal::{char_debug, debug_char, HexError};
use crate::text::{append_decimal, append_hex_digits, decimal, hex_digits};

verus! {

/// Why a scenario fails. `T` is the type of its texts.
#[derive(Debug)]
pub enum Failure<T> {
    /// A call outside failed with this error.
    Call(T),
    /// `getblockchaininfo` failed with this error.
    ChainInfo(T),
    /// `getblockhash` failed.
    BlockHash { height: u64, error: T },
    /// The verbose `getblockheader` failed.
    HeaderInfo { height: u64, error: T },
    /// The raw `getblockheader` failed.
    RawHeader { height: u64, error: T },
    /// The raw `getblockheader` failed on a level 0 chain.
    LevelZeroHeader(T),
    /// `getblockchaininfo` reports no block count.
    BlocksMissing,
    /// The verbose header names no format.
    NoHeaderVersion,
    /// The raw header is no JSON string.
    HeaderNotText,
    /// The raw header is no hexadecimal text.
    BadHex(HexError),
    /// The reported header format is another one.
    WrongHeaderVersion { height: u64, headerv: u64, want: u64 },
    /// The raw header has another length.
    WrongHeaderLength { height: u64, length: u64, want_length: u64 },
    /// Bit 31 of the raw header's version contradicts the reported format.
    WrongVersionBit { height: u64, version: u32, headerv: u64 },
    /// A level 0 header is not 80 bytes long.
    LevelZeroLength { height: u64, length: u64 },
    /// A level 0 header has bit 31 of its version set.
    LevelZeroBit { height: u64, version: u32 },
    /// The chain did not start where it was mined to.
    WrongStartHeight(u64),
    /// The chain was already activated before the nodes were up.
    PastActivation,
    /// Two nodes have one identity.
    SharedNodeId,
    /// The channel names no funding transaction.
    NoFundingTxid,
    /// No channel has this peer.
    NoChannel(T),
    /// The channel reports no confirmation count.
    NoConfirmations,
    /// The funding transaction is in no block.
    Unconfirmed,
    /// The height moved under every sample.
    NoSteadySample,
    /// The channel was confirmed at or after activation.
    ConfirmedTooLate(u64),
    /// The chain is at another height.
    WrongHeight { want: u64, got: u64 },
    /// The chain's tip is at another height.
    WrongTip { want: u64, got: u64 },
    /// The funding transaction changed across activation.
    TxidChanged { before: T, after: T },
    /// The channel is in another state after activation.
    NotActive(T),
    /// The funding transaction's block moved across activation.
    FundingMoved { was: u64, now: u64 },
    /// The channel reports no confirmations after activation.
    NothingConfirmed,
    /// The channel that should never see a v1 header was funded in a v1 block.
    FundedBelowActivation { block: u64, activation: u64 },
    /// The wait for this ended without it.
    TimedOut(T),
    /// The address is none of a regtest chain.
    NotRegtest(T),
}

impl View for Failure<String> {
    type V = Failure<Seq<char>>;

    open spec fn view(&self) -> Failure<Seq<char>> {
        match *self {
            Failure::Call(error) => Failure::Call(error@),
            Failure::ChainInfo(error) => Failure::ChainInfo(error@),
            Failure::BlockHash { height, error } => Failure::BlockHash { height, error: error@ },
            Failure::HeaderInfo { height, error } => Failure::HeaderInfo { height, error: error@ },
            Failure::RawHeader { height, error } => Failure::RawHeader { height, error: error@ },
            Failure::LevelZeroHeader(error) => Failure::LevelZeroHeader(error@),
            Failure::BlocksMissing => Failure::BlocksMissing,
            Failure::NoHeaderVersion => Failure::NoHeaderVersion,
            Failure::HeaderNotText => Failure::HeaderNotText,
            Failure::BadHex(error) => Failure::BadHex(error),
            Failure::WrongHeaderVersion { height, headerv, want } => Failure::WrongHeaderVersion {
                height,
                headerv,
                want,
            },
            Failure::WrongHeaderLength { height, length, want_length } => {
                Failure::WrongHeaderLength { height, length, want_length }
            },
            Failure::WrongVersionBit { height, version, headerv } => Failure::WrongVersionBit {
                height,
                version,
                headerv,
            },
            Failure::LevelZeroLength { height, length } => Failure::LevelZeroLength {
                height,
                length,
            },
            Failure::LevelZeroBit { height, version } => Failure::LevelZeroBit { height, version },
            Failure::WrongStartHeight(got) => Failure::WrongStartHeight(got),
            Failure::PastActivation => Failure::PastActivation,
            Failure::SharedNodeId => Failure::SharedNodeId,
            Failure::NoFundingTxid => Failure::NoFundingTxid,
            Failure::NoChannel(peer) => Failure::NoChannel(peer@),
            Failure::NoConfirmations => Failure::NoConfirmations,
            Failure::Unconfirmed => Failure::Unconfirmed,
            Failure::NoSteadySample => Failure::NoSteadySample,
            Failure::ConfirmedTooLate(height) => Failure::ConfirmedTooLate(height),
            Failure::WrongHeight { want, got } => Failure::WrongHeight { want, got },
            Failure::WrongTip { want, got } => Failure::WrongTip { want, got },
            Failure::TxidChanged { before, after } => Failure::TxidChanged {
                before: before@,
                after: after@,
            },
            Failure::NotActive(shown) => Failure::NotActive(shown@),
            Failure::FundingMoved { was, now } => Failure::FundingMoved { was, now },
            Failure::NothingConfirmed => Failure::NothingConfirmed,
            Failure::FundedBelowActivation { block, activation } => {
                Failure::FundedBelowActivation { block, activation }
            },
            Failure::TimedOut(label) => Failure::TimedOut(label@),
            Failure::NotRegtest(address) => Failure::NotRegtest(address@),
        }
    }
}

/// The words for a text that is not hexadecimal.
pub open spec fn hex_error_text(error: HexError) -> Seq<char> {
    match error {
        HexError::InvalidHexCharacter { c, index } => "Invalid character "@ + char_debug(c)
            + " at position "@ + decimal(index as nat),
        HexError::OddLength => "Odd number of digits"@,
        HexError::InvalidStringLength => "Invalid string length"@,
    }
}

/// The words for a failure.
pub open spec fn failure_text(failure: Failure<Seq<char>>) -> Seq<char> {
    match failure {
        Failure::Call(error) => error,
        Failure::ChainInfo(error) => "getblockchaininfo failed: "@ + error,
        Failure::BlockHash { height, error } => "getblockhash("@ + decimal(height as nat)
            + ") failed: "@ + error,
        Failure::HeaderInfo { height, error } => "getblockheader("@ + decimal(height as nat)
            + ") failed: "@ + error,
        Failure::RawHeader { height, error } => "getblockheader("@ + decimal(height as nat)
            + ", false) failed: "@ + error,
        Failure::LevelZeroHeader(error) => "getblockheader failed: "@ + error,
        Failure::BlocksMissing => "blocks missing"@,
        Failure::NoHeaderVersion => "no headerv in the result"@,
        Failure::HeaderNotText => "header not a string"@,
        Failure::BadHex(error) => hex_error_text(error),
        Failure::WrongHeaderVersion { height, headerv, want } => "height "@ + decimal(
            height as nat,
        ) + ": headerv is "@ + decimal(headerv as nat) + ", expected "@ + decimal(want as nat),
        Failure::WrongHeaderLength { height, length, want_length } => "height "@ + decimal(
            height as nat,
        ) + ": header is "@ + decimal(length as nat) + " bytes, expected "@ + decimal(
            want_length as nat,
        ),
        Failure::WrongVersionBit { height, version, headerv } => "height "@ + decimal(
            height as nat,
        ) + ": nVersion is 0x"@ + hex_digits(version as nat, 8)
            + ", which disagrees with headerv "@ + decimal(headerv as nat),
        Failure::LevelZeroLength { height, length } => "block "@ + decimal(height as nat)
            + ": expected an 80-byte v1 header, got "@ + decimal(length as nat) + " bytes"@,
        Failure::LevelZeroBit { height, version } => "block "@ + decimal(height as nat)
            + ": bit 31 of nVersion is set (0x"@ + hex_digits(version as nat, 8)
            + ") — this is a v2 header"@,
        Failure::WrongStartHeight(got) => "expected height 110, got "@ + decimal(got as nat),
        Failure::PastActivation => "mined past activation before the nodes were up"@,
        Failure::SharedNodeId => "alice and bob share a node_id"@,
        Failure::NoFundingTxid => "channel has no funding_txid"@,
        Failure::NoChannel(peer) => "no channel with "@ + peer,
        Failure::NoConfirmations => {
            "channel has no confirmations — is the node build current?"@
        },
        Failure::Unconfirmed => "channel funding is unconfirmed"@,
        Failure::NoSteadySample => "could not sample height and confirmations together"@,
        Failure::ConfirmedTooLate(height) => "channel confirmed at "@ + decimal(height as nat)
            + ", at or past activation — nothing left to cross"@,
        Failure::WrongHeight { want, got } => "expected "@ + decimal(want as nat) + ", got "@
            + decimal(got as nat),
        Failure::WrongTip { want, got } => "expected tip "@ + decimal(want as nat) + ", got "@
            + decimal(got as nat),
        Failure::TxidChanged { before, after } => "funding txid changed across activation: "@
            + before + " -> "@ + after,
        Failure::NotActive(shown) => "channel is "@ + shown
            + " after activation, expected active"@,
        Failure::FundingMoved { was, now } => {
            "the node stopped counting from the same block across activation: funding was in block "@
                + decimal(was as nat) + ", now its confirmations imply "@ + decimal(now as nat)
        },
        Failure::NothingConfirmed => "channel reports no confirmations after activation"@,
        Failure::FundedBelowActivation { block, activation } => "carol's funding is in block "@
            + decimal(block as nat) + ", below activation at "@ + decimal(activation as nat)
            + " — this channel did not open under v2 headers"@,
        Failure::TimedOut(label) => "timed out waiting for "@ + label,
        Failure::NotRegtest(address) => "expected a regtest address, got "@ + address,
    }
}

/// The words for a text that is not hexadecimal.
pub fn hex_error_message(error: HexError) -> (message: String)
    ensures
        message@ == hex_error_text(error),
{
    match error {
        HexError::InvalidHexCharacter { c, index } => {
            let mut out = "Invalid character ".to_owned();
            out.append(debug_char(c).as_str());
            out.append(" at position ");
            append_decimal(&mut out, index as u64);
            out
        },
        HexError::OddLength => "Odd number of digits".to_owned(),
        HexError::InvalidStringLength => "Invalid string length".to_owned(),
    }
}

/// A text with another one appended.
fn worded(before: &str, text: &String) -> (out: String)
    ensures
        out@ == before@ + text@,
{
    let mut out = before.to_owned();
    out.append(text.as_str());
    out
}

/// A text with a number appended.
fn numbered(before: &str, n: u64) -> (out: String)
    ensures
        out@ == before@ + decimal(n as nat),
{
    let mut out = before.to_owned();
    append_decimal(&mut out, n);
    out
}

impl Failure<String> {
    /// The words for the failure.
    pub fn message(&self) -> (message: String)
        ensures
            message@ == failure_text(self@),
    {
        match self {
            Failure::Call(error) => error.clone(),
            Failure::ChainInfo(error) => worded("getblockchaininfo failed: ", error),
            Failure::BlockHash { height, error } => {
                let mut out = numbered("getblockhash(", *height);
                out.append(") failed: ");
                out.append(error.as_str());
                out
            },
            Failure::HeaderInfo { height, error } => {
                let mut out = numbered("getblockheader(", *height);
                out.append(") failed: ");
                out.append(error.as_str());
                out
            },
            Failure::RawHeader { height, error } => {
                let mut out = numbered("getblockheader(", *height);
                out.append(", false) failed: ");
                out.append(error.as_str());
                out
            },
            Failure::LevelZeroHeader(error) => worded("getblockheader failed: ", error),
            Failure::BlocksMissing => "blocks missing".to_owned(),
            Failure::NoHeaderVersion => "no headerv in the result".to_owned(),
            Failure::HeaderNotText => "header not a string".to_owned(),
            Failure::BadHex(error) => hex_error_message(*error),
            Failure::WrongHeaderVersion { height, headerv, want } => {
                let mut out = numbered("height ", *height);
                out.append(": headerv is ");
                append_decimal(&mut out, *headerv);
                out.append(", expected ");
                append_decimal(&mut out, *want);
                out
            },
            Failure::WrongHeaderLength { height, length, want_length } => {
                let mut out = numbered("height ", *height);
                out.append(": header is ");
                append_decimal(&mut out, *length);
                out.append(" bytes, expected ");
                append_decimal(&mut out, *want_length);
                out
            },
            Failure::WrongVersionBit { height, version, headerv } => {
                let mut out = numbered("height ", *height);
                out.append(": nVersion is 0x");
                append_hex_digits(&mut out, *version as u64, 8);
                out.append(", which disagrees with headerv ");
                append_decimal(&mut out, *headerv);
                out
            },
            Failure::LevelZeroLength { height, length } => {
                let mut out = numbered("block ", *height);
                out.append(": expected an 80-byte v1 header, got ");
                append_decimal(&mut out, *length);
                out.append(" bytes");
                out
            },
            Failure::LevelZeroBit { height, version } => {
                let mut out = numbered("block ", *height);
                out.append(": bit 31 of nVersion is set (0x");
                append_hex_digits(&mut out, *version as u64, 8);
                out.append(") — this is a v2 header");
                out
            },
            Failure::WrongStartHeight(got) => numbered("expected height 110, got ", *got),
            Failure::PastActivation => "mined past activation before the nodes were up".to_owned(),
            Failure::SharedNodeId => "alice and bob share a node_id".to_owned(),
            Failure::NoFundingTxid => "channel has no funding_txid".to_owned(),
            Failure::NoChannel(peer) => worded("no channel with ", peer),
            Failure::NoConfirmations => {
                "channel has no confirmations — is the node build current?".to_owned()
            },
            Failure::Unconfirmed => "channel funding is unconfirmed".to_owned(),
            Failure::NoSteadySample => {
                "could not sample height and confirmations together".to_owned()
            },
            Failure::ConfirmedTooLate(height) => {
                let mut out = numbered("channel confirmed at ", *height);
                out.append(", at or past activation — nothing left to cross");
                out
            },
            Failure::WrongHeight { want, got } => {
                let mut out = numbered("expected ", *want);
                out.append(", got ");
                append_decimal(&mut out, *got);
                out
            },
            Failure::WrongTip { want, got } => {
                let mut out = numbered("expected tip ", *want);
                out.append(", got ");
                append_decimal(&mut out, *got);
                out
            },
            Failure::TxidChanged { before, after } => {
                let mut out = worded("funding txid changed across activation: ", before);
                out.append(" -> ");
                out.append(after.as_str());
                out
            },
            Failure::NotActive(shown) => {
                let mut out = worded("channel is ", shown);
                out.append(" after activation, expected active");
                out
            },
            Failure::FundingMoved { was, now } => {
                let mut out = numbered(
                    "the node stopped counting from the same block across activation: funding was in block ",
                    *was,
                );
                out.append(", now its confirmations imply ");
                append_decimal(&mut out, *now);
                out
            },
            Failure::NothingConfirmed => {
                "channel reports no confirmations after activation".to_owned()
            },
            Failure::FundedBelowActivation { block, activation } => {
                let mut out = numbered("carol's funding is in block ", *block);
                out.append(", below activation at ");
                append_decimal(&mut out, *activation);
                out.append(" — this channel did not open under v2 headers");
                out
            },
            Failure::TimedOut(label) => worded("timed out waiting for ", label),
            Failure::NotRegtest(address) => worded("expected a regtest address, got ", address),
        }
    }
}

/// The words for a text that is not hexadecimal name the character in quotes
/// and its place.
pub proof fn law_hex_error_words(c: char, index: usize)
    ensures
        hex_error_text(HexError::InvalidHexCharacter { c, index }) == "Invalid character "@
            + char_debug(c) + " at position "@ + decimal(index as nat),
        hex_error_text(HexError::OddLength) == "Odd number of digits"@,
        hex_error_text(HexError::InvalidStringLength) == "Invalid string length"@,
        failure_text(Failure::PastActivation)
            == "mined past activation before the nodes were up"@,
{
}

/// The words for a failed call end in the error, and name the call and the block
/// that it was about.
pub proof fn law_call_words(height: u64, error: Seq<char>)
    ensures
        failure_text(Failure::Call(error)) == error,
        failure_text(Failure::ChainInfo(error)) == "getblockchaininfo failed: "@ + error,
        failure_text(Failure::BlockHash { height, error }) == "getblockhash("@ + decimal(
            height as nat,
        ) + ") failed: "@ + error,
        failure_text(Failure::HeaderInfo { height, error }) == "getblockheader("@ + decimal(
            height as nat,
        ) + ") failed: "@ + error,
        failure_text(Failure::RawHeader { height, error }) == "getblockheader("@ + decimal(
            height as nat,
        ) + ", false) failed: "@ + error,
        failure_text(Failure::LevelZeroHeader(error)) == "getblockheader failed: "@ + error,
{
}

/// The words for a header name the block, what was found and what was expected.
pub proof fn law_header_words(
    height: u64,
    found: u64,
    wanted: u64,
    version: u32,
    error: HexError,
)
    ensures
        failure_text(Failure::NoHeaderVersion) == "no headerv in the result"@,
        failure_text(Failure::HeaderNotText) == "header not a string"@,
        failure_text(Failure::BadHex(error)) == hex_error_text(error),
        failure_text(Failure::WrongHeaderVersion { height, headerv: found, want: wanted })
            == "height "@ + decimal(height as nat) + ": headerv is "@ + decimal(found as nat)
            + ", expected "@ + decimal(wanted as nat),
        failure_text(Failure::WrongHeaderLength { height, length: found, want_length: wanted })
            == "height "@ + decimal(height as nat) + ": header is "@ + decimal(found as nat)
            + " bytes, expected "@ + decimal(wanted as nat),
        failure_text(Failure::WrongVersionBit { height, version, headerv: found }) == "height "@
            + decimal(height as nat) + ": nVersion is 0x"@ + hex_digits(version as nat, 8)
            + ", which disagrees with headerv "@ + decimal(found as nat),
        failure_text(Failure::LevelZeroLength { height, length: found }) == "block "@ + decimal(
            height as nat,
        ) + ": expected an 80-byte v1 header, got "@ + decimal(found as nat) + " bytes"@,
        failure_text(Failure::LevelZeroBit { height, version }) == "block "@ + decimal(
            height as nat,
        ) + ": bit 31 of nVersion is set (0x"@ + hex_digits(version as nat, 8)
            + ") — this is a v2 header"@,
{
}

/// The words for a height, a channel, a wait or an address name what was found,
/// and what it was held against.
pub proof fn law_judgement_words(found: u64, wanted: u64, text: Seq<char>, other: Seq<char>)
    ensures
        failure_text(Failure::BlocksMissing) == "blocks missing"@,
        failure_text(Failure::WrongStartHeight(found)) == "expected height 110, got "@ + decimal(
            found as nat,
        ),
        failure_text(Failure::ConfirmedTooLate(found)) == "channel confirmed at "@ + decimal(
            found as nat,
        ) + ", at or past activation — nothing left to cross"@,
        failure_text(Failure::WrongHeight { want: wanted, got: found }) == "expected "@ + decimal(
            wanted as nat,
        ) + ", got "@ + decimal(found as nat),
        failure_text(Failure::WrongTip { want: wanted, got: found }) == "expected tip "@ + decimal(
            wanted as nat,
        ) + ", got "@ + decimal(found as nat),
        failure_text(Failure::SharedNodeId) == "alice and bob share a node_id"@,
        failure_text(Failure::NoFundingTxid) == "channel has no funding_txid"@,
        failure_text(Failure::NoChannel(text)) == "no channel with "@ + text,
        failure_text(Failure::NoConfirmations)
            == "channel has no confirmations — is the node build current?"@,
        failure_text(Failure::Unconfirmed) == "channel funding is unconfirmed"@,
        failure_text(Failure::NoSteadySample)
            == "could not sample height and confirmations together"@,
        failure_text(Failure::TxidChanged { before: text, after: other })
            == "funding txid changed across activation: "@ + text + " -> "@ + other,
        failure_text(Failure::NotActive(text)) == "channel is "@ + text
            + " after activation, expected active"@,
        failure_text(Failure::FundingMoved { was: wanted, now: found })
            == "the node stopped counting from the same block across activation: funding was in block "@
            + decimal(wanted as nat) + ", now its confirmations imply "@ + decimal(found as nat),
        failure_text(Failure::NothingConfirmed)
            == "channel reports no confirmations after activation"@,
        failure_text(Failure::FundedBelowActivation { block: found, activation: wanted })
            == "carol's funding is in block "@ + decimal(found as nat)
            + ", below activation at "@ + decimal(wanted as nat)
            + " — this channel did not open under v2 headers"@,
        failure_text(Failure::TimedOut(text)) == "timed out waiting for "@ + text,
        failure_text(Failure::NotRegtest(text)) == "expected a regtest address, got "@ + text,
{
}

/// The view of a failure keeps its kind, its numbers and its texts.
pub proof fn law_failure_view(
    text: String,
    other: String,
    first: u64,
    second: u64,
    third: u64,
    version: u32,
    error: HexError,
)
    ensures
        Failure::Call(text)@ == Failure::Call(text@),
        Failure::ChainInfo(text)@ == Failure::ChainInfo(text@),
        (Failure::BlockHash { height: first, error: text })@ == (Failure::BlockHash {
            height: first,
            error: text@,
        }),
        (Failure::HeaderInfo { height: first, error: text })@ == (Failure::HeaderInfo {
            height: first,
            error: text@,
        }),
        (Failure::RawHeader { height: first, error: text })@ == (Failure::RawHeader {
            height: first,
            error: text@,
        }),
        Failure::LevelZeroHeader(text)@ == Failure::LevelZeroHeader(text@),
        Failure::<String>::BlocksMissing@ == Failure::<Seq<char>>::BlocksMissing,
        Failure::<String>::NoHeaderVersion@ == Failure::<Seq<char>>::NoHeaderVersion,
        Failure::<String>::HeaderNotText@ == Failure::<Seq<char>>::HeaderNotText,
        Failure::<String>::BadHex(error)@ == Failure::<Seq<char>>::BadHex(error),
        (Failure::<String>::WrongHeaderVersion { height: first, headerv: second, want: third })@
            == (Failure::<Seq<char>>::WrongHeaderVersion {
            height: first,
            headerv: second,
            want: third,
        }),
        (Failure::<String>::WrongHeaderLength {
            height: first,
            length: second,
            want_length: third,
        })@ == (Failure::<Seq<char>>::WrongHeaderLength {
            height: first,
            length: second,
            want_length: third,
        }),
        (Failure::<String>::WrongVersionBit { height: first, version, headerv: second })@ == (
        Failure::<Seq<char>>::WrongVersionBit { height: first, version, headerv: second }),
        (Failure::<String>::LevelZeroLength { height: first, length: second })@ == (Failure::<
            Seq<char>,
        >::LevelZeroLength { height: first, length: second }),
        (Failure::<String>::LevelZeroBit { height: first, version })@ == (Failure::<
            Seq<char>,
        >::LevelZeroBit { height: first, version }),
        Failure::<String>::WrongStartHeight(first)@ == Failure::<Seq<char>>::WrongStartHeight(
            first,
        ),
        Failure::<String>::PastActivation@ == Failure::<Seq<char>>::PastActivation,
        Failure::<String>::SharedNodeId@ == Failure::<Seq<char>>::SharedNodeId,
        Failure::<String>::NoFundingTxid@ == Failure::<Seq<char>>::NoFundingTxid,
        Failure::NoChannel(text)@ == Failure::NoChannel(text@),
        Failure::<String>::NoConfirmations@ == Failure::<Seq<char>>::NoConfirmations,
        Failure::<String>::Unconfirmed@ == Failure::<Seq<char>>::Unconfirmed,
        Failure::<String>::NoSteadySample@ == Failure::<Seq<char>>::NoSteadySample,
        Failure::<String>::ConfirmedTooLate(first)@ == Failure::<Seq<char>>::ConfirmedTooLate(
            first,
        ),
        (Failure::<String>::WrongHeight { want: first, got: second })@ == (Failure::<
            Seq<char>,
        >::WrongHeight { want: first, got: second }),
        (Failure::<String>::WrongTip { want: first, got: second })@ == (Failure::<
            Seq<char>,
        >::WrongTip { want: first, got: second }),
        (Failure::TxidChanged { before: text, after: other })@ == (Failure::TxidChanged {
            before: text@,
            after: other@,
        }),
        Failure::NotActive(text)@ == Failure::NotActive(text@),
        (Failure::<String>::FundingMoved { was: first, now: second })@ == (Failure::<
            Seq<char>,
        >::FundingMoved { was: first, now: second }),
        Failure::<String>::NothingConfirmed@ == Failure::<Seq<char>>::NothingConfirmed,
        (Failure::<String>::FundedBelowActivation { block: first, activation: second })@ == (
        Failure::<Seq<char>>::FundedBelowActivation { block: first, activation: second }),
        Failure::TimedOut(text)@ == Failure::TimedOut(text@),
        Failure::NotRegtest(text)@ == Failure::NotRegtest(text@),
{
}

} // verus!
