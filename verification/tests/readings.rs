use dln_node_knots_e2e::channel::{channel_with, read_channel, read_channels};
use dln_node_knots_e2e::failure::{hex_error_message, Failure};
use dln_node_knots_e2e::funding::funding_block;
use dln_node_knots_e2e::header::{
    bit_31, check_header, check_headerv, check_level_zero, check_level_zero_raw, check_raw,
    read_version, V1, V2,
};
use dln_node_knots_e2e::hexadecimal::HexError;
use dln_node_knots_e2e::json::{read_blocks, read_header_text, read_headerv};
use dln_node_knots_e2e::plan::{
    ACTIVATION_HEIGHT, BLOCKS_PAST_ACTIVATION, LAST_V1_HEIGHT, TIP_PAST_ACTIVATION,
};
use dln_node_knots_e2e::text::{append_decimal, append_hex_digits, starts_with};

fn value(text: &str) -> serde_json::Value {
    serde_json::from_str(text).unwrap()
}

fn message<T>(result: Result<T, Failure<String>>) -> String {
    match result {
        Ok(_) => "fine".to_string(),
        Err(failure) => failure.message(),
    }
}

#[test]
fn numbers_are_written_out() {
    for n in [0u64, 7, 10, 109, 9_999, 100_000, u64::MAX] {
        let mut out = "n=".to_string();
        append_decimal(&mut out, n);
        assert_eq!(out, format!("n={}", n));
    }
    for n in [0u32, 1, 0x2000_0001, 0x8000_0000, 0xdead_beef, u32::MAX] {
        let mut out = String::new();
        append_hex_digits(&mut out, n as u64, 8);
        assert_eq!(out, format!("{:08x}", n));
    }
}

#[test]
fn prefixes() {
    assert!(starts_with(&"bcrt1q".to_string(), "bcrt1"));
    assert!(starts_with(&"bcrt1".to_string(), "bcrt1"));
    assert!(!starts_with(&"bcrt".to_string(), "bcrt1"));
    assert!(!starts_with(&"tb1qbcrt1".to_string(), "bcrt1"));
    assert!(starts_with(&"".to_string(), ""));
}

#[test]
fn chain_height_is_the_block_count() {
    assert_eq!(read_blocks(&value("{\"blocks\": 110, \"headers\": 111}")), Some(110));
    assert_eq!(read_blocks(&value("{\"headers\": 111}")), None);
    assert_eq!(read_blocks(&value("{\"blocks\": \"110\"}")), None);
    assert_eq!(read_blocks(&value("{\"blocks\": -1}")), None);
    assert_eq!(read_blocks(&value("{\"blocks\": 1.5}")), None);
    assert_eq!(read_blocks(&value("[110]")), None);
    assert_eq!(read_blocks(&value("null")), None);
}

#[test]
fn header_replies_are_read() {
    assert_eq!(read_headerv(&value("{\"headerv\": 2}")), Some(2));
    assert_eq!(read_headerv(&value("{\"version\": 2}")), None);
    assert_eq!(read_header_text(&value("\"00ff\"")), Some("00ff".to_string()));
    assert_eq!(read_header_text(&value("{\"hex\": \"00ff\"}")), None);
}

#[test]
fn channels_are_read() {
    let entry = value(
        "{\"peer_pubkey\": \"03bob\", \"funding_txid\": \"f00d\", \"state\": \"active\", \
         \"confirmations\": 3}",
    );
    let channel = read_channel(&entry);
    assert_eq!(channel.peer_pubkey, Some("03bob".to_string()));
    assert_eq!(channel.funding_txid, Some("f00d".to_string()));
    assert_eq!(channel.funding_txid_shown, "\"f00d\"");
    assert_eq!(channel.state, Some("active".to_string()));
    assert_eq!(channel.state_shown, "String(\"active\")");
    assert_eq!(channel.confirmations, Some(3));

    let channel = read_channel(&value("{\"state\": 4, \"confirmations\": null}"));
    assert_eq!(channel.peer_pubkey, None);
    assert_eq!(channel.funding_txid, None);
    assert_eq!(channel.funding_txid_shown, "null");
    assert_eq!(channel.state, None);
    assert_eq!(channel.state_shown, "Number(4)");
    assert_eq!(channel.confirmations, None);
}

#[test]
fn the_first_channel_with_a_peer_is_found() {
    let entries = vec![
        value("{\"confirmations\": 1}"),
        value("{\"peer_pubkey\": \"02carol\", \"confirmations\": 2}"),
        value("{\"peer_pubkey\": \"03bob\", \"confirmations\": 3}"),
        value("{\"peer_pubkey\": \"03bob\", \"confirmations\": 4}"),
    ];
    let channels = read_channels(&entries);
    assert_eq!(channels.len(), 4);
    let found = channel_with(&channels, &"03bob".to_string()).unwrap();
    assert_eq!(found.confirmations, Some(3));
    let found = channel_with(&channels, &"02carol".to_string()).unwrap();
    assert_eq!(found.confirmations, Some(2));
    assert_eq!(
        message(channel_with(&channels, &"02dave".to_string())),
        "no channel with 02dave"
    );
}

#[test]
fn versions_are_little_endian() {
    assert_eq!(read_version(&vec![0x78, 0x56, 0x34, 0x12, 0xff]), 0x1234_5678);
    assert_eq!(read_version(&vec![0xff, 0xff, 0xff, 0xff]), u32::MAX);
    assert!(bit_31(0x8000_0000));
    assert!(bit_31(u32::MAX));
    assert!(!bit_31(0x7fff_ffff));
    assert!(!bit_31(0));
}

fn raw(length: usize, top: u8) -> Vec<u8> {
    let mut bytes = vec![0u8; length];
    bytes[3] = top;
    bytes
}

#[test]
fn no_bytes_are_both_formats() {
    for length in [80, 164] {
        for top in [0x00, 0x7f, 0x80, 0xa0] {
            let bytes = raw(length, top);
            let v1 = check_raw(5, V1, &bytes, V1).is_ok();
            let v2 = check_raw(5, V2, &bytes, V2).is_ok();
            assert_eq!(v1, length == 80 && top < 0x80);
            assert_eq!(v2, length == 164 && top >= 0x80);
            assert_eq!(check_level_zero_raw(5, &bytes).is_ok(), v1);
        }
    }
}

#[test]
fn header_bytes_are_checked() {
    assert_eq!(
        message(check_raw(149, V1, &raw(164, 0), V1)),
        "height 149: header is 164 bytes, expected 80"
    );
    assert_eq!(
        message(check_raw(149, V1, &raw(80, 0x80), V1)),
        "height 149: nVersion is 0x80000000, which disagrees with headerv 1"
    );
    assert_eq!(
        message(check_raw(0, V2, &Vec::new(), V2)),
        "height 0: header is 0 bytes, expected 164"
    );
    assert_eq!(
        message(check_level_zero_raw(1, &raw(80, 0xff))),
        "block 1: bit 31 of nVersion is set (0xff000000) — this is a v2 header"
    );
}

#[test]
fn reported_formats_are_checked() {
    assert_eq!(check_headerv(3, Some(1), V1).ok(), Some(1));
    assert_eq!(message(check_headerv(3, None, V1)), "no headerv in the result");
    assert_eq!(
        message(check_headerv(3, Some(2), V1)),
        "height 3: headerv is 2, expected 1"
    );
}

#[test]
fn serialized_headers_are_decoded_and_checked() {
    let v1 = Some("00".repeat(80));
    let v2 = Some(format!("000000Ff{}", "aB".repeat(160)));
    assert_eq!(message(check_header(9, V1, &v1, V1)), "fine");
    assert_eq!(message(check_header(9, V2, &v2, V2)), "fine");
    assert_eq!(message(check_level_zero(9, &v1)), "fine");
    assert_eq!(
        message(check_header(9, V2, &v1, V2)),
        "height 9: header is 80 bytes, expected 164"
    );
    assert_eq!(
        message(check_level_zero(9, &v2)),
        "block 9: expected an 80-byte v1 header, got 164 bytes"
    );
    assert_eq!(message(check_header(9, V1, &None, V1)), "header not a string");
    assert_eq!(
        message(check_header(9, V1, &Some("00g0".to_string()), V1)),
        "Invalid character 'g' at position 2"
    );
    assert_eq!(
        message(check_header(9, V1, &Some("0\n".to_string()), V1)),
        "Invalid character '\\n' at position 1"
    );
    assert_eq!(
        message(check_level_zero(9, &Some("0é0".to_string()))),
        "Invalid character 'Ã' at position 1"
    );
    assert_eq!(
        message(check_header(9, V1, &Some("zzz".to_string()), V1)),
        "Odd number of digits"
    );
    assert_eq!(hex_error_message(HexError::InvalidStringLength), "Invalid string length");
}

#[test]
fn funding_block_ignores_lag() {
    for height in 111..160u64 {
        assert_eq!(funding_block(height, Some(height - 111 + 1)).ok(), Some(111));
    }
    assert_eq!(funding_block(10, Some(10)).ok(), Some(1));
    assert_eq!(funding_block(10, Some(1)).ok(), Some(10));
}

#[test]
fn a_restarted_count_gives_another_block() {
    let before = funding_block(149, Some(39)).ok();
    assert_eq!(before, Some(111));
    assert_eq!(funding_block(155, Some(45)).ok(), before);
    assert_ne!(funding_block(155, Some(6)).ok(), before);
    assert_ne!(funding_block(155, Some(44)).ok(), before);
}

#[test]
fn a_sample_without_a_count_gives_no_block() {
    assert_eq!(
        message(funding_block(155, None)),
        "channel has no confirmations — is the node build current?"
    );
    assert_eq!(message(funding_block(155, Some(0))), "channel funding is unconfirmed");
}

#[test]
fn the_heights_of_the_plan_fit() {
    assert_eq!(LAST_V1_HEIGHT + 1, ACTIVATION_HEIGHT);
    assert_eq!(ACTIVATION_HEIGHT + BLOCKS_PAST_ACTIVATION, TIP_PAST_ACTIVATION);
}

#[test]
fn an_early_activation_has_words_too() {
    let failure: Failure<String> = Failure::PastActivation;
    assert_eq!(failure.message(), "mined past activation before the nodes were up");
}
