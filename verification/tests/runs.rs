use dln_node_knots_e2e::channel::Channel;
use dln_node_knots_e2e::failure::Failure;
use dln_node_knots_e2e::plan::{
    Context, Scenario, Who, ACTIVATION_HEIGHT, CHANNEL_SATS, PAYMENT_MSAT, PUSH_MSAT,
};
use dln_node_knots_e2e::protocol::{Action, Event, Reply, Request};
use dln_node_knots_e2e::state::{Fault, Run, Status, Verdict};

/// A chain, its nodes and a clock, all well behaved.
struct World {
    activation: Option<u64>,
    height: u64,
    balance: u64,
    secs: u64,
    alice_funding: Option<u64>,
    carol_funding: Option<u64>,
    log: Vec<String>,
}

impl World {
    fn new() -> World {
        World {
            activation: None,
            height: 0,
            balance: 7,
            secs: 0,
            alice_funding: None,
            carol_funding: None,
            log: Vec::new(),
        }
    }

    fn id(node: &Who) -> String {
        match node {
            Who::Alice => "02alice".to_string(),
            Who::Bob => "03bob".to_string(),
            Who::Carol => "02carol".to_string(),
        }
    }

    fn is_v2(&self, height: u64) -> bool {
        match self.activation {
            Some(activation) => height >= activation,
            None => false,
        }
    }

    fn channel(&self, node: &Who) -> Channel<String> {
        let funding = match node {
            Who::Carol => self.carol_funding,
            _ => self.alice_funding,
        };
        Channel {
            peer_pubkey: Some("03bob".to_string()),
            funding_txid: Some("f00d".to_string()),
            funding_txid_shown: "\"f00d\"".to_string(),
            state: Some("active".to_string()),
            state_shown: "String(\"active\")".to_string(),
            confirmations: funding.map(|block| self.height - block + 1),
        }
    }

    fn answer(&mut self, action: &Request<'_>) -> Reply {
        self.log.push(format!("{:?}", action));
        match action {
            Action::ProbeBinary => Event::BinaryKnown(false),
            Action::BuildNode { .. } => Event::Done,
            Action::StartChain { activation } => {
                self.activation = *activation;
                Event::Done
            }
            Action::Mine { blocks } => {
                self.height += *blocks;
                Event::Done
            }
            Action::ReadChainInfo => Event::Blocks(Some(self.height)),
            Action::StartRelay => Event::Done,
            Action::StartNode { node } => Event::NodeUp(World::id(node)),
            Action::OpenChannel { from, peer, sats, push_msat } => {
                assert_eq!(*peer, "03bob");
                assert_eq!(*sats, CHANNEL_SATS);
                assert_eq!(*push_msat, PUSH_MSAT);
                match from {
                    Who::Carol => self.carol_funding = Some(self.height + 1),
                    _ => self.alice_funding = Some(self.height + 1),
                }
                Event::Done
            }
            Action::AskReady { .. } => Event::Ready(true),
            Action::ListChannels { node } => Event::Channels(vec![self.channel(node)]),
            Action::ReadNodeHeight { .. } => Event::NodeHeight(self.height),
            Action::ReadBlockHash { height } => {
                Event::BlockHash(serde_json::Value::from(*height))
            }
            Action::ReadHeaderInfo { hash } => {
                let v2 = self.is_v2(hash.as_u64().unwrap());
                Event::HeaderVersion(Some(if v2 { 2 } else { 1 }))
            }
            Action::ReadRawHeader { hash } => {
                let v2 = self.is_v2(hash.as_u64().unwrap());
                Event::HeaderText(Some(if v2 { v2_header() } else { v1_header() }))
            }
            Action::ReadBalance { .. } => Event::Balance(self.balance),
            Action::MakeInvoice { node, msat, .. } => {
                assert_eq!(*node, Who::Bob);
                assert_eq!(*msat, PAYMENT_MSAT);
                Event::Invoice("lnbcrt1".to_string())
            }
            Action::PayInvoice { invoice, .. } => {
                assert_eq!(*invoice, "lnbcrt1");
                self.balance += PAYMENT_MSAT;
                Event::Done
            }
            Action::NewAddress { .. } => Event::Address("bcrt1qxyz".to_string()),
            Action::StartTimer => {
                self.secs = 0;
                Event::Done
            }
            Action::ReadTimer => Event::Elapsed(self.secs),
            Action::Pause { secs } => {
                self.secs += *secs;
                Event::Done
            }
        }
    }
}

fn v1_header() -> String {
    format!("01000020{}", "00".repeat(76))
}

fn v2_header() -> String {
    format!("010000A0{}", "00".repeat(160))
}

/// Runs a scenario in a world, with some of the replies replaced: `odd` is asked
/// first, and told the step that the run is at.
fn drive<F>(scenario: Scenario, world: &mut World, mut odd: F) -> Run<String>
where
    F: FnMut(usize, &Request<'_>, &mut World) -> Option<Reply>,
{
    let mut run = Run::start(scenario);
    loop {
        let reply = match run.action() {
            None => return run,
            Some(action) => match odd(run.pc, &action, world) {
                Some(reply) => reply,
                None => world.answer(&action),
            },
        };
        assert!(run.takes(&reply));
        run = run.step(reply);
    }
}

fn plain(scenario: Scenario) -> (Run<String>, World) {
    let mut world = World::new();
    let run = drive(scenario, &mut world, |_, _, _| None);
    (run, world)
}

/// The failure of a run in which the replies at one step are replaced.
fn failing<F>(scenario: Scenario, pc: usize, mut odd: F) -> Fault<String>
where
    F: FnMut(&Request<'_>, &mut World) -> Option<Reply>,
{
    let mut world = World::new();
    let run = drive(scenario, &mut world, |at, action, world| {
        if at == pc {
            odd(action, world)
        } else {
            None
        }
    });
    assert_eq!(run.pc, pc);
    assert_eq!(run.verdict(), Some(Verdict::Fail));
    match run.status {
        Status::Failed(fault) => fault,
        _ => panic!("not failed"),
    }
}

fn says<F>(scenario: Scenario, pc: usize, odd: F, message: &str)
where
    F: FnMut(&Request<'_>, &mut World) -> Option<Reply>,
{
    let fault = failing(scenario, pc, odd);
    assert_eq!(fault.message(), message);
    assert_eq!(fault.context, None);
}

fn with_channel<F>(change: F) -> impl FnMut(&Request<'_>, &mut World) -> Option<Reply>
where
    F: Fn(&mut Channel<String>),
{
    move |action, world| match action {
        Action::ListChannels { node } => {
            let mut channel = world.channel(node);
            change(&mut channel);
            Some(Event::Channels(vec![channel]))
        }
        _ => None,
    }
}

#[test]
fn activation_passes() {
    let (run, world) = plain(Scenario::Activation);
    assert!(matches!(run.status, Status::Passed));
    assert_eq!(run.verdict(), Some(Verdict::Pass));
    assert_eq!(run.pc, 40);
    assert_eq!(run.notes.height_before, 111);
    assert_eq!(run.notes.funding_before, 111);
    assert_eq!(run.notes.funding_txid, "f00d");
    assert_eq!(run.notes.tip, 157);
    assert_eq!(run.notes.v2_funding, 158);
    assert_eq!(world.height, 158);
    assert_eq!(world.balance, 7 + 2 * PAYMENT_MSAT);
}

#[test]
fn activation_asks_in_order() {
    let (_, world) = plain(Scenario::Activation);
    assert_eq!(world.log[0], "ProbeBinary");
    assert_eq!(world.log[1], "BuildNode { blake2b: true }");
    assert_eq!(world.log[2], "StartChain { activation: Some(150) }");
    assert_eq!(world.log[3], "Mine { blocks: 110 }");
    assert!(world.log.contains(&"Mine { blocks: 38 }".to_string()));
    assert!(world.log.contains(&"Mine { blocks: 6 }".to_string()));
    assert!(world.log.contains(&"AskReady { node: Bob, peer: \"02carol\" }".to_string()));
    assert!(world.log.contains(
        &"MakeInvoice { node: Bob, msat: 100000, description: \"activation e2e\" }".to_string()
    ));
    let late = "MakeInvoice { node: Bob, msat: 100000, \
                description: \"activation e2e, v2-only channel\" }";
    assert!(world.log.contains(&late.to_string()));
    let heights: Vec<&String> =
        world.log.iter().filter(|line| line.starts_with("ReadBlockHash")).collect();
    assert_eq!(
        heights,
        vec![
            "ReadBlockHash { height: 149 }",
            "ReadBlockHash { height: 111 }",
            "ReadBlockHash { height: 149 }",
            "ReadBlockHash { height: 150 }",
            "ReadBlockHash { height: 155 }",
            "ReadBlockHash { height: 158 }",
        ]
    );
}

/// Where a line stands in a log, from some place on.
fn place(log: &[String], from: usize, line: &str) -> usize {
    match log.iter().skip(from).position(|l| l == line) {
        Some(i) => from + i,
        None => panic!("no {line} from {from} on"),
    }
}

#[test]
fn the_channel_opens_under_v1_and_crosses() {
    let (_, world) = plain(Scenario::Activation);
    let lines = [
        "OpenChannel { from: Alice, peer: \"03bob\", sats: 2000000, push_msat: 500000 }",
        "AskReady { node: Alice, peer: \"03bob\" }",
        "AskReady { node: Bob, peer: \"02alice\" }",
        "ListChannels { node: Alice }",
        "ReadChainInfo",
        "ReadBlockHash { height: 111 }",
        "ReadBlockHash { height: 149 }",
        "ReadBlockHash { height: 150 }",
        "ReadBlockHash { height: 155 }",
        "ReadNodeHeight { node: Alice }",
        "ReadNodeHeight { node: Bob }",
        "ListChannels { node: Alice }",
        "ReadBalance { node: Bob }",
    ];
    let mut at = 0;
    for line in lines {
        at = place(&world.log, at, line) + 1;
    }
    assert_eq!(place(&world.log, 0, "ReadBalance { node: Bob }"), at - 1);
}

#[test]
fn payments_settle_on_the_far_side() {
    let (_, world) = plain(Scenario::Activation);
    let lines = [
        "ReadBlockHash { height: 150 }",
        "ReadBalance { node: Bob }",
        "PayInvoice { node: Alice, invoice: \"lnbcrt1\" }",
        "ReadBalance { node: Bob }",
        "OpenChannel { from: Carol, peer: \"03bob\", sats: 2000000, push_msat: 500000 }",
        "AskReady { node: Carol, peer: \"03bob\" }",
        "AskReady { node: Bob, peer: \"02carol\" }",
        "ReadBlockHash { height: 158 }",
        "ReadBalance { node: Bob }",
        "PayInvoice { node: Carol, invoice: \"lnbcrt1\" }",
        "ReadBalance { node: Bob }",
    ];
    let mut at = 0;
    for line in lines {
        at = place(&world.log, at, line) + 1;
    }
    assert_eq!(at, world.log.len());
}

#[test]
fn a_given_binary_is_not_built() {
    let mut world = World::new();
    let run = drive(Scenario::Activation, &mut world, |_, action, _| match action {
        Action::ProbeBinary => Some(Event::BinaryKnown(true)),
        _ => None,
    });
    assert_eq!(run.verdict(), Some(Verdict::Pass));
    assert_eq!(world.log[0], "StartChain { activation: Some(150) }");
}

#[test]
fn a_given_and_a_built_binary_lead_the_same_way() {
    for scenario in [Scenario::Activation, Scenario::KnotsBackend] {
        let given = Run::start(scenario).step(Event::BinaryKnown(true));
        let built = Run::start(scenario).step(Event::BinaryKnown(false)).step(Event::Done);
        assert_eq!(format!("{:?}", given), format!("{:?}", built));
    }
}

#[test]
fn knots_backend_passes() {
    let (run, world) = plain(Scenario::KnotsBackend);
    assert_eq!(run.verdict(), Some(Verdict::Pass));
    assert_eq!(run.pc, 10);
    assert_eq!(
        world.log,
        vec![
            "ProbeBinary",
            "BuildNode { blake2b: false }",
            "StartChain { activation: None }",
            "Mine { blocks: 110 }",
            "ReadChainInfo",
            "ReadBlockHash { height: 0 }",
            "ReadRawHeader { hash: Number(0) }",
            "ReadBlockHash { height: 1 }",
            "ReadRawHeader { hash: Number(1) }",
            "ReadBlockHash { height: 110 }",
            "ReadRawHeader { hash: Number(110) }",
            "StartRelay",
            "StartNode { node: Alice }",
            "NewAddress { node: Alice }",
        ]
    );
}

#[test]
fn verdicts_print_and_exit() {
    assert_eq!(Verdict::Pass.banner(), "=== PASS ===");
    assert_eq!(Verdict::Pass.exit_status(), 0);
    assert_eq!(Verdict::Fail.banner(), "=== FAIL ===");
    assert_eq!(Verdict::Fail.exit_status(), 1);
    assert_eq!(Run::start(Scenario::Activation).verdict(), None);
}

#[test]
fn a_run_takes_only_replies() {
    let run = Run::start(Scenario::Activation);
    assert!(run.takes(&Event::BinaryKnown(true)));
    assert!(!run.takes(&Event::Done));
    assert!(!run.takes(&Event::Failed("no".to_string())));
    let run = run.step(Event::BinaryKnown(false));
    assert!(run.takes(&Event::Done));
    assert!(run.takes(&Event::Failed("no".to_string())));
    let run = run.step(Event::Failed("no compiler".to_string()));
    assert!(run.action().is_none());
    assert!(!run.takes(&Event::Done));
    match run.status {
        Status::Failed(fault) => assert_eq!(fault.message(), "no compiler"),
        _ => panic!("not failed"),
    }
}

#[test]
fn chain_info_failures() {
    let odd = |_: &Request<'_>, _: &mut World| Some(Event::Failed("refused".to_string()));
    says(Scenario::Activation, 3, odd, "getblockchaininfo failed: refused");
    says(Scenario::KnotsBackend, 3, odd, "getblockchaininfo failed: refused");
    let odd = |_: &Request<'_>, _: &mut World| Some(Event::Blocks(None));
    says(Scenario::Activation, 11, odd, "blocks missing");
}

#[test]
fn heights_are_judged() {
    let blocks = |n: u64| move |_: &Request<'_>, _: &mut World| Some(Event::Blocks(Some(n)));
    says(Scenario::Activation, 3, blocks(109), "expected height 110, got 109");
    says(Scenario::KnotsBackend, 3, blocks(111), "expected height 110, got 111");
    says(
        Scenario::Activation,
        11,
        blocks(150),
        "channel confirmed at 150, at or past activation — nothing left to cross",
    );
    says(Scenario::Activation, 13, blocks(148), "expected 149, got 148");
    says(Scenario::Activation, 17, blocks(154), "expected tip 155, got 154");
}

#[test]
fn headers_are_judged() {
    let odd = |action: &Request<'_>, _: &mut World| match action {
        Action::ReadBlockHash { .. } => Some(Event::Failed("gone".to_string())),
        _ => None,
    };
    says(Scenario::Activation, 19, odd, "getblockhash(150) failed: gone");
    says(Scenario::KnotsBackend, 5, odd, "getblockhash(1) failed: gone");
    let odd = |action: &Request<'_>, _: &mut World| match action {
        Action::ReadHeaderInfo { .. } => Some(Event::Failed("gone".to_string())),
        _ => None,
    };
    says(Scenario::Activation, 19, odd, "getblockheader(150) failed: gone");
    let odd = |action: &Request<'_>, _: &mut World| match action {
        Action::ReadRawHeader { .. } => Some(Event::Failed("gone".to_string())),
        _ => None,
    };
    says(Scenario::Activation, 19, odd, "getblockheader(150, false) failed: gone");
    says(Scenario::KnotsBackend, 5, odd, "getblockheader failed: gone");
    let odd = |action: &Request<'_>, _: &mut World| match action {
        Action::ReadHeaderInfo { .. } => Some(Event::HeaderVersion(None)),
        _ => None,
    };
    says(Scenario::Activation, 19, odd, "no headerv in the result");
    let odd = |action: &Request<'_>, _: &mut World| match action {
        Action::ReadHeaderInfo { .. } => Some(Event::HeaderVersion(Some(1))),
        _ => None,
    };
    says(Scenario::Activation, 19, odd, "height 150: headerv is 1, expected 2");
    let text = |text: Option<String>| {
        move |action: &Request<'_>, _: &mut World| match action {
            Action::ReadRawHeader { .. } => Some(Event::HeaderText(text.clone())),
            _ => None,
        }
    };
    says(Scenario::Activation, 19, text(None), "header not a string");
    says(Scenario::KnotsBackend, 6, text(None), "header not a string");
    says(
        Scenario::Activation,
        19,
        text(Some(v1_header())),
        "height 150: header is 80 bytes, expected 164",
    );
    says(
        Scenario::Activation,
        19,
        text(Some(v2_header().replace("A0", "20"))),
        "height 150: nVersion is 0x20000001, which disagrees with headerv 2",
    );
    says(
        Scenario::KnotsBackend,
        6,
        text(Some(v2_header())),
        "block 110: expected an 80-byte v1 header, got 164 bytes",
    );
    says(
        Scenario::KnotsBackend,
        6,
        text(Some(v1_header().replacen("20", "80", 1))),
        "block 110: bit 31 of nVersion is set (0x80000001) — this is a v2 header",
    );
    says(Scenario::KnotsBackend, 6, text(Some("abc".to_string())), "Odd number of digits");
}

#[test]
fn a_chain_that_never_activates_does_not_pass() {
    let mut world = World::new();
    let run = drive(Scenario::Activation, &mut world, |_, action, _| match action {
        Action::StartChain { .. } => Some(Event::Done),
        _ => None,
    });
    assert_eq!(run.pc, 19);
    match run.status {
        Status::Failed(fault) => {
            assert_eq!(fault.message(), "height 150: headerv is 1, expected 2")
        }
        _ => panic!("not failed"),
    }
}

#[test]
fn nodes_must_start_and_differ() {
    let odd = |_: &Request<'_>, _: &mut World| Some(Event::Failed("no relay".to_string()));
    for (scenario, pc, context, message) in [
        (Scenario::Activation, 5, Context::StartAlice, "failed to start alice"),
        (Scenario::Activation, 6, Context::StartBob, "failed to start bob"),
        (
            Scenario::Activation,
            30,
            Context::StartCarol,
            "a node could not start against an already-activated chain",
        ),
        (
            Scenario::KnotsBackend,
            8,
            Context::StartLevelZero,
            "node failed to start against Knots",
        ),
        (
            Scenario::KnotsBackend,
            9,
            Context::NewAddress,
            "node could not generate an address",
        ),
        (Scenario::Activation, 7, Context::OpenFromAlice, "open_channel failed"),
        (
            Scenario::Activation,
            32,
            Context::OpenFromCarol,
            "carol could not open a channel on an activated chain",
        ),
        (Scenario::Activation, 25, Context::Invoice, "bob make_invoice failed"),
        (Scenario::Activation, 37, Context::Invoice, "bob make_invoice failed"),
        (Scenario::Activation, 26, Context::PayFromAlice, "alice pay_invoice failed"),
        (Scenario::Activation, 38, Context::PayFromCarol, "carol pay_invoice failed"),
    ] {
        let fault = failing(scenario, pc, odd);
        assert_eq!(fault.context, Some(context));
        assert_eq!(fault.message(), message);
        assert_eq!(fault.failure.message(), "no relay");
        assert!(matches!(fault.failure, Failure::Call(_)));
    }
    let odd = |_: &Request<'_>, _: &mut World| Some(Event::NodeUp("02alice".to_string()));
    says(Scenario::Activation, 6, odd, "alice and bob share a node_id");
}

#[test]
fn addresses_must_be_regtest() {
    let odd = |_: &Request<'_>, _: &mut World| Some(Event::Address("bc1qxyz".to_string()));
    says(Scenario::KnotsBackend, 9, odd, "expected a regtest address, got bc1qxyz");
    let odd = |_: &Request<'_>, _: &mut World| Some(Event::Address("bcr".to_string()));
    says(Scenario::KnotsBackend, 9, odd, "expected a regtest address, got bcr");
}

#[test]
fn the_channel_must_survive() {
    says(
        Scenario::Activation,
        9,
        |_: &Request<'_>, _: &mut World| Some(Event::Channels(Vec::new())),
        "no channel with 03bob",
    );
    says(
        Scenario::Activation,
        9,
        with_channel(|c| c.funding_txid = None),
        "channel has no funding_txid",
    );
    says(
        Scenario::Activation,
        22,
        with_channel(|c| {
            c.funding_txid = Some("beef".to_string());
            c.funding_txid_shown = "\"beef\"".to_string();
        }),
        "funding txid changed across activation: f00d -> \"beef\"",
    );
    says(
        Scenario::Activation,
        22,
        with_channel(|c| {
            c.state = None;
            c.state_shown = "Null".to_string();
        }),
        "channel is Null after activation, expected active",
    );
    says(
        Scenario::Activation,
        23,
        with_channel(|c| c.confirmations = Some(6)),
        "the node stopped counting from the same block across activation: funding was in block \
         111, now its confirmations imply 150",
    );
    says(
        Scenario::Activation,
        10,
        with_channel(|c| c.confirmations = None),
        "channel has no confirmations — is the node build current?",
    );
    says(
        Scenario::Activation,
        10,
        with_channel(|c| c.confirmations = Some(0)),
        "channel funding is unconfirmed",
    );
    says(
        Scenario::Activation,
        34,
        with_channel(|c| c.confirmations = Some(10)),
        "carol's funding is in block 149, below activation at 150 — this channel did not open \
         under v2 headers",
    );
}

#[test]
fn a_channel_without_confirmations_after_the_switch_fails() {
    let mut world = World::new();
    let run = drive(Scenario::Activation, &mut world, |pc, action, world| match action {
        Action::ListChannels { node } if pc == 22 => {
            let mut channel = world.channel(node);
            channel.confirmations = None;
            Some(Event::Channels(vec![channel]))
        }
        _ => None,
    });
    assert_eq!(run.pc, 23);
    match run.status {
        Status::Failed(fault) => {
            assert_eq!(fault.message(), "channel reports no confirmations after activation")
        }
        _ => panic!("not failed"),
    }
}

#[test]
fn a_moving_height_is_sampled_again() {
    let mut reads = 0;
    let mut world = World::new();
    let run = drive(Scenario::Activation, &mut world, |pc, action, world| match action {
        Action::ReadNodeHeight { .. } if pc == 10 => {
            reads += 1;
            if reads == 2 {
                Some(Event::NodeHeight(world.height + 1))
            } else {
                None
            }
        }
        _ => None,
    });
    assert_eq!(run.verdict(), Some(Verdict::Pass));
    assert_eq!(reads, 4);
    assert_eq!(run.notes.funding_before, 111);
}

#[test]
fn sampling_gives_up_after_ten() {
    let mut reads = 0u64;
    let fault = failing(Scenario::Activation, 10, |action, _| match action {
        Action::ReadNodeHeight { .. } => {
            reads += 1;
            Some(Event::NodeHeight(111 + reads))
        }
        _ => None,
    });
    assert_eq!(reads, 20);
    assert_eq!(fault.message(), "could not sample height and confirmations together");
}

#[test]
fn an_impossible_count_is_not_taken() {
    let mut world = World::new();
    let mut run = Run::start(Scenario::Activation);
    while run.pc < 10 {
        let reply = world.answer(&run.action().unwrap());
        run = run.step(reply);
    }
    run = run.step(Event::NodeHeight(5));
    let mut channel = world.channel(&Who::Alice);
    channel.confirmations = Some(6);
    run = run.step(Event::Channels(vec![channel]));
    assert!(!run.takes(&Event::NodeHeight(5)));
    assert!(run.takes(&Event::NodeHeight(6)));
}

#[test]
fn a_wait_polls_until_its_time_is_up() {
    let mut polls = 0;
    let fault = failing(Scenario::Activation, 8, |action, _| match action {
        Action::AskReady { .. } => {
            polls += 1;
            Some(Event::Ready(false))
        }
        _ => None,
    });
    assert_eq!(polls, 181);
    assert_eq!(fault.message(), "timed out waiting for channel ready under v1 headers");
    assert_eq!(fault.context, None);
}

#[test]
fn a_late_yes_still_counts() {
    let mut world = World::new();
    let run = drive(Scenario::Activation, &mut world, |pc, action, world| match action {
        Action::ReadBalance { .. } if pc == 27 && world.secs < 3 => Some(Event::Balance(7)),
        _ => None,
    });
    assert_eq!(run.verdict(), Some(Verdict::Pass));
}

#[test]
fn a_wait_of_a_minute_has_one_round_more() {
    for yes_in in [1, 60, 61, 62] {
        let mut polls = 0;
        let mut world = World::new();
        let run = drive(Scenario::Activation, &mut world, |pc, action, _| match action {
            Action::ReadBalance { .. } if pc == 27 => {
                polls += 1;
                Some(Event::Balance(if polls == yes_in { 8 } else { 7 }))
            }
            _ => None,
        });
        if yes_in <= 61 {
            assert_eq!(polls, yes_in);
            assert_eq!(run.verdict(), Some(Verdict::Pass));
        } else {
            assert_eq!(polls, 61);
            assert_eq!(run.pc, 27);
            assert_eq!(run.verdict(), Some(Verdict::Fail));
        }
    }
}

#[test]
fn a_wait_goes_by_its_clock() {
    let mut polls = 0;
    let fault = failing(Scenario::Activation, 31, |action, _| match action {
        Action::ReadNodeHeight { .. } => {
            polls += 1;
            Some(Event::NodeHeight(156))
        }
        Action::ReadTimer => Some(Event::Elapsed(if polls < 3 { 119 } else { 120 })),
        _ => None,
    });
    assert_eq!(polls, 3);
    assert_eq!(fault.message(), "timed out waiting for carol to reach the tip");
}

#[test]
fn both_ends_must_be_ready() {
    let mut second = 0;
    let mut world = World::new();
    let run = drive(Scenario::Activation, &mut world, |pc, action, _| match action {
        Action::AskReady { node: Who::Bob, peer } if pc == 8 => {
            assert_eq!(*peer, "02alice");
            second += 1;
            Some(Event::Ready(second == 3))
        }
        _ => None,
    });
    assert_eq!(run.verdict(), Some(Verdict::Pass));
    assert_eq!(run.notes.height_before, 113);
    assert_eq!(run.notes.funding_before, 111);
}

#[test]
fn a_stuck_node_fails_the_scenario() {
    let fault = failing(Scenario::Activation, 21, |action, _| match action {
        Action::ReadNodeHeight { node: Who::Bob } => {
            Some(Event::NodeHeight(ACTIVATION_HEIGHT - 1))
        }
        _ => None,
    });
    assert_eq!(fault.context, Some(Context::Follow));
    assert_eq!(fault.message(), "a node stopped following the chain across activation");
    assert_eq!(
        fault.failure.message(),
        "timed out waiting for both nodes at the post-activation tip"
    );
}

#[test]
fn a_node_that_cannot_be_asked_is_reported_as_not_following() {
    let fault = failing(Scenario::Activation, 21, |action, _| match action {
        Action::ReadNodeHeight { .. } => Some(Event::Failed("closed".to_string())),
        _ => None,
    });
    assert_eq!(fault.message(), "a node stopped following the chain across activation");
    assert_eq!(fault.failure.message(), "closed");
}

#[test]
fn other_waits_time_out_under_their_names() {
    let low = |action: &Request<'_>, _: &mut World| match action {
        Action::ReadNodeHeight { .. } => Some(Event::NodeHeight(0)),
        Action::ReadBalance { .. } => Some(Event::Balance(0)),
        Action::AskReady { .. } => Some(Event::Ready(false)),
        _ => None,
    };
    says(Scenario::Activation, 27, low, "timed out waiting for bob's balance to increase");
    says(Scenario::Activation, 31, low, "timed out waiting for carol to reach the tip");
    says(Scenario::Activation, 33, low, "timed out waiting for carol's channel to become ready");
    says(
        Scenario::Activation,
        39,
        low,
        "timed out waiting for bob's balance to increase again",
    );
}

#[test]
fn an_equal_balance_is_no_payment() {
    let fault = failing(Scenario::Activation, 27, |action, _| match action {
        Action::ReadBalance { .. } => Some(Event::Balance(7)),
        _ => None,
    });
    assert_eq!(fault.message(), "timed out waiting for bob's balance to increase");
}

#[test]
fn plain_call_failures_keep_their_words() {
    for pc in [9, 10, 24, 31] {
        let fault = failing(Scenario::Activation, pc, |action, _| match action {
            Action::StartTimer => None,
            _ => Some(Event::Failed("closed".to_string())),
        });
        assert_eq!(fault.message(), "closed");
        assert_eq!(fault.context, None);
    }
}
