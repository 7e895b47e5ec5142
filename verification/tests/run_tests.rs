use ln_multihop::node::Node;
use ln_multihop::requests::{CliRequest, RestRequest};
use ln_multihop::run::{next, shown_line, RunAction, RunEvent, RunState, Stage};

fn reply(text: &str) -> RunEvent {
    RunEvent::Reply(text.as_bytes().to_vec())
}

fn out(text: &str) -> RunEvent {
    RunEvent::CliOutput(text.to_string())
}

fn rest(a: RunAction) -> (Node, RestRequest, bool) {
    match a {
        RunAction::Rest { node, request, may_fail } => (node, request, may_fail),
        other => panic!("expected a REST call, got {:?}", other),
    }
}

fn expect_rest(a: RunAction, node: Node, method: &str) -> RestRequest {
    let (n, r, _) = rest(a);
    assert_eq!(n, node);
    assert_eq!(r.method(), method);
    r
}

fn expect_cli(a: RunAction) -> (Vec<String>, bool) {
    match a {
        RunAction::Cli { command, may_fail } => (command.args(), may_fail),
        other => panic!("expected a bitcoin-cli call, got {:?}", other),
    }
}

fn expect_ln(a: RunAction) -> (Vec<String>, bool) {
    match a {
        RunAction::LightningCli { call, may_fail } => (call.command(), may_fail),
        other => panic!("expected a lightning-cli call, got {:?}", other),
    }
}

fn expect_fail(a: RunAction) -> String {
    match a {
        RunAction::Fail(e) => e.message(),
        other => panic!("expected a failure, got {:?}", other),
    }
}

fn strings(v: &[&str]) -> Vec<String> {
    v.iter().map(|x| x.to_string()).collect()
}

/// Mines one round once the mining address was asked for: generate `blocks`,
/// height `height`, then a sync check that succeeds.
fn mine_round(st: &mut RunState, blocks: &str, height: &str) -> RunAction {
    let (args, _) = expect_cli(next(st, out("bcrt1qminer")));
    assert_eq!(args, strings(&["-rpcwallet=mining_wallet", "generatetoaddress", blocks, "bcrt1qminer"]));
    let (args, _) = expect_cli(next(st, out("[\"blockhash\"]")));
    assert_eq!(args, strings(&["getblockcount"]));
    expect_rest(next(st, out(height)), Node::Alice, "getinfo");
    let h = format!("{{\"blockheight\": {}}}", height);
    expect_rest(next(st, reply(&h)), Node::Bob, "getinfo");
    expect_rest(next(st, reply(&h)), Node::Carol, "getinfo");
    next(st, reply(&h))
}

/// Hands `event` to the run, after checking the line shown for it.
fn shown_then_next(st: &mut RunState, event: RunEvent, line: Option<&str>) -> RunAction {
    assert_eq!(shown_line(st, &event).as_deref(), line);
    next(st, event)
}

fn begin_to_wallets(st: &mut RunState) -> RunAction {
    let (n, r, _) = rest(next(st, RunEvent::Begin));
    assert_eq!((n, r.method()), (Node::Alice, "getinfo"));
    let a = shown_then_next(st, reply("{\"id\": \"02alice\"}"), Some("Alice Node Info: Object {\"id\": String(\"02alice\")}"));
    expect_rest(a, Node::Bob, "getinfo");
    let a = shown_then_next(st, reply("{\"id\": \"02bob\"}"), Some("Bob Node Info: Object {\"id\": String(\"02bob\")}"));
    expect_rest(a, Node::Carol, "getinfo");
    shown_then_next(st, reply("{\"id\": \"03carol\"}"), Some("Carol Node Info: Object {\"id\": String(\"03carol\")}"))
}

#[test]
fn a_whole_run_saves_the_payment_record() {
    let mut st = RunState::new();
    let (args, _) = expect_cli(begin_to_wallets(&mut st));
    assert_eq!(args, strings(&["listwallets"]));
    let (args, may_fail) = expect_cli(next(&mut st, out("[\"other\"]")));
    assert_eq!((args, may_fail), (strings(&["loadwallet", "mining_wallet"]), true));
    let (args, may_fail) = expect_cli(next(&mut st, RunEvent::Failed("not found".to_string())));
    assert_eq!((args, may_fail), (strings(&["createwallet", "mining_wallet"]), false));

    // Initial blocks; the first sync check fails, the second succeeds.
    expect_cli(next(&mut st, out("{}")));
    expect_cli(next(&mut st, out("bcrt1qminer")));
    expect_cli(next(&mut st, out("[]")));
    expect_rest(next(&mut st, out("101")), Node::Alice, "getinfo");
    expect_rest(next(&mut st, reply("{\"blockheight\": 101}")), Node::Bob, "getinfo");
    expect_rest(next(&mut st, reply("{\"blockheight\": 101}")), Node::Carol, "getinfo");
    assert!(matches!(next(&mut st, reply("{\"blockheight\": 100}")), RunAction::Sleep(2)));
    expect_rest(next(&mut st, RunEvent::Slept), Node::Alice, "getinfo");
    expect_rest(next(&mut st, reply("{\"blockheight\": 101}")), Node::Bob, "getinfo");
    expect_rest(next(&mut st, reply("{\"blockheight\": 102}")), Node::Carol, "getinfo");
    expect_rest(next(&mut st, reply("{\"blockheight\": 101}")), Node::Alice, "newaddr");

    // Fund Alice and Bob.
    let (args, _) = expect_cli(next(&mut st, reply("{\"bech32\": \"bcrt1qalice\"}")));
    assert_eq!(args, strings(&["-rpcwallet=mining_wallet", "sendtoaddress", "bcrt1qalice", "0.01000000"]));
    expect_rest(next(&mut st, out("txid1")), Node::Bob, "newaddr");
    let (args, _) = expect_cli(next(&mut st, reply("{\"bech32\": \"bcrt1qbob\"}")));
    assert_eq!(args[2], "bcrt1qbob");
    assert!(matches!(next(&mut st, out("txid2")), RunAction::Cli { command: CliRequest::NewMiningAddress, .. }));
    let a = mine_round(&mut st, "6", "107");
    expect_rest(a, Node::Alice, "listfunds");
    let funded = "{\"outputs\": [{\"status\": \"confirmed\", \"reserved\": false}]}";
    expect_rest(next(&mut st, reply(funded)), Node::Bob, "listfunds");
    let funded_shown = "Object {\"outputs\": Array [Object {\"reserved\": Bool(false), \"status\": String(\"confirmed\")}]}";
    expect_rest(shown_then_next(&mut st, reply(funded), None), Node::Alice, "listfunds");
    let a = shown_then_next(&mut st, reply(funded), Some(&format!("Alice funds: {}", funded_shown)));
    expect_rest(a, Node::Bob, "listfunds");

    // Connect (a refused connection is no error) and fund the channels.
    let (n, r, may_fail) =
        rest(shown_then_next(&mut st, reply(funded), Some(&format!("Bob funds: {}", funded_shown))));
    assert_eq!((n, may_fail), (Node::Alice, true));
    let p = r.params();
    assert_eq!(p.get("id").and_then(|v| v.as_str()), Some("02bob"));
    assert_eq!(p.get("host").and_then(|v| v.as_str()), Some("bob"));
    assert_eq!(p.get("port").and_then(|v| v.as_u64()), Some(9735));
    let (n, r, may_fail) = rest(next(&mut st, RunEvent::Failed("refused".to_string())));
    assert_eq!((n, may_fail), (Node::Bob, true));
    assert_eq!(r.params().get("id").and_then(|v| v.as_str()), Some("03carol"));
    let r = expect_rest(next(&mut st, reply("{}")), Node::Alice, "fundchannel");
    assert_eq!(r.params().get("id").and_then(|v| v.as_str()), Some("02bob"));
    assert_eq!(r.params().get("amount").and_then(|v| v.as_str()), Some("500000sat"));
    let r = expect_rest(next(&mut st, reply("{\"txid\": \"t\"}")), Node::Bob, "fundchannel");
    assert_eq!(r.params().get("id").and_then(|v| v.as_str()), Some("03carol"));
    assert_eq!(r.params().get("amount").and_then(|v| v.as_str()), Some("300000sat"));

    // Confirm the channels.
    assert!(matches!(next(&mut st, reply("{\"txid\": \"u\"}")), RunAction::Cli { command: CliRequest::NewMiningAddress, .. }));
    let a = mine_round(&mut st, "6", "113");
    expect_rest(a, Node::Alice, "listpeerchannels");
    let normal = |peer: &str| {
        format!("{{\"channels\": [{{\"peer_id\": \"{}\", \"state\": \"CHANNELD_NORMAL\"}}]}}", peer)
    };
    expect_rest(next(&mut st, reply(&normal("02bob"))), Node::Bob, "listpeerchannels");
    let (cmd, may_fail) = expect_ln(next(&mut st, reply(&normal("03carol"))));
    assert!(may_fail);
    assert_eq!(cmd[4..].to_vec(), strings(&["getroute", "03carol", "100000000msat", "1"]));
    assert!(matches!(next(&mut st, RunEvent::Failed("no route".to_string())), RunAction::Sleep(2)));
    expect_ln(next(&mut st, RunEvent::Slept));
    assert!(matches!(next(&mut st, out("{\"route\": []}")), RunAction::ReadClock));

    // Invoice and payment.
    let r = expect_rest(next(&mut st, RunEvent::Clock(1700000000)), Node::Carol, "invoice");
    let p = r.params();
    assert_eq!(p.get("amount_msat").and_then(|v| v.as_str()), Some("100000000msat"));
    assert_eq!(p.get("label").and_then(|v| v.as_str()), Some("multihop_1700000000"));
    assert_eq!(p.get("description").and_then(|v| v.as_str()), Some("Multi-Hop Payment"));
    let (cmd, may_fail) =
        expect_ln(next(&mut st, reply("{\"bolt11\": \"lnbcrt1pay\", \"payment_hash\": \"hh\"}")));
    assert!(!may_fail);
    assert_eq!(cmd, strings(&["exec", "alice", "lightning-cli", "--network=regtest", "pay", "lnbcrt1pay"]));
    assert!(st.alice_bob_normal && st.bob_carol_normal && st.route_found);
    expect_rest(next(&mut st, out("{\"status\": \"complete\"}")), Node::Alice, "listpays");
    let pays = "{\"pays\": [{\"payment_hash\": \"hh\", \"status\": \"complete\", \"preimage\": \"pp\"}]}";
    expect_rest(shown_then_next(&mut st, reply(pays), None), Node::Alice, "listfunds");
    let a = shown_then_next(&mut st, reply("{\"outputs\": []}"), Some("Alice funds after payment: Object {\"outputs\": Array []}"));
    expect_rest(a, Node::Carol, "listinvoices");
    let a = shown_then_next(&mut st, reply("{\"invoices\": [{\"amount_msat\": 100000000}]}"),
        Some("Carol invoices: Object {\"invoices\": Array [Object {\"amount_msat\": Number(100000000)}]}"));
    expect_rest(a, Node::Bob, "listfunds");
    let a = shown_then_next(&mut st, reply("{}"), Some("Bob funds after forwarding: Object {}"));
    expect_rest(a, Node::Bob, "listforwards");
    assert_eq!(shown_line(&st, &reply("{\"forwards\": []}")), None);
    assert!(matches!(next(&mut st, reply("{\"forwards\": []}")), RunAction::Sleep(1)));
    expect_rest(next(&mut st, RunEvent::Slept), Node::Bob, "listforwards");
    let forwards = "{\"forwards\": [{\"status\": \"settled\", \"fee_msat\": \"1001msat\", \"payment_hash\": \"hh\"}]}";
    match next(&mut st, reply(forwards)) {
        RunAction::Save(record) => {
            assert_eq!(record.report(), "hh\npp\nlnbcrt1pay\n02alice\n03carol\n1001\nhh\n");
        }
        other => panic!("expected the record, got {:?}", other),
    }
}

#[test]
fn a_listed_wallet_is_not_loaded() {
    let mut st = RunState::new();
    begin_to_wallets(&mut st);
    let (args, _) = expect_cli(next(&mut st, out("[\"mining_wallet\"]")));
    assert_eq!(args, strings(&["-rpcwallet=mining_wallet", "getnewaddress"]));
}

#[test]
fn replies_that_are_not_json_end_the_run() {
    let mut st = RunState::new();
    next(&mut st, RunEvent::Begin);
    let event = reply("not json");
    assert_eq!(shown_line(&st, &event), None);
    let message = expect_fail(next(&mut st, event));
    assert_eq!(message, "error decoding response body for url (http://localhost:3010/v1/getinfo)");
    assert_eq!(st.stage, Stage::Failed);
}

#[test]
fn a_reply_that_is_not_utf8_is_not_json() {
    let mut st = RunState::new();
    next(&mut st, RunEvent::Begin);
    next(&mut st, reply("{\"id\": \"02alice\"}"));
    let message = expect_fail(next(&mut st, RunEvent::Reply(vec![b'"', 0xff, b'"'])));
    assert_eq!(message, "error decoding response body for url (http://localhost:3011/v1/getinfo)");
}

#[test]
fn a_sync_reply_that_is_not_json_names_the_node_called() {
    let mut st = RunState::new();
    begin_to_wallets(&mut st);
    next(&mut st, out("[\"mining_wallet\"]"));
    next(&mut st, out("bcrt1q"));
    next(&mut st, out("[]"));
    next(&mut st, out("101"));
    next(&mut st, reply("{\"blockheight\": 101}"));
    let message = expect_fail(next(&mut st, reply("<html>")));
    assert_eq!(message, "error decoding response body for url (http://localhost:3011/v1/getinfo)");
}

#[test]
fn command_output_that_is_not_json_ends_the_run_with_the_reader_message() {
    let mut st = RunState::new();
    begin_to_wallets(&mut st);
    let message = expect_fail(next(&mut st, out("not json")));
    assert_eq!(message, "expected ident at line 1 column 2");
}

#[test]
fn wallet_list_must_be_an_array() {
    let mut st = RunState::new();
    begin_to_wallets(&mut st);
    assert_eq!(expect_fail(next(&mut st, out("{}"))), "listwallets did not return an array");
}

#[test]
fn block_count_must_be_a_number() {
    let mut st = RunState::new();
    begin_to_wallets(&mut st);
    next(&mut st, out("[\"mining_wallet\"]"));
    next(&mut st, out("bcrt1q"));
    next(&mut st, out("[]"));
    assert_eq!(expect_fail(next(&mut st, out("12a"))), "invalid digit found in string");
}

#[test]
fn events_out_of_turn_end_the_run() {
    let mut st = RunState::new();
    assert_eq!(
        expect_fail(next(&mut st, RunEvent::Slept)),
        "the run was told of something it did not wait for"
    );
}

#[test]
fn missing_address_ends_the_run() {
    let mut st = RunState::new();
    begin_to_wallets(&mut st);
    next(&mut st, out("[\"mining_wallet\"]"));
    let _ = next(&mut st, out("bcrt1q"));
    let _ = next(&mut st, out("[]"));
    next(&mut st, out("101"));
    next(&mut st, reply("{\"blockheight\": 101}"));
    next(&mut st, reply("{\"blockheight\": 101}"));
    expect_rest(next(&mut st, reply("{\"blockheight\": 101}")), Node::Alice, "newaddr");
    assert_eq!(expect_fail(next(&mut st, reply("{}"))), "Alice newaddr response missing bech32");
}

#[test]
fn sync_gives_up_after_ninety_checks() {
    let mut st = RunState::new();
    begin_to_wallets(&mut st);
    next(&mut st, out("[\"mining_wallet\"]"));
    next(&mut st, out("bcrt1q"));
    next(&mut st, out("[]"));
    next(&mut st, out("101"));
    let mut checks = 0;
    loop {
        next(&mut st, reply("{\"blockheight\": 5}"));
        next(&mut st, reply("{\"blockheight\": 5}"));
        checks += 1;
        assert!(matches!(next(&mut st, reply("{\"blockheight\": 5}")), RunAction::Sleep(2)));
        match next(&mut st, RunEvent::Slept) {
            RunAction::Rest { .. } => {}
            RunAction::Fail(e) => {
                assert_eq!(e.message(), "Lightning nodes did not sync to bitcoind");
                break;
            }
            other => panic!("unexpected {:?}", other),
        }
    }
    assert_eq!(checks, 90);
}

#[test]
fn pay_preimage_skips_listpays() {
    let mut st = RunState::new();
    st.stage = Stage::Pay;
    st.payment_hash = Some("hh".to_string());
    expect_rest(next(&mut st, out("{\"payment_preimage\": \"pp\"}")), Node::Alice, "listfunds");
    assert_eq!(st.preimage.as_deref(), Some("pp"));
}

#[test]
fn a_shown_reply_that_is_not_json_names_the_address_called() {
    let mut st = RunState::new();
    st.stage = Stage::ShowAfter(Node::Carol);
    let event = reply("");
    assert_eq!(shown_line(&st, &event), None);
    assert_eq!(
        expect_fail(next(&mut st, event)),
        "error decoding response body for url (http://localhost:3012/v1/listinvoices)"
    );
}

#[test]
fn only_replies_are_shown() {
    let mut st = RunState::new();
    st.stage = Stage::Info(Node::Alice);
    assert_eq!(shown_line(&st, &out("{}")), None);
    assert_eq!(shown_line(&st, &reply("null")).as_deref(), Some("Alice Node Info: Null"));
    st.stage = Stage::Sync(ln_multihop::run::Round::Initial, Node::Alice);
    assert_eq!(shown_line(&st, &reply("{\"blockheight\": 1}")), None);
}
