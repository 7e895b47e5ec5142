use ln_multihop::error::FlowError;
use ln_multihop::json::{Json, JsonNumber};
use ln_multihop::node::Node;
use ln_multihop::poll::{Poll, PollAction, PollEvent};
use ln_multihop::replies::{
    block_height, channel_normal, forward_fee_msat, forwarded_hash, has_confirmed_output,
    preimage_in_listpays, preimage_of, settled_forward, wallet_loaded,
};
use ln_multihop::report::PaymentRecord;
use ln_multihop::requests::{
    bitcoin_cli_command, invoice_label, CliRequest, LightningCliRequest, RestRequest,
};

fn obj(members: Vec<(&str, Json)>) -> Json {
    Json::Object(members.into_iter().map(|(k, v)| (k.to_string(), v)).collect())
}

fn s(text: &str) -> Json {
    Json::Str(text.to_string())
}

fn n(v: u64) -> Json {
    Json::Number(JsonNumber::PosInt(v))
}

fn strings(v: &[&str]) -> Vec<String> {
    v.iter().map(|x| x.to_string()).collect()
}

#[test]
fn nodes_listen_on_their_ports() {
    assert_eq!(Node::Alice.rest_port(), 3010);
    assert_eq!(Node::Bob.rest_port(), 3011);
    assert_eq!(Node::Carol.rest_port(), 3012);
    assert_eq!(Node::Alice.rune_var(), "ALICE_RUNE");
    assert_eq!(Node::Bob.rune_var(), "BOB_RUNE");
    assert_eq!(Node::Carol.rune_var(), "CAROL_RUNE");
}

#[test]
fn rest_urls_name_port_and_method() {
    assert_eq!(Node::Alice.rest_url("getinfo"), "http://localhost:3010/v1/getinfo");
    assert_eq!(Node::Bob.rest_url("listforwards"), "http://localhost:3011/v1/listforwards");
    assert_eq!(Node::Carol.rest_url("invoice"), "http://localhost:3012/v1/invoice");
    assert_ne!(Node::Alice.rest_url("getinfo"), Node::Bob.rest_url("getinfo"));
}

#[test]
fn bitcoin_cli_runs_in_the_bitcoind_container() {
    let cmd = bitcoin_cli_command(CliRequest::BlockCount.args());
    assert_eq!(
        cmd,
        strings(&[
            "exec", "bitcoind", "bitcoin-cli", "-regtest", "-rpcuser=alice",
            "-rpcpassword=password", "getblockcount"
        ])
    );
}

#[test]
fn cli_requests_carry_their_arguments() {
    assert_eq!(CliRequest::ListWallets.args(), strings(&["listwallets"]));
    assert_eq!(CliRequest::LoadWallet.args(), strings(&["loadwallet", "mining_wallet"]));
    assert_eq!(CliRequest::CreateWallet.args(), strings(&["createwallet", "mining_wallet"]));
    assert_eq!(
        CliRequest::NewMiningAddress.args(),
        strings(&["-rpcwallet=mining_wallet", "getnewaddress"])
    );
    assert_eq!(
        CliRequest::GenerateToAddress { blocks: 101, address: "bcrt1qaddr".to_string() }.args(),
        strings(&["-rpcwallet=mining_wallet", "generatetoaddress", "101", "bcrt1qaddr"])
    );
    assert_eq!(
        CliRequest::SendToAddress { address: "bcrt1qalice".to_string() }.args(),
        strings(&["-rpcwallet=mining_wallet", "sendtoaddress", "bcrt1qalice", "0.01000000"])
    );
}

#[test]
fn lightning_cli_runs_on_alice() {
    assert_eq!(
        LightningCliRequest::GetRoute { payee: "03carol".to_string() }.command(),
        strings(&[
            "exec", "alice", "lightning-cli", "--network=regtest", "getroute", "03carol",
            "100000000msat", "1"
        ])
    );
    assert_eq!(
        LightningCliRequest::Pay { bolt11: "lnbcrt1m1".to_string() }.command(),
        strings(&["exec", "alice", "lightning-cli", "--network=regtest", "pay", "lnbcrt1m1"])
    );
}

#[test]
fn rest_requests_name_their_methods() {
    assert_eq!(RestRequest::GetInfo.method(), "getinfo");
    assert_eq!(RestRequest::NewAddr.method(), "newaddr");
    assert_eq!(RestRequest::ListFunds.method(), "listfunds");
    assert_eq!(RestRequest::ListPeerChannels.method(), "listpeerchannels");
    assert_eq!(RestRequest::ListForwards.method(), "listforwards");
    assert_eq!(RestRequest::ListPays.method(), "listpays");
    assert_eq!(RestRequest::ListInvoices.method(), "listinvoices");
}

#[test]
fn rest_request_bodies() {
    assert!(matches!(RestRequest::GetInfo.params(), Json::Null));
    match RestRequest::ListFunds.params() {
        Json::Object(m) => assert!(m.is_empty()),
        _ => panic!("expected an object"),
    }
    let connect = RestRequest::Connect { id: "02bob".to_string(), host: "bob".to_string(), port: 9735 };
    assert_eq!(connect.method(), "connect");
    let p = connect.params();
    assert_eq!(p.get("id").and_then(|v| v.as_str()), Some("02bob"));
    assert_eq!(p.get("host").and_then(|v| v.as_str()), Some("bob"));
    assert_eq!(p.get("port").and_then(|v| v.as_u64()), Some(9735));
    let fund = RestRequest::FundChannel { id: "02bob".to_string(), amount: "500000sat".to_string() };
    assert_eq!(fund.method(), "fundchannel");
    assert_eq!(fund.params().get("amount").and_then(|v| v.as_str()), Some("500000sat"));
    let invoice = RestRequest::Invoice {
        amount_msat: "100000000msat".to_string(),
        label: invoice_label(1700000000),
        description: "Multi-Hop Payment".to_string(),
    };
    assert_eq!(invoice.method(), "invoice");
    let p = invoice.params();
    assert_eq!(p.get("amount_msat").and_then(|v| v.as_str()), Some("100000000msat"));
    assert_eq!(p.get("label").and_then(|v| v.as_str()), Some("multihop_1700000000"));
    assert_eq!(p.get("description").and_then(|v| v.as_str()), Some("Multi-Hop Payment"));
}

#[test]
fn invoice_label_carries_the_time() {
    assert_eq!(invoice_label(0), "multihop_0");
    assert_eq!(invoice_label(1725029869), "multihop_1725029869");
}

#[test]
fn wallet_is_loaded_when_listed() {
    let listed = Json::Array(vec![s("other"), s("mining_wallet")]);
    assert_eq!(wallet_loaded(&listed).ok(), Some(true));
    let absent = Json::Array(vec![s("other"), n(3)]);
    assert_eq!(wallet_loaded(&absent).ok(), Some(false));
    assert_eq!(wallet_loaded(&Json::Array(vec![])).ok(), Some(false));
    let err = wallet_loaded(&obj(vec![])).unwrap_err();
    assert!(matches!(err, FlowError::WalletsNotArray));
    assert_eq!(err.message(), "listwallets did not return an array");
}

#[test]
fn channel_normal_needs_peer_and_state() {
    let reply = obj(vec![(
        "channels",
        Json::Array(vec![
            channel("02bob", "CHANNELD_AWAITING_LOCKIN"),
            channel("03carol", "CHANNELD_NORMAL"),
        ]),
    )]);
    assert_eq!(channel_normal(&reply, "03carol").ok(), Some(true));
    assert_eq!(channel_normal(&reply, "02bob").ok(), Some(false));
    assert_eq!(channel_normal(&reply, "04dave").ok(), Some(false));
    let err = channel_normal(&obj(vec![("peers", Json::Array(vec![]))]), "02bob").unwrap_err();
    assert_eq!(err.message(), "listpeerchannels response missing channels");
    let err = channel_normal(&obj(vec![("channels", s("none"))]), "02bob").unwrap_err();
    assert_eq!(err.message(), "listpeerchannels response missing channels");
}

fn forward(status: &str, fee: Json, hash: &str) -> Json {
    obj(vec![("status", s(status)), ("fee_msat", fee), ("payment_hash", s(hash))])
}

#[test]
fn settled_forward_is_the_first_settled_one() {
    let reply = obj(vec![(
        "forwards",
        Json::Array(vec![
            forward("offered", n(1), "h0"),
            forward("settled", n(1001), "h1"),
            forward("settled", n(2002), "h2"),
        ]),
    )]);
    let f = settled_forward(&reply).expect("a settled forward");
    assert_eq!(f.get("payment_hash").and_then(|v| v.as_str()), Some("h1"));
    let none = obj(vec![("forwards", Json::Array(vec![forward("failed", n(0), "h")]))]);
    assert!(settled_forward(&none).is_none());
    assert!(settled_forward(&obj(vec![])).is_none());
}

#[test]
fn block_height_defaults_to_zero() {
    assert_eq!(block_height(&obj(vec![("blockheight", n(108))])), 108);
    assert_eq!(block_height(&obj(vec![("blockheight", s("108"))])), 0);
    assert_eq!(block_height(&obj(vec![])), 0);
    assert_eq!(block_height(&Json::Null), 0);
}

#[test]
fn confirmed_output_must_be_unreserved() {
    let funds = |outs: Vec<Json>| obj(vec![("outputs", Json::Array(outs))]);
    assert!(has_confirmed_output(&funds(vec![output("unconfirmed", Some(false)), output("confirmed", Some(false))])));
    assert!(!has_confirmed_output(&funds(vec![output("confirmed", Some(true))])));
    assert!(!has_confirmed_output(&funds(vec![output("confirmed", None)])));
    assert!(!has_confirmed_output(&funds(vec![])));
    assert!(!has_confirmed_output(&obj(vec![])));
}

#[test]
fn preimage_prefers_payment_preimage() {
    assert_eq!(preimage_of(&obj(vec![("payment_preimage", s("aa")), ("preimage", s("bb"))])), Some("aa".to_string()));
    assert_eq!(preimage_of(&obj(vec![("preimage", s("bb"))])), Some("bb".to_string()));
    assert_eq!(preimage_of(&obj(vec![("payment_preimage", n(5)), ("preimage", s("bb"))])), None);
    assert_eq!(preimage_of(&obj(vec![])), None);
}

#[test]
fn listpays_preimage_comes_from_the_completed_payment() {
    let pay = |hash: &str, status: &str, pre: &str| {
        obj(vec![("payment_hash", s(hash)), ("status", s(status)), ("preimage", s(pre))])
    };
    let pays = obj(vec![(
        "pays",
        Json::Array(vec![pay("h1", "failed", "x"), pay("h2", "complete", "y"), pay("h1", "complete", "z")]),
    )]);
    assert_eq!(preimage_in_listpays(&pays, "h1").unwrap(), "z");
    assert_eq!(preimage_in_listpays(&pays, "h2").unwrap(), "y");
    let err = preimage_in_listpays(&pays, "h3").unwrap_err();
    assert_eq!(err.message(), "listpays response missing payment preimage");
    let err = preimage_in_listpays(&obj(vec![]), "h1").unwrap_err();
    assert_eq!(err.message(), "listpays response missing payment preimage");
}

#[test]
fn fee_is_read_from_text_or_integer() {
    assert_eq!(forward_fee_msat(&forward("settled", s("1001msat"), "h")).unwrap(), "1001");
    assert_eq!(forward_fee_msat(&forward("settled", s("1001"), "h")).unwrap(), "1001");
    assert_eq!(forward_fee_msat(&forward("settled", n(1001), "h")).unwrap(), "1001");
    assert_eq!(
        forward_fee_msat(&forward("settled", Json::Number(JsonNumber::NegInt(-4)), "h")).unwrap(),
        "-4"
    );
    let err = forward_fee_msat(&forward("settled", Json::Number(JsonNumber::Float), "h")).unwrap_err();
    assert_eq!(err.message(), "forward response missing fee_msat");
    let err = forward_fee_msat(&obj(vec![])).unwrap_err();
    assert_eq!(err.message(), "forward response missing fee_msat");
}

#[test]
fn forwarded_hash_falls_back() {
    assert_eq!(forwarded_hash(&forward("settled", n(1), "abc"), "def"), "abc");
    assert_eq!(forwarded_hash(&obj(vec![]), "def"), "def");
}

fn run_wait(mut p: Poll, success_at: Option<u32>) -> (PollAction, u32, u64) {
    let mut checks = 0u32;
    let mut slept = 0u64;
    let mut action = p.step(PollEvent::Start);
    loop {
        match action {
            PollAction::Check => {
                checks += 1;
                action = p.step(PollEvent::Checked(Some(checks) == success_at));
            }
            PollAction::Sleep(secs) => {
                slept += secs;
                action = p.step(PollEvent::Slept);
            }
            PollAction::Succeed | PollAction::GiveUp => return (action, checks, slept),
        }
    }
}

#[test]
fn waits_check_their_limit_then_give_up() {
    assert_eq!(run_wait(Poll::new(90, 2), None), (PollAction::GiveUp, 90, 180));
    assert_eq!(run_wait(Poll::new(60, 1), None), (PollAction::GiveUp, 60, 60));
    assert_eq!(run_wait(Poll::new(0, 5), None), (PollAction::GiveUp, 0, 0));
}

#[test]
fn waits_stop_at_the_first_success() {
    assert_eq!(run_wait(Poll::new(90, 2), Some(1)), (PollAction::Succeed, 1, 0));
    assert_eq!(run_wait(Poll::new(90, 2), Some(3)), (PollAction::Succeed, 3, 4));
    assert_eq!(run_wait(Poll::new(3, 1), Some(3)), (PollAction::Succeed, 3, 2));
    assert_eq!(run_wait(Poll::new(3, 1), Some(4)), (PollAction::GiveUp, 3, 3));
}

#[test]
fn report_has_one_item_per_line() {
    let record = PaymentRecord {
        payment_hash: "hash".to_string(),
        preimage: "pre".to_string(),
        bolt11: "lnbcrt1".to_string(),
        payer_id: "02alice".to_string(),
        payee_id: "03carol".to_string(),
        fee_msat: "1001".to_string(),
        forwarded_hash: "hash".to_string(),
    };
    let text = record.report();
    assert_eq!(text, "hash\npre\nlnbcrt1\n02alice\n03carol\n1001\nhash\n");
    let lines: Vec<&str> = text.lines().collect();
    assert_eq!(lines, vec!["hash", "pre", "lnbcrt1", "02alice", "03carol", "1001", "hash"]);
}

fn channel(peer: &str, state: &str) -> Json {
    obj(vec![("peer_id", s(peer)), ("state", s(state))])
}

fn output(status: &str, reserved: Option<bool>) -> Json {
    let mut m = vec![("status", s(status))];
    if let Some(r) = reserved {
        m.push(("reserved", Json::Bool(r)));
    }
    obj(m)
}
