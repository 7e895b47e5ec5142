//! The whole payment run as a machine: the caller performs each action and
//! reports what happened; the machine decides the next action from its state
//! and that event, until it saves the payment record or fails.
use vstd::prelude::*;
use crate::error::{FlowError, message_spec};
use crate::json::{Json, parse_json, parse_reply, parsed_json, parsed_reply, str_member};
use crate::node::rest_url_spec;
use crate::node::Node;
use crate::poll::{Poll, PollAction, PollEvent, poll_step_keeps_wf, poll_step_spec, poll_wf};
use crate::replies::{
    any_where, array_member, block_height_spec, fee_msat_spec, listpays_preimage_spec,
    mining_wallet_pred, normal_channel_pred, preimage_spec, settled_forward_spec,
    spendable_output_pred,
};
use crate::requests::{
    CliRequest, CliRequestView, LightningCliRequest, LightningCliRequestView, RestRequest,
    RestRequestView, method_spec,
};
use crate::text::{decimal, int_error_text, parse_u64_spec};
use crate::json::array_spec;
use crate::report::PaymentRecord;

verus! {

/// Which mining round a stage belongs to.
#[derive(Clone, Copy, Debug, PartialEq, Eq, Structural)]
pub enum Round {
    /// The first blocks, which fund the mining wallet.
    Initial,
    /// The blocks that confirm the nodes' on-chain funds.
    Funding,
    /// The blocks that confirm the channels.
    Channels,
}

/// Where the run stands, and what it waits for.
#[derive(Clone, Copy, Debug, PartialEq, Eq, Structural)]
pub enum Stage {
    /// Not begun.
    Start,
    /// The node's `getinfo` reply.
    Info(Node),
    /// The `listwallets` output.
    ListWallets,
    /// The outcome of loading the mining wallet.
    LoadWallet,
    /// The outcome of creating the mining wallet.
    CreateWallet,
    /// A fresh mining address.
    MiningAddress(Round),
    /// The outcome of mining.
    Generating(Round),
    /// The chain height.
    BlockCount(Round),
    /// The node's `getinfo` reply in a sync check (or, at Alice, the pause after one).
    Sync(Round, Node),
    /// The node's fresh on-chain address.
    NewAddr(Node),
    /// The outcome of funding the node's address.
    Sending(Node),
    /// The node's `listfunds` reply in a funding check, or the pause after one.
    Funding(Node),
    /// The node's `listfunds` reply, to be shown.
    ShowFunds(Node),
    /// The outcome of the node's `connect`.
    Connect(Node),
    /// The node's `fundchannel` reply.
    FundChannel(Node),
    /// The node's `listpeerchannels` reply in a channel check, or the pause after one.
    Channel(Node),
    /// The outcome of a route query, or the pause after one.
    Route,
    /// The time.
    Clock,
    /// Carol's `invoice` reply.
    Invoice,
    /// The output of Alice's `pay`.
    Pay,
    /// Alice's `listpays` reply.
    ListPays,
    /// A reply shown after the payment (Alice's funds, Carol's invoices, Bob's funds).
    ShowAfter(Node),
    /// Bob's `listforwards` reply in a forward check, or the pause after one.
    Forward,
    /// The record was handed over to be saved.
    Done,
    /// The run failed.
    Failed,
}

/// What the caller tells the machine.
#[derive(Debug)]
pub enum RunEvent {
    /// Start the run.
    Begin,
    /// The body of a REST reply, as received.
    Reply(Vec<u8>),
    /// The trimmed standard output of a command that succeeded.
    CliOutput(String),
    /// An action that may fail failed, for the reason given.
    Failed(String),
    /// A pause ended.
    Slept,
    /// The time, in seconds since the Unix epoch.
    Clock(u64),
}

/// What the caller does next.
#[derive(Debug)]
pub enum RunAction {
    /// Call `node`'s REST interface. When `may_fail`, a failed call is reported
    /// as `Failed`; otherwise it ends the run.
    Rest { node: Node, request: RestRequest, may_fail: bool },
    /// Run `bitcoin-cli`.
    Cli { command: CliRequest, may_fail: bool },
    /// Run `lightning-cli` on Alice's node.
    LightningCli { call: LightningCliRequest, may_fail: bool },
    /// Pause.
    Sleep(u64),
    /// Report the time.
    ReadClock,
    /// Save the record; the run is over.
    Save(PaymentRecord),
    /// The run failed.
    Fail(FlowError),
}

/// The state of a run.
#[derive(Debug)]
pub struct RunState {
    pub stage: Stage,
    pub poll: Poll,
    pub target: u64,
    pub alice_height: u64,
    pub bob_height: u64,
    pub alice_info: Option<Json>,
    pub bob_info: Option<Json>,
    pub carol_info: Option<Json>,
    pub invoice: Option<Json>,
    pub pay: Option<Json>,
    pub pays: Option<Json>,
    pub alice_id: Option<String>,
    pub bob_id: Option<String>,
    pub carol_id: Option<String>,
    pub bolt11: Option<String>,
    pub payment_hash: Option<String>,
    pub preimage: Option<String>,
    pub alice_bob_normal: bool,
    pub bob_carol_normal: bool,
    pub route_found: bool,
}

/// A run's state with texts as characters.
pub struct RunView {
    pub stage: Stage,
    pub poll: Poll,
    pub target: u64,
    pub alice_height: u64,
    pub bob_height: u64,
    pub alice_info: Option<Json>,
    pub bob_info: Option<Json>,
    pub carol_info: Option<Json>,
    pub invoice: Option<Json>,
    pub pay: Option<Json>,
    pub pays: Option<Json>,
    pub alice_id: Option<Seq<char>>,
    pub bob_id: Option<Seq<char>>,
    pub carol_id: Option<Seq<char>>,
    pub bolt11: Option<Seq<char>>,
    pub payment_hash: Option<Seq<char>>,
    pub preimage: Option<Seq<char>>,
    pub alice_bob_normal: bool,
    pub bob_carol_normal: bool,
    pub route_found: bool,
}

/// An event with texts as characters and a reply's body as bytes.
pub enum RunEventView {
    Begin,
    Reply(Seq<u8>),
    CliOutput(Seq<char>),
    Failed(Seq<char>),
    Slept,
    Clock(u64),
}

/// An action with texts as characters; a record as its items, a failure as its message.
pub enum RunActionView {
    Rest { node: Node, request: RestRequestView, may_fail: bool },
    Cli { command: CliRequestView, may_fail: bool },
    LightningCli { call: LightningCliRequestView, may_fail: bool },
    Sleep(u64),
    ReadClock,
    Save(Seq<Seq<char>>),
    Fail(Seq<char>),
}

/// The characters of an optional text.
pub open spec fn opt_text(o: Option<String>) -> Option<Seq<char>> {
    match o {
        Some(s) => Some(s@),
        None => None,
    }
}

/// An optional text, or nothing when absent.
pub open spec fn text_or_empty(o: Option<Seq<char>>) -> Seq<char> {
    match o {
        Some(s) => s,
        None => Seq::empty(),
    }
}

impl View for RunState {
    type V = RunView;

    open spec fn view(&self) -> RunView {
        RunView {
            stage: self.stage,
            poll: self.poll,
            target: self.target,
            alice_height: self.alice_height,
            bob_height: self.bob_height,
            alice_info: self.alice_info,
            bob_info: self.bob_info,
            carol_info: self.carol_info,
            invoice: self.invoice,
            pay: self.pay,
            pays: self.pays,
            alice_id: opt_text(self.alice_id),
            bob_id: opt_text(self.bob_id),
            carol_id: opt_text(self.carol_id),
            bolt11: opt_text(self.bolt11),
            payment_hash: opt_text(self.payment_hash),
            preimage: opt_text(self.preimage),
            alice_bob_normal: self.alice_bob_normal,
            bob_carol_normal: self.bob_carol_normal,
            route_found: self.route_found,
        }
    }
}

impl View for RunEvent {
    type V = RunEventView;

    open spec fn view(&self) -> RunEventView {
        match self {
            RunEvent::Begin => RunEventView::Begin,
            RunEvent::Reply(t) => RunEventView::Reply(t@),
            RunEvent::CliOutput(t) => RunEventView::CliOutput(t@),
            RunEvent::Failed(t) => RunEventView::Failed(t@),
            RunEvent::Slept => RunEventView::Slept,
            RunEvent::Clock(s) => RunEventView::Clock(*s),
        }
    }
}

impl View for RunAction {
    type V = RunActionView;

    open spec fn view(&self) -> RunActionView {
        match self {
            RunAction::Rest { node, request, may_fail } => RunActionView::Rest {
                node: *node,
                request: request@,
                may_fail: *may_fail,
            },
            RunAction::Cli { command, may_fail } => RunActionView::Cli {
                command: command@,
                may_fail: *may_fail,
            },
            RunAction::LightningCli { call, may_fail } => RunActionView::LightningCli {
                call: call@,
                may_fail: *may_fail,
            },
            RunAction::Sleep(s) => RunActionView::Sleep(*s),
            RunAction::ReadClock => RunActionView::ReadClock,
            RunAction::Save(r) => RunActionView::Save(crate::report::record_fields(*r)),
            RunAction::Fail(e) => RunActionView::Fail(message_spec(*e)),
        }
    }
}


/// The schedule of every wait but the forward's: 90 checks, 2 s apart.
pub open spec fn long_wait() -> Poll {
    Poll { failed_checks: 0, limit: 90, interval_secs: 2 }
}

/// The schedule of the forward's wait: 60 checks, 1 s apart.
pub open spec fn forward_wait() -> Poll {
    Poll { failed_checks: 0, limit: 60, interval_secs: 1 }
}

/// The blocks each mining round mines.
pub open spec fn round_blocks(r: Round) -> u64 {
    match r {
        Round::Initial => 101,
        _ => 6,
    }
}

/// A REST call whose failure ends the run.
pub open spec fn rest_call(node: Node, request: RestRequestView) -> RunActionView {
    RunActionView::Rest { node, request, may_fail: false }
}

/// A REST call whose failure is reported back to the run.
pub open spec fn tolerant_call(node: Node, request: RestRequestView) -> RunActionView {
    RunActionView::Rest { node, request, may_fail: true }
}

/// A `bitcoin-cli` call whose failure ends the run.
pub open spec fn cli_call(request: CliRequestView) -> RunActionView {
    RunActionView::Cli { command: request, may_fail: false }
}

/// The run fails with `message`.
pub open spec fn fail_with(v: RunView, message: Seq<char>) -> (RunView, RunActionView) {
    (RunView { stage: Stage::Failed, ..v }, RunActionView::Fail(message))
}

/// The message of a missing item.
pub open spec fn missing_text(reply: Seq<char>, field: Seq<char>) -> Seq<char> {
    reply + " response missing "@ + field
}

/// The string member `key` of an optional reply.
pub open spec fn member_of(o: Option<Json>, key: Seq<char>) -> Option<Seq<char>> {
    match o {
        Some(j) => str_member(j, key),
        None => None,
    }
}

/// The peer whose channel a node's channel check looks for.
pub open spec fn channel_peer(v: RunView, n: Node) -> Seq<char> {
    if n == Node::Alice {
        text_or_empty(v.bob_id)
    } else {
        text_or_empty(v.carol_id)
    }
}

/// The check a wait makes.
pub open spec fn check_action(v: RunView, stage: Stage) -> RunActionView {
    match stage {
        Stage::Funding(n) => rest_call(n, RestRequestView::ListFunds),
        Stage::Channel(n) => rest_call(n, RestRequestView::ListPeerChannels),
        Stage::Route => RunActionView::LightningCli {
            call: LightningCliRequestView::GetRoute { payee: text_or_empty(v.carol_id) },
            may_fail: true,
        },
        Stage::Forward => rest_call(Node::Bob, RestRequestView::ListForwards),
        _ => rest_call(Node::Alice, RestRequestView::GetInfo),
    }
}

/// The message a wait fails with when it gives up.
pub open spec fn timeout_text(v: RunView, stage: Stage) -> Seq<char> {
    match stage {
        Stage::Funding(n) => (if n == Node::Alice { "alice"@ } else { "bob"@ })
            + " did not see confirmed funding output"@,
        Stage::Channel(n) => "channel with peer "@ + channel_peer(v, n)
            + " did not reach CHANNELD_NORMAL"@,
        Stage::Route => "Alice did not learn a route to "@ + text_or_empty(v.carol_id),
        Stage::Forward => "Bob did not report a settled forward for the payment"@,
        _ => "Lightning nodes did not sync to bitcoind"@,
    }
}

/// What a wait at `stage` does after its machine moved to `p` with `a`;
/// `success` is where the run goes when the awaited state was seen.
pub open spec fn poll_outcome(
    v: RunView,
    stage: Stage,
    p: Poll,
    a: PollAction,
    success: (RunView, RunActionView),
) -> (RunView, RunActionView) {
    match a {
        PollAction::Check => (RunView { stage, poll: p, ..v }, check_action(v, stage)),
        PollAction::Sleep(secs) => (RunView { stage, poll: p, ..v }, RunActionView::Sleep(secs)),
        PollAction::Succeed => success,
        PollAction::GiveUp => (RunView { stage: Stage::Failed, poll: p, ..v }, RunActionView::Fail(timeout_text(v, stage))),
    }
}

/// A wait at `stage` begins with schedule `p`.
pub open spec fn begin_wait(v: RunView, stage: Stage, p: Poll) -> (RunView, RunActionView) {
    let (q, a) = poll_step_spec(p, PollEvent::Start);
    poll_outcome(v, stage, q, a, fail_with(v, message_spec(FlowError::OutOfOrder)))
}

/// A wait at `stage` takes in the outcome of a check (`Some`) or the end of a
/// pause (`None`).
pub open spec fn wait_event(
    v: RunView,
    stage: Stage,
    seen: Option<bool>,
    success: (RunView, RunActionView),
) -> (RunView, RunActionView) {
    let e = match seen {
        Some(b) => PollEvent::Checked(b),
        None => PollEvent::Slept,
    };
    let (q, a) = poll_step_spec(v.poll, e);
    poll_outcome(v, stage, q, a, success)
}

/// A mining round begins.
pub open spec fn begin_mining(v: RunView, r: Round) -> (RunView, RunActionView) {
    (RunView { stage: Stage::MiningAddress(r), ..v }, cli_call(CliRequestView::NewMiningAddress))
}

/// Where the run goes once the nodes caught up with a round's blocks.
pub open spec fn after_sync(v: RunView, r: Round) -> (RunView, RunActionView) {
    match r {
        Round::Initial => (RunView { stage: Stage::NewAddr(Node::Alice), ..v }, rest_call(Node::Alice, RestRequestView::NewAddr)),
        Round::Funding => begin_wait(v, Stage::Funding(Node::Alice), long_wait()),
        Round::Channels => begin_wait(v, Stage::Channel(Node::Alice), long_wait()),
    }
}

/// The caption under which the reply awaited at `stage` is shown, for the
/// replies that are shown.
pub open spec fn shown_caption(stage: Stage) -> Option<Seq<char>> {
    match stage {
        Stage::Info(Node::Alice) => Some("Alice Node Info"@),
        Stage::Info(Node::Bob) => Some("Bob Node Info"@),
        Stage::Info(Node::Carol) => Some("Carol Node Info"@),
        Stage::ShowFunds(Node::Alice) => Some("Alice funds"@),
        Stage::ShowFunds(Node::Bob) => Some("Bob funds"@),
        Stage::ShowAfter(Node::Alice) => Some("Alice funds after payment"@),
        Stage::ShowAfter(Node::Carol) => Some("Carol invoices"@),
        Stage::ShowAfter(Node::Bob) => Some("Bob funds after forwarding"@),
        _ => None,
    }
}

/// The line shown for an event: a reply that is shown and is JSON, as its
/// caption, a colon and the reader's rendering of the document.
pub open spec fn shown_line_spec(v: RunView, e: RunEventView) -> Option<Seq<char>> {
    match e {
        RunEventView::Reply(body) => match (shown_caption(v.stage), parsed_reply(body)) {
            (Some(c), Some((_, d))) => Some(c + ": "@ + d),
            _ => None,
        },
        _ => None,
    }
}

/// The name of each node's `newaddr` reply in messages.
pub open spec fn newaddr_name(n: Node) -> Seq<char> {
    if n == Node::Alice { "Alice newaddr"@ } else { "Bob newaddr"@ }
}

/// Where the run goes after the shown replies that follow the payment.
pub open spec fn after_shown(v: RunView, n: Node) -> (RunView, RunActionView) {
    match n {
        Node::Alice => (RunView { stage: Stage::ShowAfter(Node::Carol), ..v }, rest_call(Node::Carol, RestRequestView::ListInvoices)),
        Node::Carol => (RunView { stage: Stage::ShowAfter(Node::Bob), ..v }, rest_call(Node::Bob, RestRequestView::ListFunds)),
        Node::Bob => begin_wait(v, Stage::Forward, forward_wait()),
    }
}

/// Alice's funds are shown once the payment has its preimage.
pub open spec fn show_after_payment(v: RunView) -> (RunView, RunActionView) {
    (RunView { stage: Stage::ShowAfter(Node::Alice), ..v }, rest_call(Node::Alice, RestRequestView::ListFunds))
}

/// The items of the record saved from a settled forward `f`, with its fee.
pub open spec fn record_items(v: RunView, f: Json, fee: Seq<char>) -> Seq<Seq<char>> {
    let hash = text_or_empty(v.payment_hash);
    seq![
        hash,
        text_or_empty(v.preimage),
        text_or_empty(v.bolt11),
        text_or_empty(v.alice_id),
        text_or_empty(v.carol_id),
        fee,
        match str_member(f, "payment_hash"@) {
            Some(h) => h,
            None => hash,
        },
    ]
}

/// The node and the REST method whose reply a stage waits for.
pub open spec fn awaited_call(stage: Stage) -> (Node, Seq<char>) {
    match stage {
        Stage::Info(n) | Stage::Sync(_, n) => (n, "getinfo"@),
        Stage::NewAddr(n) => (n, "newaddr"@),
        Stage::Funding(n) | Stage::ShowFunds(n) => (n, "listfunds"@),
        Stage::Connect(n) => (n, "connect"@),
        Stage::FundChannel(n) => (n, "fundchannel"@),
        Stage::Channel(n) => (n, "listpeerchannels"@),
        Stage::Invoice => (Node::Carol, "invoice"@),
        Stage::ListPays => (Node::Alice, "listpays"@),
        Stage::ShowAfter(Node::Carol) => (Node::Carol, "listinvoices"@),
        Stage::ShowAfter(n) => (n, "listfunds"@),
        Stage::Forward => (Node::Bob, "listforwards"@),
        _ => (Node::Alice, "getinfo"@),
    }
}

/// The message of a reply body, awaited at `stage`, that is not JSON: the HTTP
/// client's decode error, which names the address called.
pub open spec fn decode_text(stage: Stage) -> Seq<char> {
    let (n, method) = awaited_call(stage);
    "error decoding response body for url ("@ + rest_url_spec(n, method) + ")"@
}

/// The document a reply body holds, when it is JSON.
pub open spec fn reply_json(body: Seq<u8>) -> Option<Json> {
    match parsed_reply(body) {
        Some((j, _)) => Some(j),
        None => None,
    }
}

/// The step on a REST reply's body: the decode failure when it is not JSON,
/// else `k` of the document.
pub open spec fn on_reply(v: RunView, body: Seq<u8>, k: spec_fn(Json) -> (RunView, RunActionView)) -> (RunView, RunActionView) {
    match reply_json(body) {
        Some(j) => k(j),
        None => fail_with(v, decode_text(v.stage)),
    }
}

/// The step on a command's output that should be JSON: the reader's error
/// message when it is not, else `k` of the document.
pub open spec fn on_output(v: RunView, text: Seq<char>, k: spec_fn(Json) -> (RunView, RunActionView)) -> (RunView, RunActionView) {
    match parsed_json(text) {
        Ok(j) => k(j),
        Err(m) => fail_with(v, m),
    }
}

/// One step of the run: the next state and action, from the state and what
/// happened. An event that the stage does not wait for fails the run.
pub open spec fn next_spec(v: RunView, e: RunEventView) -> (RunView, RunActionView) {
    let out_of_order = fail_with(v, message_spec(FlowError::OutOfOrder));
    match (v.stage, e) {
        (Stage::Start, RunEventView::Begin) => (RunView { stage: Stage::Info(Node::Alice), ..v }, rest_call(Node::Alice, RestRequestView::GetInfo)),
        (Stage::Info(n), RunEventView::Reply(t)) => on_reply(v, t, |j: Json| match n {
            Node::Alice => (RunView { stage: Stage::Info(Node::Bob), alice_info: Some(j), ..v }, rest_call(Node::Bob, RestRequestView::GetInfo)),
            Node::Bob => (RunView { stage: Stage::Info(Node::Carol), bob_info: Some(j), ..v }, rest_call(Node::Carol, RestRequestView::GetInfo)),
            Node::Carol => (RunView { stage: Stage::ListWallets, carol_info: Some(j), ..v }, cli_call(CliRequestView::ListWallets)),
        }),
        (Stage::ListWallets, RunEventView::CliOutput(t)) => on_output(v, t, |j: Json| match array_spec(j) {
            None => fail_with(v, "listwallets did not return an array"@),
            Some(items) => if any_where(items, mining_wallet_pred()) {
                begin_mining(v, Round::Initial)
            } else {
                (RunView { stage: Stage::LoadWallet, ..v }, RunActionView::Cli { command: CliRequestView::LoadWallet, may_fail: true })
            },
        }),
        (Stage::LoadWallet, RunEventView::CliOutput(_)) => begin_mining(v, Round::Initial),
        (Stage::LoadWallet, RunEventView::Failed(_)) => (RunView { stage: Stage::CreateWallet, ..v }, cli_call(CliRequestView::CreateWallet)),
        (Stage::CreateWallet, RunEventView::CliOutput(_)) => begin_mining(v, Round::Initial),
        (Stage::MiningAddress(r), RunEventView::CliOutput(a)) => (RunView { stage: Stage::Generating(r), ..v }, cli_call(CliRequestView::GenerateToAddress { blocks: round_blocks(r), address: a })),
        (Stage::Generating(r), RunEventView::CliOutput(_)) => (RunView { stage: Stage::BlockCount(r), ..v }, cli_call(CliRequestView::BlockCount)),
        (Stage::BlockCount(r), RunEventView::CliOutput(t)) => match parse_u64_spec(t) {
            Err(k) => fail_with(v, int_error_text(k)),
            Ok(h) => begin_wait(RunView { target: h, ..v }, Stage::Sync(r, Node::Alice), long_wait()),
        },
        (Stage::Sync(r, Node::Alice), RunEventView::Reply(t)) => on_reply(v, t, |j: Json|
            (RunView { stage: Stage::Sync(r, Node::Bob), alice_height: block_height_spec(j), ..v }, rest_call(Node::Bob, RestRequestView::GetInfo))),
        (Stage::Sync(r, Node::Bob), RunEventView::Reply(t)) => on_reply(v, t, |j: Json|
            (RunView { stage: Stage::Sync(r, Node::Carol), bob_height: block_height_spec(j), ..v }, rest_call(Node::Carol, RestRequestView::GetInfo))),
        (Stage::Sync(r, Node::Carol), RunEventView::Reply(t)) => on_reply(v, t, |j: Json|
            wait_event(v, Stage::Sync(r, Node::Alice), Some(v.alice_height >= v.target && v.bob_height >= v.target && block_height_spec(j) >= v.target), after_sync(v, r))),
        (Stage::Sync(r, Node::Alice), RunEventView::Slept) => wait_event(v, Stage::Sync(r, Node::Alice), None, out_of_order),
        (Stage::NewAddr(n), RunEventView::Reply(t)) => on_reply(v, t, |j: Json| match str_member(j, "bech32"@) {
            None => fail_with(v, missing_text(newaddr_name(n), "bech32"@)),
            Some(a) => (RunView { stage: Stage::Sending(n), ..v }, cli_call(CliRequestView::SendToAddress { address: a })),
        }),
        (Stage::Sending(n), RunEventView::CliOutput(_)) => if n == Node::Alice {
            (RunView { stage: Stage::NewAddr(Node::Bob), ..v }, rest_call(Node::Bob, RestRequestView::NewAddr))
        } else {
            begin_mining(v, Round::Funding)
        },
        (Stage::Funding(n), RunEventView::Reply(t)) => on_reply(v, t, |j: Json|
            wait_event(v, Stage::Funding(n), Some(match array_member(j, "outputs"@) {
                Some(items) => any_where(items, spendable_output_pred()),
                None => false,
            }), if n == Node::Alice {
                begin_wait(v, Stage::Funding(Node::Bob), long_wait())
            } else {
                (RunView { stage: Stage::ShowFunds(Node::Alice), ..v }, rest_call(Node::Alice, RestRequestView::ListFunds))
            })),
        (Stage::Funding(n), RunEventView::Slept) => wait_event(v, Stage::Funding(n), None, out_of_order),
        (Stage::ShowFunds(n), RunEventView::Reply(t)) => on_reply(v, t, |j: Json| if n == Node::Alice {
            (RunView { stage: Stage::ShowFunds(Node::Bob), ..v }, rest_call(Node::Bob, RestRequestView::ListFunds))
        } else {
            match (member_of(v.alice_info, "id"@), member_of(v.bob_info, "id"@), member_of(v.carol_info, "id"@)) {
                (None, _, _) => fail_with(v, missing_text("Alice getinfo"@, "id"@)),
                (Some(_), None, _) => fail_with(v, missing_text("Bob getinfo"@, "id"@)),
                (Some(_), Some(_), None) => fail_with(v, missing_text("Carol getinfo"@, "id"@)),
                (Some(a), Some(b), Some(c)) => (
                    RunView { stage: Stage::Connect(Node::Alice), alice_id: Some(a), bob_id: Some(b), carol_id: Some(c), ..v },
                    tolerant_call(Node::Alice, RestRequestView::Connect { id: b, host: "bob"@, port: 9735 }),
                ),
            }
        }),
        (Stage::Connect(n), RunEventView::Reply(_)) | (Stage::Connect(n), RunEventView::Failed(_)) => if n == Node::Alice {
            (RunView { stage: Stage::Connect(Node::Bob), ..v }, tolerant_call(Node::Bob, RestRequestView::Connect { id: text_or_empty(v.carol_id), host: "carol"@, port: 9735 }))
        } else {
            (RunView { stage: Stage::FundChannel(Node::Alice), ..v }, rest_call(Node::Alice, RestRequestView::FundChannel { id: text_or_empty(v.bob_id), amount: "500000sat"@ }))
        },
        (Stage::FundChannel(n), RunEventView::Reply(t)) => on_reply(v, t, |j: Json| if n == Node::Alice {
            (RunView { stage: Stage::FundChannel(Node::Bob), ..v }, rest_call(Node::Bob, RestRequestView::FundChannel { id: text_or_empty(v.carol_id), amount: "300000sat"@ }))
        } else {
            begin_mining(v, Round::Channels)
        }),
        (Stage::Channel(n), RunEventView::Reply(t)) => on_reply(v, t, |j: Json| match array_member(j, "channels"@) {
            None => fail_with(v, missing_text("listpeerchannels"@, "channels"@)),
            Some(items) => wait_event(v, Stage::Channel(n), Some(any_where(items, normal_channel_pred(channel_peer(v, n)))), if n == Node::Alice {
                begin_wait(RunView { alice_bob_normal: true, ..v }, Stage::Channel(Node::Bob), long_wait())
            } else {
                begin_wait(RunView { bob_carol_normal: true, ..v }, Stage::Route, long_wait())
            }),
        }),
        (Stage::Channel(n), RunEventView::Slept) => wait_event(v, Stage::Channel(n), None, out_of_order),
        (Stage::Route, RunEventView::CliOutput(_)) => wait_event(v, Stage::Route, Some(true), (RunView { stage: Stage::Clock, route_found: true, ..v }, RunActionView::ReadClock)),
        (Stage::Route, RunEventView::Failed(_)) => wait_event(v, Stage::Route, Some(false), out_of_order),
        (Stage::Route, RunEventView::Slept) => wait_event(v, Stage::Route, None, out_of_order),
        (Stage::Clock, RunEventView::Clock(secs)) => (RunView { stage: Stage::Invoice, ..v }, rest_call(Node::Carol, RestRequestView::Invoice {
            amount_msat: "100000000msat"@,
            label: "multihop_"@ + decimal(secs as nat),
            description: "Multi-Hop Payment"@,
        })),
        (Stage::Invoice, RunEventView::Reply(t)) => on_reply(v, t, |j: Json| match (str_member(j, "bolt11"@), str_member(j, "payment_hash"@)) {
            (None, _) => fail_with(v, missing_text("invoice"@, "bolt11"@)),
            (Some(_), None) => fail_with(v, missing_text("invoice"@, "payment_hash"@)),
            (Some(b), Some(h)) => (
                RunView { stage: Stage::Pay, invoice: Some(j), bolt11: Some(b), payment_hash: Some(h), ..v },
                RunActionView::LightningCli { call: LightningCliRequestView::Pay { bolt11: b }, may_fail: false },
            ),
        }),
        (Stage::Pay, RunEventView::CliOutput(t)) => on_output(v, t, |p: Json| match preimage_spec(p) {
            Some(x) => show_after_payment(RunView { pay: Some(p), preimage: Some(x), ..v }),
            None => (RunView { stage: Stage::ListPays, pay: Some(p), ..v }, rest_call(Node::Alice, RestRequestView::ListPays)),
        }),
        (Stage::ListPays, RunEventView::Reply(t)) => on_reply(v, t, |j: Json| match listpays_preimage_spec(j, text_or_empty(v.payment_hash)) {
            None => fail_with(v, missing_text("listpays"@, "payment preimage"@)),
            Some(x) => show_after_payment(RunView { pays: Some(j), preimage: Some(x), ..v }),
        }),
        (Stage::ShowAfter(n), RunEventView::Reply(t)) => on_reply(v, t, |j: Json| after_shown(v, n)),
        (Stage::Forward, RunEventView::Reply(t)) => on_reply(v, t, |j: Json| match settled_forward_spec(j) {
            Some(f) => match fee_msat_spec(f) {
                None => fail_with(v, missing_text("forward"@, "fee_msat"@)),
                Some(fee) => (RunView { stage: Stage::Done, ..v }, RunActionView::Save(record_items(v, f, fee))),
            },
            None => wait_event(v, Stage::Forward, Some(false), out_of_order),
        }),
        (Stage::Forward, RunEventView::Slept) => wait_event(v, Stage::Forward, None, out_of_order),
        _ => out_of_order,
    }
}

/// The stages at which the three node ids are known.
pub open spec fn ids_known(stage: Stage) -> bool {
    match stage {
        Stage::Connect(_) | Stage::FundChannel(_) | Stage::Channel(_) | Stage::Route | Stage::Clock
        | Stage::Invoice | Stage::Pay | Stage::ListPays | Stage::ShowAfter(_) | Stage::Forward
        | Stage::Done => true,
        Stage::MiningAddress(r) | Stage::Generating(r) | Stage::BlockCount(r) | Stage::Sync(r, _) => r == Round::Channels,
        _ => false,
    }
}

/// The stages that follow the route wait.
pub open spec fn after_route(stage: Stage) -> bool {
    match stage {
        Stage::Clock | Stage::Invoice | Stage::Pay | Stage::ListPays | Stage::ShowAfter(_)
        | Stage::Forward | Stage::Done => true,
        _ => false,
    }
}

/// The stages at which the invoice is known.
pub open spec fn invoice_known(stage: Stage) -> bool {
    match stage {
        Stage::Pay | Stage::ListPays | Stage::ShowAfter(_) | Stage::Forward | Stage::Done => true,
        _ => false,
    }
}

/// The stages at which the preimage is known.
pub open spec fn preimage_known(stage: Stage) -> bool {
    match stage {
        Stage::ShowAfter(_) | Stage::Forward | Stage::Done => true,
        _ => false,
    }
}

/// The preimage comes from the `pay` output, or, when that carries none, from
/// the `listpays` reply.
pub open spec fn preimage_from_replies(v: RunView) -> bool {
    match v.pay {
        Some(p) => match preimage_spec(p) {
            Some(x) => v.preimage == Some(x),
            None => match v.pays {
                Some(l) => v.preimage == listpays_preimage_spec(l, text_or_empty(v.payment_hash)),
                None => false,
            },
        },
        None => false,
    }
}

/// What every state of a run satisfies: each extracted item is the item of the
/// reply it was read from, and each stage has what it needs.
pub open spec fn run_wf(v: RunView) -> bool {
    &&& poll_wf(v.poll)
    &&& v.alice_id is Some ==> v.alice_id == member_of(v.alice_info, "id"@)
    &&& v.bob_id is Some ==> v.bob_id == member_of(v.bob_info, "id"@)
    &&& v.carol_id is Some ==> v.carol_id == member_of(v.carol_info, "id"@)
    &&& v.bolt11 is Some ==> v.bolt11 == member_of(v.invoice, "bolt11"@)
    &&& v.payment_hash is Some ==> v.payment_hash == member_of(v.invoice, "payment_hash"@)
    &&& v.preimage is Some ==> preimage_from_replies(v)
    &&& ids_known(v.stage) ==> v.alice_id is Some && v.bob_id is Some && v.carol_id is Some
    &&& v.stage != Stage::Channel(Node::Carol)
    &&& v.stage == Stage::Channel(Node::Bob) ==> v.alice_bob_normal
    &&& v.stage == Stage::Route ==> v.alice_bob_normal && v.bob_carol_normal
    &&& after_route(v.stage) ==> v.alice_bob_normal && v.bob_carol_normal && v.route_found
    &&& invoice_known(v.stage) ==> v.bolt11 is Some && v.payment_hash is Some
    &&& preimage_known(v.stage) ==> v.preimage is Some
    &&& v.stage != Stage::Failed && !ids_known(v.stage) ==> v.alice_id is None && v.bob_id is None && v.carol_id is None
    &&& v.stage != Stage::Failed && !invoice_known(v.stage) ==> v.bolt11 is None && v.payment_hash is None
    &&& v.stage != Stage::Failed && !preimage_known(v.stage) ==> v.preimage is None
    &&& v.stage == Stage::ListPays ==> (v.pay matches Some(p) && preimage_spec(p) is None)
}

/// Every step keeps `run_wf`; each step that saves the record, funds a
/// channel, pays, or sets a readiness mark happens at the one stage that does
/// it, as does each step that mines or connects to a peer; and after a REST
/// call the run awaits the reply of that call. This is the
/// one case analysis over the stages; the laws below rest on it.
#[verifier::rlimit(100)]
#[verifier::spinoff_prover]
proof fn lemma_step(v: RunView, e: RunEventView)
    requires
        run_wf(v),
    ensures
        run_wf(next_spec(v, e).0),
        next_spec(v, e).1 is Save ==> v.stage == Stage::Forward,
        next_spec(v, e).1 matches RunActionView::Rest { request: RestRequestView::FundChannel { .. }, .. }
            ==> v.stage is Connect || v.stage == Stage::FundChannel(Node::Alice),
        next_spec(v, e).1 matches RunActionView::LightningCli { call: LightningCliRequestView::Pay { .. }, .. }
            ==> v.stage == Stage::Invoice,
        !v.alice_bob_normal && next_spec(v, e).0.alice_bob_normal ==> v.stage == Stage::Channel(Node::Alice),
        !v.bob_carol_normal && next_spec(v, e).0.bob_carol_normal ==> v.stage == Stage::Channel(Node::Bob),
        !v.route_found && next_spec(v, e).0.route_found ==> v.stage == Stage::Route,
        next_spec(v, e).1 is Rest ==> awaited_call(next_spec(v, e).0.stage)
            == (next_spec(v, e).1->node, method_spec(next_spec(v, e).1->request)),
        next_spec(v, e).1 matches RunActionView::Cli { command: CliRequestView::GenerateToAddress { .. }, .. }
            ==> v.stage is MiningAddress,
        next_spec(v, e).1 matches RunActionView::Rest { request: RestRequestView::Connect { .. }, .. }
            ==> v.stage is ShowFunds || v.stage == Stage::Connect(Node::Alice),
        next_spec(v, e).1 matches RunActionView::Rest { request: RestRequestView::Invoice { .. }, .. }
            ==> v.stage == Stage::Clock,
        ({
            let w = next_spec(v, e).0;
            &&& w.stage != v.stage && (w.stage is Funding || w.stage is Channel || w.stage == Stage::Route
                || (w.stage is Sync && !(v.stage is Sync))) ==> w.poll == long_wait()
            &&& w.stage == Stage::Forward && v.stage != Stage::Forward ==> w.poll == forward_wait()
        }),
{
    assert forall|pe: PollEvent| poll_wf(#[trigger] poll_step_spec(v.poll, pe).0) by {
        poll_step_keeps_wf(v.poll, pe);
    }
    match v.stage {
        Stage::Start => {},
        Stage::Info(_) => {},
        Stage::ListWallets => {},
        Stage::LoadWallet => {},
        Stage::CreateWallet => {},
        Stage::MiningAddress(_) => {},
        Stage::Generating(_) => {},
        Stage::BlockCount(_) => {},
        Stage::Sync(_, _) => {},
        Stage::NewAddr(_) => {},
        Stage::Sending(_) => {},
        Stage::Funding(_) => {},
        Stage::ShowFunds(_) => {},
        Stage::Connect(_) => {},
        Stage::FundChannel(_) => {},
        Stage::Channel(_) => {},
        Stage::Route => {},
        Stage::Clock => {},
        Stage::Invoice => {},
        Stage::Pay => {},
        Stage::ListPays => {},
        Stage::ShowAfter(_) => {},
        Stage::Forward => {},
        Stage::Done => {},
        Stage::Failed => {},
    }
}

/// A REST reply that is not JSON ends the run with the decode error of the
/// call the run made: the reply awaited after a REST call is the reply of that
/// call, so the message names that node's address for that method.
pub proof fn decode_failure_names_the_call(v: RunView, e: RunEventView)
    requires
        run_wf(v),
        next_spec(v, e).1 is Rest,
    ensures
        ({
            let (w, a) = next_spec(v, e);
            &&& awaited_call(w.stage) == (a->node, method_spec(a->request))
            &&& decode_text(w.stage) == "error decoding response body for url ("@
                + rest_url_spec(a->node, method_spec(a->request)) + ")"@
        }),
{
    lemma_step(v, e);
}

/// The first mining round mines 101 blocks, so that a coinbase matures for the
/// funding payments; the rounds that confirm the funds and the channels mine 6
/// blocks each. Every round mines to the address the mining wallet just gave.
pub proof fn mining_rounds_mine_101_then_6(v: RunView, e: RunEventView)
    requires
        run_wf(v),
        next_spec(v, e).1 matches RunActionView::Cli { command: CliRequestView::GenerateToAddress { .. }, .. },
    ensures
        ({
            let c = next_spec(v, e).1->command;
            &&& e == RunEventView::CliOutput(c->GenerateToAddress_address)
            &&& v.stage is MiningAddress
            &&& v.stage == Stage::MiningAddress(Round::Initial) ==> c->GenerateToAddress_blocks == 101
            &&& v.stage == Stage::MiningAddress(Round::Funding) ==> c->GenerateToAddress_blocks == 6
            &&& v.stage == Stage::MiningAddress(Round::Channels) ==> c->GenerateToAddress_blocks == 6
        }),
{
    lemma_step(v, e);
}

/// Alice connects to Bob, at the id of Bob's `getinfo` reply and the host `bob`,
/// and Bob to Carol, at the id of Carol's `getinfo` reply and the host `carol`,
/// both on port 9735; a refused connection does not end the run.
pub proof fn connections_go_to_the_right_peers(v: RunView, e: RunEventView)
    requires
        run_wf(v),
        next_spec(v, e).1 matches RunActionView::Rest { request: RestRequestView::Connect { .. }, .. },
    ensures
        ({
            let a = next_spec(v, e).1;
            let r = a->request;
            &&& a->Rest_may_fail
            &&& r->Connect_port == 9735
            &&& {
                ||| a->node == Node::Alice && Some(r->Connect_id) == member_of(v.bob_info, "id"@)
                    && r->Connect_host == "bob"@
                ||| a->node == Node::Bob && Some(r->Connect_id) == member_of(v.carol_info, "id"@)
                    && r->Connect_host == "carol"@
            }
        }),
{
    lemma_step(v, e);
}

/// Each wait begins afresh with its schedule: the wait for Bob's settled
/// forward allows 60 checks 1 s apart; every other wait (the nodes' sync, the
/// funding outputs, the channels, the route) allows 90 checks 2 s apart.
pub proof fn waits_begin_with_their_schedule(v: RunView, e: RunEventView)
    requires
        run_wf(v),
    ensures
        ({
            let w = next_spec(v, e).0;
            &&& w.stage != v.stage && (w.stage is Funding || w.stage is Channel || w.stage == Stage::Route
                || (w.stage is Sync && !(v.stage is Sync)))
                ==> w.poll == (Poll { failed_checks: 0, limit: 90, interval_secs: 2 })
            &&& w.stage == Stage::Forward && v.stage != Stage::Forward
                ==> w.poll == (Poll { failed_checks: 0, limit: 60, interval_secs: 1 })
        }),
{
    lemma_step(v, e);
}

/// Carol's invoice is for 100,000,000 msat, under the label `multihop_`
/// followed by the time read just before, in decimal seconds, with the
/// description `Multi-Hop Payment`.
pub proof fn invoice_is_for_the_payment(v: RunView, e: RunEventView)
    requires
        run_wf(v),
        next_spec(v, e).1 matches RunActionView::Rest { request: RestRequestView::Invoice { .. }, .. },
    ensures
        ({
            let a = next_spec(v, e).1;
            let r = a->request;
            &&& a->node == Node::Carol && !a->Rest_may_fail
            &&& e is Clock
            &&& r->Invoice_amount_msat == "100000000msat"@
            &&& r->Invoice_label == "multihop_"@ + decimal(e->Clock_0 as nat)
            &&& r->Invoice_description == "Multi-Hop Payment"@
        }),
{
    lemma_step(v, e);
}

/// A sync check passes only when all three nodes report a height of at least
/// the chain's: on Carol's `getinfo` reply, the last of a check, the run leaves
/// the sync wait and goes on exactly when Alice's and Bob's heights of the
/// same check and Carol's height reach the target.
pub proof fn sync_waits_for_all_three_nodes(v: RunView, r: Round, t: Seq<u8>, j: Json)
    requires
        run_wf(v),
        v.stage == Stage::Sync(r, Node::Carol),
        reply_json(t) == Some(j),
    ensures
        ({
            let w = next_spec(v, RunEventView::Reply(t)).0;
            (v.alice_height >= v.target && v.bob_height >= v.target && block_height_spec(j) >= v.target)
                <==> !(w.stage is Sync || w.stage == Stage::Failed)
        }),
{
}

/// Every step keeps what every state of a run satisfies.
pub proof fn next_preserves_wf(v: RunView, e: RunEventView)
    requires
        run_wf(v),
    ensures
        run_wf(next_spec(v, e).0),
{
    lemma_step(v, e);
}

/// The record saved holds Carol's invoice's payment hash and BOLT11 string,
/// the preimage from `pay` or else from `listpays`, Alice's and Carol's ids
/// from their `getinfo` replies, and the fee and payment hash of the first
/// settled forward in Bob's `listforwards` reply.
pub proof fn record_comes_from_replies(v: RunView, e: RunEventView)
    requires
        run_wf(v),
        next_spec(v, e).1 is Save,
    ensures
        ({
            let items = next_spec(v, e).1->Save_0;
            &&& items.len() == 7
            &&& Some(items[0]) == member_of(v.invoice, "payment_hash"@)
            &&& Some(items[1]) == v.preimage && preimage_from_replies(v)
            &&& Some(items[2]) == member_of(v.invoice, "bolt11"@)
            &&& Some(items[3]) == member_of(v.alice_info, "id"@)
            &&& Some(items[4]) == member_of(v.carol_info, "id"@)
            &&& exists|t: Seq<u8>, j: Json, f: Json| {
                &&& e == RunEventView::Reply(t)
                &&& reply_json(t) == Some(j)
                &&& settled_forward_spec(j) == Some(f)
                &&& fee_msat_spec(f) == Some(items[5])
                &&& items[6] == match str_member(f, "payment_hash"@) {
                    Some(h) => h,
                    None => items[0],
                }
            }
        }),
{
    lemma_step(v, e);
    let t = e->Reply_0;
    let j = reply_json(t)->0;
    let f = settled_forward_spec(j)->0;
    assert(e == RunEventView::Reply(t));
}

/// Alice funds a channel to Bob of 500,000 sat and Bob one to Carol of
/// 300,000 sat, each to the id of the peer's `getinfo` reply; no other
/// channel is funded.
pub proof fn funding_goes_to_the_right_peers(v: RunView, e: RunEventView)
    requires
        run_wf(v),
        next_spec(v, e).1 matches RunActionView::Rest { request: RestRequestView::FundChannel { .. }, .. },
    ensures
        ({
            let a = next_spec(v, e).1;
            let id = a->request->FundChannel_id;
            let amount = a->request->FundChannel_amount;
            ||| a->node == Node::Alice && Some(id) == member_of(v.bob_info, "id"@) && amount == "500000sat"@
            ||| a->node == Node::Bob && Some(id) == member_of(v.carol_info, "id"@) && amount == "300000sat"@
        }),
{
    lemma_step(v, e);
}

/// Alice pays only after both channels reached `CHANNELD_NORMAL` and a route
/// to Carol was found, and she pays the BOLT11 string of Carol's invoice.
pub proof fn pay_follows_the_waits(v: RunView, e: RunEventView)
    requires
        run_wf(v),
        next_spec(v, e).1 matches RunActionView::LightningCli { call: LightningCliRequestView::Pay { .. }, .. },
    ensures
        ({
            let (w, a) = next_spec(v, e);
            &&& v.alice_bob_normal && v.bob_carol_normal && v.route_found
            &&& w.alice_bob_normal && w.bob_carol_normal && w.route_found
            &&& Some(a->call->bolt11) == member_of(w.invoice, "bolt11"@)
        }),
{
    lemma_step(v, e);
}

/// A readiness mark is set only by a successful check: Alice's channel by a
/// `listpeerchannels` reply of Alice that shows it normal with Bob, Bob's by one
/// of Bob that shows it normal with Carol, the route by a route query that
/// succeeded.
pub proof fn readiness_is_earned(v: RunView, e: RunEventView)
    requires
        run_wf(v),
    ensures
        ({
            let w = next_spec(v, e).0;
            &&& !v.alice_bob_normal && w.alice_bob_normal ==> v.stage == Stage::Channel(Node::Alice)
                && exists|t: Seq<u8>, j: Json| e == RunEventView::Reply(t) && reply_json(t) == Some(j)
                    && (array_member(j, "channels"@) matches Some(items) && any_where(items, normal_channel_pred(text_or_empty(v.bob_id))))
            &&& !v.bob_carol_normal && w.bob_carol_normal ==> v.stage == Stage::Channel(Node::Bob)
                && exists|t: Seq<u8>, j: Json| e == RunEventView::Reply(t) && reply_json(t) == Some(j)
                    && (array_member(j, "channels"@) matches Some(items) && any_where(items, normal_channel_pred(text_or_empty(v.carol_id))))
            &&& !v.route_found && w.route_found ==> v.stage == Stage::Route && e is CliOutput
        }),
{
    lemma_step(v, e);
    if let RunEventView::Reply(t) = e {
        if reply_json(t) is Some {
            let j = reply_json(t)->0;
            assert(e == RunEventView::Reply(t));
        }
    }
}

/// The characters of an optional text, or nothing.
fn text_of(o: &Option<String>) -> (res: String)
    ensures
        res@ == text_or_empty(opt_text(*o)),
{
    match o {
        Some(t) => t.clone(),
        None => String::new(),
    }
}

/// The string member `key` of a reply.
fn member_text(j: &Json, key: &str) -> (res: Option<String>)
    ensures
        opt_text(res) == str_member(*j, key@),
{
    match j.get(key) {
        Some(m) => match m.as_str() {
            Some(t) => Some(String::from_str(t)),
            None => None,
        },
        None => None,
    }
}

/// The string member `key` of an optional reply.
fn member_of_opt(o: &Option<Json>, key: &str) -> (res: Option<String>)
    ensures
        opt_text(res) == member_of(*o, key@),
{
    match o {
        Some(j) => member_text(j, key),
        None => None,
    }
}

fn rest(node: Node, request: RestRequest) -> (res: RunAction)
    ensures
        res@ == rest_call(node, request@),
{
    RunAction::Rest { node, request, may_fail: false }
}

fn tolerant(node: Node, request: RestRequest) -> (res: RunAction)
    ensures
        res@ == tolerant_call(node, request@),
{
    RunAction::Rest { node, request, may_fail: true }
}

fn cli(request: CliRequest) -> (res: RunAction)
    ensures
        res@ == cli_call(request@),
{
    RunAction::Cli { command: request, may_fail: false }
}

fn fail(s: RunState, e: FlowError) -> (res: (RunState, RunAction))
    ensures
        (res.0@, res.1@) == fail_with(s@, message_spec(e)),
{
    (RunState { stage: Stage::Failed, ..s }, RunAction::Fail(e))
}

fn missing(s: RunState, reply: &str, field: &str) -> (res: (RunState, RunAction))
    ensures
        (res.0@, res.1@) == fail_with(s@, missing_text(reply@, field@)),
{
    fail(s, FlowError::MissingField { reply: String::from_str(reply), field: String::from_str(field) })
}

fn check(s: &RunState, stage: Stage) -> (res: RunAction)
    ensures
        res@ == check_action(s@, stage),
{
    match stage {
        Stage::Funding(n) => rest(n, RestRequest::ListFunds),
        Stage::Channel(n) => rest(n, RestRequest::ListPeerChannels),
        Stage::Route => RunAction::LightningCli {
            call: LightningCliRequest::GetRoute { payee: text_of(&s.carol_id) },
            may_fail: true,
        },
        Stage::Forward => rest(Node::Bob, RestRequest::ListForwards),
        _ => rest(Node::Alice, RestRequest::GetInfo),
    }
}

fn timeout_error(s: &RunState, stage: Stage) -> (res: FlowError)
    ensures
        message_spec(res) == timeout_text(s@, stage),
{
    match stage {
        Stage::Funding(n) => FlowError::FundingNotConfirmed {
            node: String::from_str(if n == Node::Alice { "alice" } else { "bob" }),
        },
        Stage::Channel(n) => FlowError::ChannelNotNormal {
            peer: if n == Node::Alice { text_of(&s.bob_id) } else { text_of(&s.carol_id) },
        },
        Stage::Route => FlowError::NoRoute { payee: text_of(&s.carol_id) },
        Stage::Forward => FlowError::NoSettledForward,
        _ => FlowError::NodesNotSynced,
    }
}

/// What a wait does after its machine moved to `p` with `a`; on success the
/// state comes back unchanged for the caller to continue.
fn outcome(s: RunState, stage: Stage, p: Poll, a: PollAction) -> (res: Result<(RunState, RunAction), RunState>)
    ensures
        match res {
            Ok(r) => a != PollAction::Succeed && (r.0@, r.1@) == poll_outcome(
                s@,
                stage,
                p,
                a,
                fail_with(s@, message_spec(FlowError::OutOfOrder)),
            ),
            Err(t) => a == PollAction::Succeed && t@ == s@,
        },
{
    match a {
        PollAction::Check => {
            let act = check(&s, stage);
            Ok((RunState { stage, poll: p, ..s }, act))
        },
        PollAction::Sleep(secs) => Ok((RunState { stage, poll: p, ..s }, RunAction::Sleep(secs))),
        PollAction::Succeed => Err(s),
        PollAction::GiveUp => {
            let e = timeout_error(&s, stage);
            Ok((RunState { stage: Stage::Failed, poll: p, ..s }, RunAction::Fail(e)))
        },
    }
}

/// A wait takes in a check's outcome or a pause's end.
fn wait_step(s: RunState, stage: Stage, seen: Option<bool>) -> (res: Result<(RunState, RunAction), RunState>)
    ensures
        ({
            let e = match seen {
                Some(b) => PollEvent::Checked(b),
                None => PollEvent::Slept,
            };
            let (q, a) = poll_step_spec(s.poll, e);
            match res {
                Ok(r) => a != PollAction::Succeed && (r.0@, r.1@) == poll_outcome(
                    s@,
                    stage,
                    q,
                    a,
                    fail_with(s@, message_spec(FlowError::OutOfOrder)),
                ),
                Err(t) => a == PollAction::Succeed && t@ == s@,
            }
        }),
{
    let mut p = s.poll;
    let a = match seen {
        Some(b) => p.step(PollEvent::Checked(b)),
        None => p.step(PollEvent::Slept),
    };
    outcome(s, stage, p, a)
}

fn begin(s: RunState, stage: Stage, p0: Poll) -> (res: (RunState, RunAction))
    ensures
        (res.0@, res.1@) == begin_wait(s@, stage, p0),
{
    let mut p = p0;
    let a = p.step(PollEvent::Start);
    match outcome(s, stage, p, a) {
        Ok(r) => r,
        Err(t) => fail(t, FlowError::OutOfOrder),
    }
}

fn mining(s: RunState, r: Round) -> (res: (RunState, RunAction))
    ensures
        (res.0@, res.1@) == begin_mining(s@, r),
{
    (RunState { stage: Stage::MiningAddress(r), ..s }, cli(CliRequest::NewMiningAddress))
}

fn synced(s: RunState, r: Round) -> (res: (RunState, RunAction))
    ensures
        (res.0@, res.1@) == after_sync(s@, r),
{
    match r {
        Round::Initial => (RunState { stage: Stage::NewAddr(Node::Alice), ..s }, rest(Node::Alice, RestRequest::NewAddr)),
        Round::Funding => begin(s, Stage::Funding(Node::Alice), Poll::new(90, 2)),
        Round::Channels => begin(s, Stage::Channel(Node::Alice), Poll::new(90, 2)),
    }
}

fn paid(s: RunState) -> (res: (RunState, RunAction))
    ensures
        (res.0@, res.1@) == show_after_payment(s@),
{
    (RunState { stage: Stage::ShowAfter(Node::Alice), ..s }, rest(Node::Alice, RestRequest::ListFunds))
}

/// The node and the REST method whose reply a stage waits for.
fn awaited(stage: Stage) -> (res: (Node, &'static str))
    ensures
        res.0 == awaited_call(stage).0,
        res.1@ == awaited_call(stage).1,
{
    match stage {
        Stage::Info(n) | Stage::Sync(_, n) => (n, "getinfo"),
        Stage::NewAddr(n) => (n, "newaddr"),
        Stage::Funding(n) | Stage::ShowFunds(n) => (n, "listfunds"),
        Stage::Connect(n) => (n, "connect"),
        Stage::FundChannel(n) => (n, "fundchannel"),
        Stage::Channel(n) => (n, "listpeerchannels"),
        Stage::Invoice => (Node::Carol, "invoice"),
        Stage::ListPays => (Node::Alice, "listpays"),
        Stage::ShowAfter(Node::Carol) => (Node::Carol, "listinvoices"),
        Stage::ShowAfter(n) => (n, "listfunds"),
        Stage::Forward => (Node::Bob, "listforwards"),
        _ => (Node::Alice, "getinfo"),
    }
}

/// Reads the body of the REST reply awaited at `stage`: its document, or the
/// decode failure, which names the address called.
fn read_reply(stage: Stage, body: &Vec<u8>) -> (res: Result<Json, FlowError>)
    ensures
        match res {
            Ok(j) => reply_json(body@) == Some(j),
            Err(e) => reply_json(body@) is None && message_spec(e) == decode_text(stage),
        },
{
    match parse_reply(body.as_slice()) {
        Some((j, _)) => Ok(j),
        None => {
            let (n, method) = awaited(stage);
            Err(FlowError::Decode { url: n.rest_url(method) })
        },
    }
}

/// The caption under which the reply awaited at `stage` is shown.
fn caption_of(stage: Stage) -> (res: Option<&'static str>)
    ensures
        match res {
            Some(c) => shown_caption(stage) == Some(c@),
            None => shown_caption(stage) is None,
        },
{
    match stage {
        Stage::Info(Node::Alice) => Some("Alice Node Info"),
        Stage::Info(Node::Bob) => Some("Bob Node Info"),
        Stage::Info(Node::Carol) => Some("Carol Node Info"),
        Stage::ShowFunds(Node::Alice) => Some("Alice funds"),
        Stage::ShowFunds(Node::Bob) => Some("Bob funds"),
        Stage::ShowAfter(Node::Alice) => Some("Alice funds after payment"),
        Stage::ShowAfter(Node::Carol) => Some("Carol invoices"),
        Stage::ShowAfter(Node::Bob) => Some("Bob funds after forwarding"),
        _ => None,
    }
}

/// The line to show for `event` before the run takes it in: a reply that the
/// run shows, when it is JSON, as its caption, a colon and the reader's
/// rendering of the document.
pub fn shown_line(state: &RunState, event: &RunEvent) -> (res: Option<String>)
    ensures
        opt_text(res) == shown_line_spec(state@, event@),
{
    match event {
        RunEvent::Reply(body) => match caption_of(state.stage) {
            None => None,
            Some(c) => match parse_reply(body.as_slice()) {
                Some((_, d)) => Some(String::from_str(c).concat(": ").concat(d.as_str())),
                None => None,
            },
        },
        _ => None,
    }
}

impl RunState {
    /// A run that has not begun.
    pub fn new() -> (res: RunState)
        ensures
            res.stage == Stage::Start,
            res.alice_info is None && res.bob_info is None && res.carol_info is None,
            res.invoice is None && res.pay is None && res.pays is None,
            res.alice_id is None && res.bob_id is None && res.carol_id is None,
            res.bolt11 is None && res.payment_hash is None && res.preimage is None,
            !res.alice_bob_normal && !res.bob_carol_normal && !res.route_found,
            res.poll == long_wait(),
            res.target == 0 && res.alice_height == 0 && res.bob_height == 0,
            run_wf(res@),
    {
        RunState {
            stage: Stage::Start,
            poll: Poll::new(90, 2),
            target: 0,
            alice_height: 0,
            bob_height: 0,
            alice_info: None,
            bob_info: None,
            carol_info: None,
            invoice: None,
            pay: None,
            pays: None,
            alice_id: None,
            bob_id: None,
            carol_id: None,
            bolt11: None,
            payment_hash: None,
            preimage: None,
            alice_bob_normal: false,
            bob_carol_normal: false,
            route_found: false,
        }
    }
}

fn on_info(s: RunState, n: Node, t: Vec<u8>) -> (res: (RunState, RunAction))
    requires
        s.stage == Stage::Info(n),
    ensures
        (res.0@, res.1@) == next_spec(s@, RunEventView::Reply(t@)),
{
    match read_reply(s.stage, &t) {
        Err(e) => fail(s, e),
        Ok(j) => match n {
            Node::Alice => (RunState { stage: Stage::Info(Node::Bob), alice_info: Some(j), ..s }, rest(Node::Bob, RestRequest::GetInfo)),
            Node::Bob => (RunState { stage: Stage::Info(Node::Carol), bob_info: Some(j), ..s }, rest(Node::Carol, RestRequest::GetInfo)),
            Node::Carol => (RunState { stage: Stage::ListWallets, carol_info: Some(j), ..s }, cli(CliRequest::ListWallets)),
        },
    }
}

fn on_list_wallets(s: RunState, t: String) -> (res: (RunState, RunAction))
    requires
        s.stage == Stage::ListWallets,
    ensures
        (res.0@, res.1@) == next_spec(s@, RunEventView::CliOutput(t@)),
{
    match parse_json(t.as_str()) {
        Err(m) => fail(s, FlowError::NotJson { message: m }),
        Ok(j) => match crate::replies::wallet_loaded(&j) {
            Err(_) => fail(s, FlowError::WalletsNotArray),
            Ok(true) => mining(s, Round::Initial),
            Ok(false) => (RunState { stage: Stage::LoadWallet, ..s }, RunAction::Cli { command: CliRequest::LoadWallet, may_fail: true }),
        },
    }
}

fn on_block_count(s: RunState, r: Round, t: String) -> (res: (RunState, RunAction))
    requires
        s.stage == Stage::BlockCount(r),
    ensures
        (res.0@, res.1@) == next_spec(s@, RunEventView::CliOutput(t@)),
{
    match crate::text::parse_u64(t.as_str()) {
        Err(k) => fail(s, FlowError::NotANumber { kind: k }),
        Ok(h) => begin(RunState { target: h, ..s }, Stage::Sync(r, Node::Alice), Poll::new(90, 2)),
    }
}

fn on_sync_reply(s: RunState, r: Round, n: Node, t: Vec<u8>) -> (res: (RunState, RunAction))
    requires
        s.stage == Stage::Sync(r, n),
    ensures
        (res.0@, res.1@) == next_spec(s@, RunEventView::Reply(t@)),
{
    match read_reply(s.stage, &t) {
        Err(e) => fail(s, e),
        Ok(j) => {
            let h = crate::replies::block_height(&j);
            match n {
                Node::Alice => (RunState { stage: Stage::Sync(r, Node::Bob), alice_height: h, ..s }, rest(Node::Bob, RestRequest::GetInfo)),
                Node::Bob => (RunState { stage: Stage::Sync(r, Node::Carol), bob_height: h, ..s }, rest(Node::Carol, RestRequest::GetInfo)),
                Node::Carol => {
                    let ok = s.alice_height >= s.target && s.bob_height >= s.target && h >= s.target;
                    match wait_step(s, Stage::Sync(r, Node::Alice), Some(ok)) {
                        Ok(x) => x,
                        Err(u) => synced(u, r),
                    }
                },
            }
        },
    }
}

fn on_slept(s: RunState) -> (res: (RunState, RunAction))
    ensures
        (res.0@, res.1@) == next_spec(s@, RunEventView::Slept),
{
    let stage = s.stage;
    let waits = match stage {
        Stage::Sync(_, Node::Alice) | Stage::Funding(_) | Stage::Channel(_) | Stage::Route | Stage::Forward => true,
        _ => false,
    };
    if !waits {
        return fail(s, FlowError::OutOfOrder);
    }
    match wait_step(s, stage, None) {
        Ok(x) => x,
        Err(u) => fail(u, FlowError::OutOfOrder),
    }
}

fn on_new_addr(s: RunState, n: Node, t: Vec<u8>) -> (res: (RunState, RunAction))
    requires
        s.stage == Stage::NewAddr(n),
    ensures
        (res.0@, res.1@) == next_spec(s@, RunEventView::Reply(t@)),
{
    match read_reply(s.stage, &t) {
        Err(e) => fail(s, e),
        Ok(j) => match member_text(&j, "bech32") {
            None => missing(s, if n == Node::Alice { "Alice newaddr" } else { "Bob newaddr" }, "bech32"),
            Some(a) => (RunState { stage: Stage::Sending(n), ..s }, cli(CliRequest::SendToAddress { address: a })),
        },
    }
}

fn on_funding(s: RunState, n: Node, t: Vec<u8>) -> (res: (RunState, RunAction))
    requires
        s.stage == Stage::Funding(n),
    ensures
        (res.0@, res.1@) == next_spec(s@, RunEventView::Reply(t@)),
{
    match read_reply(s.stage, &t) {
        Err(e) => fail(s, e),
        Ok(j) => {
            let seen = crate::replies::has_confirmed_output(&j);
            match wait_step(s, Stage::Funding(n), Some(seen)) {
                Ok(x) => x,
                Err(u) => if n == Node::Alice {
                    begin(u, Stage::Funding(Node::Bob), Poll::new(90, 2))
                } else {
                    (RunState { stage: Stage::ShowFunds(Node::Alice), ..u }, rest(Node::Alice, RestRequest::ListFunds))
                },
            }
        },
    }
}

fn on_show_funds(s: RunState, n: Node, t: Vec<u8>) -> (res: (RunState, RunAction))
    requires
        s.stage == Stage::ShowFunds(n),
    ensures
        (res.0@, res.1@) == next_spec(s@, RunEventView::Reply(t@)),
{
    match read_reply(s.stage, &t) {
        Err(e) => fail(s, e),
        Ok(_) => if n == Node::Alice {
            (RunState { stage: Stage::ShowFunds(Node::Bob), ..s }, rest(Node::Bob, RestRequest::ListFunds))
        } else {
            let a = member_of_opt(&s.alice_info, "id");
            let b = member_of_opt(&s.bob_info, "id");
            let c = member_of_opt(&s.carol_info, "id");
            match (a, b, c) {
                (None, _, _) => missing(s, "Alice getinfo", "id"),
                (Some(_), None, _) => missing(s, "Bob getinfo", "id"),
                (Some(_), Some(_), None) => missing(s, "Carol getinfo", "id"),
                (Some(a), Some(b), Some(c)) => {
                    let req = RestRequest::Connect { id: b.clone(), host: String::from_str("bob"), port: 9735 };
                    (
                        RunState { stage: Stage::Connect(Node::Alice), alice_id: Some(a), bob_id: Some(b), carol_id: Some(c), ..s },
                        tolerant(Node::Alice, req),
                    )
                },
            }
        },
    }
}

fn on_connect(s: RunState, n: Node) -> (res: (RunState, RunAction))
    requires
        s.stage == Stage::Connect(n),
    ensures
        forall|t: Seq<u8>| (res.0@, res.1@) == next_spec(s@, RunEventView::Reply(t)),
        forall|t: Seq<char>| (res.0@, res.1@) == next_spec(s@, RunEventView::Failed(t)),
{
    if n == Node::Alice {
        let req = RestRequest::Connect { id: text_of(&s.carol_id), host: String::from_str("carol"), port: 9735 };
        (RunState { stage: Stage::Connect(Node::Bob), ..s }, tolerant(Node::Bob, req))
    } else {
        let req = RestRequest::FundChannel { id: text_of(&s.bob_id), amount: String::from_str("500000sat") };
        (RunState { stage: Stage::FundChannel(Node::Alice), ..s }, rest(Node::Alice, req))
    }
}

fn on_fund_channel(s: RunState, n: Node, t: Vec<u8>) -> (res: (RunState, RunAction))
    requires
        s.stage == Stage::FundChannel(n),
    ensures
        (res.0@, res.1@) == next_spec(s@, RunEventView::Reply(t@)),
{
    match read_reply(s.stage, &t) {
        Err(e) => fail(s, e),
        Ok(_) => if n == Node::Alice {
            let req = RestRequest::FundChannel { id: text_of(&s.carol_id), amount: String::from_str("300000sat") };
            (RunState { stage: Stage::FundChannel(Node::Bob), ..s }, rest(Node::Bob, req))
        } else {
            mining(s, Round::Channels)
        },
    }
}

fn on_channel(s: RunState, n: Node, t: Vec<u8>) -> (res: (RunState, RunAction))
    requires
        s.stage == Stage::Channel(n),
    ensures
        (res.0@, res.1@) == next_spec(s@, RunEventView::Reply(t@)),
{
    match read_reply(s.stage, &t) {
        Err(e) => fail(s, e),
        Ok(j) => {
            let peer = if n == Node::Alice { text_of(&s.bob_id) } else { text_of(&s.carol_id) };
            match crate::replies::channel_normal(&j, peer.as_str()) {
                Err(e) => fail(s, e),
                Ok(seen) => match wait_step(s, Stage::Channel(n), Some(seen)) {
                    Ok(x) => x,
                    Err(u) => if n == Node::Alice {
                        begin(RunState { alice_bob_normal: true, ..u }, Stage::Channel(Node::Bob), Poll::new(90, 2))
                    } else {
                        begin(RunState { bob_carol_normal: true, ..u }, Stage::Route, Poll::new(90, 2))
                    },
                },
            }
        },
    }
}

fn on_route(s: RunState, found: bool) -> (res: (RunState, RunAction))
    requires
        s.stage == Stage::Route,
    ensures
        found ==> forall|t: Seq<char>| (res.0@, res.1@) == next_spec(s@, RunEventView::CliOutput(t)),
        !found ==> forall|t: Seq<char>| (res.0@, res.1@) == next_spec(s@, RunEventView::Failed(t)),
{
    match wait_step(s, Stage::Route, Some(found)) {
        Ok(x) => x,
        Err(u) => if found {
            (RunState { stage: Stage::Clock, route_found: true, ..u }, RunAction::ReadClock)
        } else {
            fail(u, FlowError::OutOfOrder)
        },
    }
}

fn on_clock(s: RunState, secs: u64) -> (res: (RunState, RunAction))
    requires
        s.stage == Stage::Clock,
    ensures
        (res.0@, res.1@) == next_spec(s@, RunEventView::Clock(secs)),
{
    let req = RestRequest::Invoice {
        amount_msat: String::from_str("100000000msat"),
        label: crate::requests::invoice_label(secs),
        description: String::from_str("Multi-Hop Payment"),
    };
    (RunState { stage: Stage::Invoice, ..s }, rest(Node::Carol, req))
}

fn on_invoice(s: RunState, t: Vec<u8>) -> (res: (RunState, RunAction))
    requires
        s.stage == Stage::Invoice,
    ensures
        (res.0@, res.1@) == next_spec(s@, RunEventView::Reply(t@)),
{
    match read_reply(s.stage, &t) {
        Err(e) => fail(s, e),
        Ok(j) => {
            let b = member_text(&j, "bolt11");
            let h = member_text(&j, "payment_hash");
            match (b, h) {
                (None, _) => missing(s, "invoice", "bolt11"),
                (Some(_), None) => missing(s, "invoice", "payment_hash"),
                (Some(b), Some(h)) => {
                    let req = LightningCliRequest::Pay { bolt11: b.clone() };
                    (
                        RunState { stage: Stage::Pay, invoice: Some(j), bolt11: Some(b), payment_hash: Some(h), ..s },
                        RunAction::LightningCli { call: req, may_fail: false },
                    )
                },
            }
        },
    }
}

fn on_pay(s: RunState, t: String) -> (res: (RunState, RunAction))
    requires
        s.stage == Stage::Pay,
    ensures
        (res.0@, res.1@) == next_spec(s@, RunEventView::CliOutput(t@)),
{
    match parse_json(t.as_str()) {
        Err(m) => fail(s, FlowError::NotJson { message: m }),
        Ok(p) => match crate::replies::preimage_of(&p) {
            Some(x) => paid(RunState { pay: Some(p), preimage: Some(x), ..s }),
            None => (RunState { stage: Stage::ListPays, pay: Some(p), ..s }, rest(Node::Alice, RestRequest::ListPays)),
        },
    }
}

fn on_list_pays(s: RunState, t: Vec<u8>) -> (res: (RunState, RunAction))
    requires
        s.stage == Stage::ListPays,
    ensures
        (res.0@, res.1@) == next_spec(s@, RunEventView::Reply(t@)),
{
    match read_reply(s.stage, &t) {
        Err(e) => fail(s, e),
        Ok(j) => {
            let hash = text_of(&s.payment_hash);
            match crate::replies::preimage_in_listpays(&j, hash.as_str()) {
                Err(e) => fail(s, e),
                Ok(x) => paid(RunState { pays: Some(j), preimage: Some(x), ..s }),
            }
        },
    }
}

fn on_show_after(s: RunState, n: Node, t: Vec<u8>) -> (res: (RunState, RunAction))
    requires
        s.stage == Stage::ShowAfter(n),
    ensures
        (res.0@, res.1@) == next_spec(s@, RunEventView::Reply(t@)),
{
    match read_reply(s.stage, &t) {
        Err(e) => fail(s, e),
        Ok(_) => match n {
            Node::Alice => (RunState { stage: Stage::ShowAfter(Node::Carol), ..s }, rest(Node::Carol, RestRequest::ListInvoices)),
            Node::Carol => (RunState { stage: Stage::ShowAfter(Node::Bob), ..s }, rest(Node::Bob, RestRequest::ListFunds)),
            Node::Bob => begin(s, Stage::Forward, Poll::new(60, 1)),
        },
    }
}

fn on_forward(s: RunState, t: Vec<u8>) -> (res: (RunState, RunAction))
    requires
        s.stage == Stage::Forward,
    ensures
        (res.0@, res.1@) == next_spec(s@, RunEventView::Reply(t@)),
{
    match read_reply(s.stage, &t) {
        Err(e) => fail(s, e),
        Ok(j) => match crate::replies::settled_forward(&j) {
            Some(f) => match crate::replies::forward_fee_msat(f) {
                Err(e) => fail(s, e),
                Ok(fee) => {
                    let hash = text_of(&s.payment_hash);
                    let fwd = crate::replies::forwarded_hash(f, hash.as_str());
                    let record = PaymentRecord {
                        payment_hash: hash,
                        preimage: text_of(&s.preimage),
                        bolt11: text_of(&s.bolt11),
                        payer_id: text_of(&s.alice_id),
                        payee_id: text_of(&s.carol_id),
                        fee_msat: fee,
                        forwarded_hash: fwd,
                    };
                    assert(crate::report::record_fields(record) =~= record_items(s@, *f, fee@));
                    (RunState { stage: Stage::Done, ..s }, RunAction::Save(record))
                },
            },
            None => match wait_step(s, Stage::Forward, Some(false)) {
                Ok(x) => x,
                Err(u) => fail(u, FlowError::OutOfOrder),
            },
        },
    }
}

/// One step of the run, by value.
#[verifier::rlimit(30)]
fn step(s: RunState, e: RunEvent) -> (res: (RunState, RunAction))
    ensures
        (res.0@, res.1@) == next_spec(s@, e@),
{
    match (s.stage, e) {
        (Stage::Start, RunEvent::Begin) => (RunState { stage: Stage::Info(Node::Alice), ..s }, rest(Node::Alice, RestRequest::GetInfo)),
        (Stage::Info(n), RunEvent::Reply(t)) => on_info(s, n, t),
        (Stage::ListWallets, RunEvent::CliOutput(t)) => on_list_wallets(s, t),
        (Stage::LoadWallet, RunEvent::CliOutput(_)) => mining(s, Round::Initial),
        (Stage::LoadWallet, RunEvent::Failed(_)) => (RunState { stage: Stage::CreateWallet, ..s }, cli(CliRequest::CreateWallet)),
        (Stage::CreateWallet, RunEvent::CliOutput(_)) => mining(s, Round::Initial),
        (Stage::MiningAddress(r), RunEvent::CliOutput(a)) => {
            let blocks: u64 = match r {
                Round::Initial => 101,
                _ => 6,
            };
            (RunState { stage: Stage::Generating(r), ..s }, cli(CliRequest::GenerateToAddress { blocks, address: a }))
        },
        (Stage::Generating(r), RunEvent::CliOutput(_)) => (RunState { stage: Stage::BlockCount(r), ..s }, cli(CliRequest::BlockCount)),
        (Stage::BlockCount(r), RunEvent::CliOutput(t)) => on_block_count(s, r, t),
        (Stage::Sync(r, n), RunEvent::Reply(t)) => on_sync_reply(s, r, n, t),
        (Stage::NewAddr(n), RunEvent::Reply(t)) => on_new_addr(s, n, t),
        (Stage::Sending(n), RunEvent::CliOutput(_)) => if n == Node::Alice {
            (RunState { stage: Stage::NewAddr(Node::Bob), ..s }, rest(Node::Bob, RestRequest::NewAddr))
        } else {
            mining(s, Round::Funding)
        },
        (Stage::Funding(n), RunEvent::Reply(t)) => on_funding(s, n, t),
        (Stage::ShowFunds(n), RunEvent::Reply(t)) => on_show_funds(s, n, t),
        (Stage::Connect(n), RunEvent::Reply(_)) => on_connect(s, n),
        (Stage::Connect(n), RunEvent::Failed(_)) => on_connect(s, n),
        (Stage::FundChannel(n), RunEvent::Reply(t)) => on_fund_channel(s, n, t),
        (Stage::Channel(n), RunEvent::Reply(t)) => on_channel(s, n, t),
        (Stage::Route, RunEvent::CliOutput(_)) => on_route(s, true),
        (Stage::Route, RunEvent::Failed(_)) => on_route(s, false),
        (Stage::Clock, RunEvent::Clock(secs)) => on_clock(s, secs),
        (Stage::Invoice, RunEvent::Reply(t)) => on_invoice(s, t),
        (Stage::Pay, RunEvent::CliOutput(t)) => on_pay(s, t),
        (Stage::ListPays, RunEvent::Reply(t)) => on_list_pays(s, t),
        (Stage::ShowAfter(n), RunEvent::Reply(t)) => on_show_after(s, n, t),
        (Stage::Forward, RunEvent::Reply(t)) => on_forward(s, t),
        (_, RunEvent::Slept) => on_slept(s),
        _ => fail(s, FlowError::OutOfOrder),
    }
}

/// Takes in what happened and says what to do next.
pub fn next(state: &mut RunState, event: RunEvent) -> (action: RunAction)
    ensures
        (final(state)@, action@) == next_spec(old(state)@, event@),
        run_wf(old(state)@) ==> run_wf(final(state)@),
{
    proof {
        if run_wf(old(state)@) {
            next_preserves_wf(old(state)@, event@);
        }
    }
    let mut current = RunState::new();
    std::mem::swap(&mut current, state);
    let (following, action) = step(current, event);
    *state = following;
    action
}

} // verus!
