//! The requests the run sends: `bitcoin-cli` and `lightning-cli` command lines
//! run through `docker exec`, and REST calls with their JSON parameters.
use vstd::prelude::*;
use crate::json::{Json, JsonNumber, get_spec, lemma_lookup_at, str_member, u64_spec};
use crate::text::{decimal, u64_to_decimal};

verus! {

/// The characters of each string of a list.
pub open spec fn texts(v: Seq<String>) -> Seq<Seq<char>> {
    v.map_values(|s: String| s@)
}

/// The `docker` arguments that run `bitcoin-cli` on the regtest chain as the RPC user.
pub open spec fn bitcoin_cli_prefix() -> Seq<Seq<char>> {
    seq![
        "exec"@,
        "bitcoind"@,
        "bitcoin-cli"@,
        "-regtest"@,
        "-rpcuser=alice"@,
        "-rpcpassword=password"@,
    ]
}

/// The `docker` arguments that run `lightning-cli` on Alice's node.
pub open spec fn lightning_cli_prefix() -> Seq<Seq<char>> {
    seq!["exec"@, "alice"@, "lightning-cli"@, "--network=regtest"@]
}

/// A `bitcoin-cli` call of the run.
#[derive(Debug)]
pub enum CliRequest {
    /// List the loaded wallets.
    ListWallets,
    /// Load the mining wallet.
    LoadWallet,
    /// Create the mining wallet.
    CreateWallet,
    /// A fresh address of the mining wallet.
    NewMiningAddress,
    /// Mine `blocks` blocks paying `address`.
    GenerateToAddress { blocks: u64, address: String },
    /// Send 0.01 BTC from the mining wallet to `address`.
    SendToAddress { address: String },
    /// The height of the chain.
    BlockCount,
}

/// A `bitcoin-cli` call, with texts as characters.
pub enum CliRequestView {
    ListWallets,
    LoadWallet,
    CreateWallet,
    NewMiningAddress,
    GenerateToAddress { blocks: u64, address: Seq<char> },
    SendToAddress { address: Seq<char> },
    BlockCount,
}

impl View for CliRequest {
    type V = CliRequestView;

    open spec fn view(&self) -> CliRequestView {
        match self {
            CliRequest::ListWallets => CliRequestView::ListWallets,
            CliRequest::LoadWallet => CliRequestView::LoadWallet,
            CliRequest::CreateWallet => CliRequestView::CreateWallet,
            CliRequest::NewMiningAddress => CliRequestView::NewMiningAddress,
            CliRequest::GenerateToAddress { blocks, address } => CliRequestView::GenerateToAddress {
                blocks: *blocks,
                address: address@,
            },
            CliRequest::SendToAddress { address } => CliRequestView::SendToAddress { address: address@ },
            CliRequest::BlockCount => CliRequestView::BlockCount,
        }
    }
}

/// The `bitcoin-cli` arguments of each call.
pub open spec fn cli_args_spec(r: CliRequest) -> Seq<Seq<char>> {
    match r {
        CliRequest::ListWallets => seq!["listwallets"@],
        CliRequest::LoadWallet => seq!["loadwallet"@, "mining_wallet"@],
        CliRequest::CreateWallet => seq!["createwallet"@, "mining_wallet"@],
        CliRequest::NewMiningAddress => seq!["-rpcwallet=mining_wallet"@, "getnewaddress"@],
        CliRequest::GenerateToAddress { blocks, address } => seq![
            "-rpcwallet=mining_wallet"@,
            "generatetoaddress"@,
            decimal(blocks as nat),
            address@,
        ],
        CliRequest::SendToAddress { address } => seq![
            "-rpcwallet=mining_wallet"@,
            "sendtoaddress"@,
            address@,
            "0.01000000"@,
        ],
        CliRequest::BlockCount => seq!["getblockcount"@],
    }
}

fn owned(s: &str) -> (res: String)
    ensures
        res@ == s@,
{
    String::from_str(s)
}

impl CliRequest {
    /// The `bitcoin-cli` arguments of the call.
    pub fn args(&self) -> (res: Vec<String>)
        ensures
            texts(res@) == cli_args_spec(*self),
    {
        let mut v: Vec<String> = Vec::new();
        match self {
            CliRequest::ListWallets => {
                v.push(owned("listwallets"));
            },
            CliRequest::LoadWallet => {
                v.push(owned("loadwallet"));
                v.push(owned("mining_wallet"));
            },
            CliRequest::CreateWallet => {
                v.push(owned("createwallet"));
                v.push(owned("mining_wallet"));
            },
            CliRequest::NewMiningAddress => {
                v.push(owned("-rpcwallet=mining_wallet"));
                v.push(owned("getnewaddress"));
            },
            CliRequest::GenerateToAddress { blocks, address } => {
                v.push(owned("-rpcwallet=mining_wallet"));
                v.push(owned("generatetoaddress"));
                v.push(u64_to_decimal(*blocks));
                v.push(address.clone());
            },
            CliRequest::SendToAddress { address } => {
                v.push(owned("-rpcwallet=mining_wallet"));
                v.push(owned("sendtoaddress"));
                v.push(address.clone());
                v.push(owned("0.01000000"));
            },
            CliRequest::BlockCount => {
                v.push(owned("getblockcount"));
            },
        }
        assert(texts(v@) =~= cli_args_spec(*self));
        v
    }
}

/// The `docker` arguments that run `bitcoin-cli` with `args`.
pub fn bitcoin_cli_command(args: Vec<String>) -> (res: Vec<String>)
    ensures
        texts(res@) == bitcoin_cli_prefix() + texts(args@),
{
    let mut v: Vec<String> = Vec::new();
    v.push(owned("exec"));
    v.push(owned("bitcoind"));
    v.push(owned("bitcoin-cli"));
    v.push(owned("-regtest"));
    v.push(owned("-rpcuser=alice"));
    v.push(owned("-rpcpassword=password"));
    let ghost head = v@;
    assert(texts(head) =~= bitcoin_cli_prefix());
    let mut rest = args;
    v.append(&mut rest);
    assert(texts(v@) =~= texts(head) + texts(args@));
    v
}

/// The `lightning-cli` arguments of each call Alice makes from the command line.
pub open spec fn lightning_cli_args_spec(r: LightningCliRequest) -> Seq<Seq<char>> {
    match r {
        LightningCliRequest::GetRoute { payee } => seq![
            "getroute"@,
            payee@,
            "100000000msat"@,
            "1"@,
        ],
        LightningCliRequest::Pay { bolt11 } => seq!["pay"@, bolt11@],
    }
}

/// A `lightning-cli` call on Alice's node.
#[derive(Debug)]
pub enum LightningCliRequest {
    /// Ask for a route that carries 100,000 sat to `payee` with risk factor 1.
    GetRoute { payee: String },
    /// Pay the BOLT11 invoice `bolt11`.
    Pay { bolt11: String },
}

/// A `lightning-cli` call, with texts as characters.
pub enum LightningCliRequestView {
    GetRoute { payee: Seq<char> },
    Pay { bolt11: Seq<char> },
}

impl View for LightningCliRequest {
    type V = LightningCliRequestView;

    open spec fn view(&self) -> LightningCliRequestView {
        match self {
            LightningCliRequest::GetRoute { payee } => LightningCliRequestView::GetRoute { payee: payee@ },
            LightningCliRequest::Pay { bolt11 } => LightningCliRequestView::Pay { bolt11: bolt11@ },
        }
    }
}

impl LightningCliRequest {
    /// The `docker` arguments that run the call.
    pub fn command(&self) -> (res: Vec<String>)
        ensures
            texts(res@) == lightning_cli_prefix() + lightning_cli_args_spec(*self),
    {
        let mut v: Vec<String> = Vec::new();
        v.push(owned("exec"));
        v.push(owned("alice"));
        v.push(owned("lightning-cli"));
        v.push(owned("--network=regtest"));
        match self {
            LightningCliRequest::GetRoute { payee } => {
                v.push(owned("getroute"));
                v.push(payee.clone());
                v.push(owned("100000000msat"));
                v.push(owned("1"));
            },
            LightningCliRequest::Pay { bolt11 } => {
                v.push(owned("pay"));
                v.push(bolt11.clone());
            },
        }
        assert(texts(v@) =~= lightning_cli_prefix() + lightning_cli_args_spec(*self));
        v
    }
}

/// The keys of an object's members, in order.
pub open spec fn keys_spec(v: Json) -> Option<Seq<Seq<char>>> {
    match v {
        Json::Object(members) => Some(members@.map_values(|m: (String, Json)| m.0@)),
        _ => None,
    }
}

/// Whether `v` has a member `key` that is the unsigned integer `n`.
pub open spec fn has_u64_member(v: Json, key: Seq<char>, n: u64) -> bool {
    match get_spec(v, key) {
        Some(m) => u64_spec(m) == Some(n),
        None => false,
    }
}

/// A call of a node's REST interface.
#[derive(Debug)]
pub enum RestRequest {
    /// The node's identity and view of the chain.
    GetInfo,
    /// A fresh on-chain address of the node.
    NewAddr,
    /// The node's on-chain outputs and channels.
    ListFunds,
    /// The node's channels with its peers.
    ListPeerChannels,
    /// The payments the node forwarded.
    ListForwards,
    /// The payments the node made.
    ListPays,
    /// The invoices the node issued.
    ListInvoices,
    /// Connect to the peer `id` at `host`:`port`.
    Connect { id: String, host: String, port: u64 },
    /// Open a channel of `amount` to the peer `id`.
    FundChannel { id: String, amount: String },
    /// Issue an invoice of `amount_msat` under `label` with `description`.
    Invoice { amount_msat: String, label: String, description: String },
}

/// A REST call, with texts as characters.
pub enum RestRequestView {
    GetInfo,
    NewAddr,
    ListFunds,
    ListPeerChannels,
    ListForwards,
    ListPays,
    ListInvoices,
    Connect { id: Seq<char>, host: Seq<char>, port: u64 },
    FundChannel { id: Seq<char>, amount: Seq<char> },
    Invoice { amount_msat: Seq<char>, label: Seq<char>, description: Seq<char> },
}

impl View for RestRequest {
    type V = RestRequestView;

    open spec fn view(&self) -> RestRequestView {
        match self {
            RestRequest::GetInfo => RestRequestView::GetInfo,
            RestRequest::NewAddr => RestRequestView::NewAddr,
            RestRequest::ListFunds => RestRequestView::ListFunds,
            RestRequest::ListPeerChannels => RestRequestView::ListPeerChannels,
            RestRequest::ListForwards => RestRequestView::ListForwards,
            RestRequest::ListPays => RestRequestView::ListPays,
            RestRequest::ListInvoices => RestRequestView::ListInvoices,
            RestRequest::Connect { id, host, port } => RestRequestView::Connect {
                id: id@,
                host: host@,
                port: *port,
            },
            RestRequest::FundChannel { id, amount } => RestRequestView::FundChannel {
                id: id@,
                amount: amount@,
            },
            RestRequest::Invoice { amount_msat, label, description } => RestRequestView::Invoice {
                amount_msat: amount_msat@,
                label: label@,
                description: description@,
            },
        }
    }
}

/// The REST method of each call.
pub open spec fn method_spec(r: RestRequestView) -> Seq<char> {
    match r {
        RestRequestView::GetInfo => "getinfo"@,
        RestRequestView::NewAddr => "newaddr"@,
        RestRequestView::ListFunds => "listfunds"@,
        RestRequestView::ListPeerChannels => "listpeerchannels"@,
        RestRequestView::ListForwards => "listforwards"@,
        RestRequestView::ListPays => "listpays"@,
        RestRequestView::ListInvoices => "listinvoices"@,
        RestRequestView::Connect { .. } => "connect"@,
        RestRequestView::FundChannel { .. } => "fundchannel"@,
        RestRequestView::Invoice { .. } => "invoice"@,
    }
}

/// Whether `p` is the JSON body that the call `r` sends: `null` for `getinfo`,
/// an empty object for the other calls without arguments, and otherwise an
/// object with exactly the call's arguments as members.
pub open spec fn params_spec(r: RestRequest, p: Json) -> bool {
    match r {
        RestRequest::GetInfo => p matches Json::Null,
        RestRequest::Connect { id, host, port } => {
            &&& keys_spec(p) == Some(seq!["id"@, "host"@, "port"@])
            &&& str_member(p, "id"@) == Some(id@)
            &&& str_member(p, "host"@) == Some(host@)
            &&& has_u64_member(p, "port"@, port)
        },
        RestRequest::FundChannel { id, amount } => {
            &&& keys_spec(p) == Some(seq!["id"@, "amount"@])
            &&& str_member(p, "id"@) == Some(id@)
            &&& str_member(p, "amount"@) == Some(amount@)
        },
        RestRequest::Invoice { amount_msat, label, description } => {
            &&& keys_spec(p) == Some(seq!["amount_msat"@, "label"@, "description"@])
            &&& str_member(p, "amount_msat"@) == Some(amount_msat@)
            &&& str_member(p, "label"@) == Some(label@)
            &&& str_member(p, "description"@) == Some(description@)
        },
        _ => keys_spec(p) == Some(Seq::<Seq<char>>::empty()),
    }
}

fn str_value(s: &String) -> (res: Json)
    ensures
        crate::json::str_spec(res) == Some(s@),
{
    Json::Str(s.clone())
}

impl RestRequest {
    /// The REST method of the call.
    pub fn method(&self) -> (res: &'static str)
        ensures
            res@ == method_spec(self@),
    {
        match self {
            RestRequest::GetInfo => "getinfo",
            RestRequest::NewAddr => "newaddr",
            RestRequest::ListFunds => "listfunds",
            RestRequest::ListPeerChannels => "listpeerchannels",
            RestRequest::ListForwards => "listforwards",
            RestRequest::ListPays => "listpays",
            RestRequest::ListInvoices => "listinvoices",
            RestRequest::Connect { .. } => "connect",
            RestRequest::FundChannel { .. } => "fundchannel",
            RestRequest::Invoice { .. } => "invoice",
        }
    }

    /// The JSON body of the call.
    pub fn params(&self) -> (res: Json)
        ensures
            params_spec(*self, res),
    {
        proof {
            reveal_strlit("id");
            reveal_strlit("host");
            reveal_strlit("port");
            reveal_strlit("amount");
            reveal_strlit("amount_msat");
            reveal_strlit("label");
            reveal_strlit("description");
            assert("id"@.len() == 2);
            assert("host"@.len() == 4);
            assert("port"@.len() == 4);
            assert("amount"@.len() == 6);
            assert("amount_msat"@.len() == 11);
            assert("label"@.len() == 5);
            assert("description"@.len() == 11);
            assert("host"@[0] != "port"@[0]);
            assert("amount_msat"@[0] != "description"@[0]);
        }
        match self {
            RestRequest::GetInfo => Json::Null,
            RestRequest::Connect { id, host, port } => {
                let mut m: Vec<(String, Json)> = Vec::new();
                m.push((owned("id"), str_value(id)));
                m.push((owned("host"), str_value(host)));
                m.push((owned("port"), Json::Number(JsonNumber::PosInt(*port))));
                proof {
                    lemma_lookup_at(m@, "id"@, 0);
                    lemma_lookup_at(m@, "host"@, 1);
                    lemma_lookup_at(m@, "port"@, 2);
                }
                let res = Json::Object(m);
                assert(keys_spec(res).unwrap() =~= seq!["id"@, "host"@, "port"@]);
                res
            },
            RestRequest::FundChannel { id, amount } => {
                let mut m: Vec<(String, Json)> = Vec::new();
                m.push((owned("id"), str_value(id)));
                m.push((owned("amount"), str_value(amount)));
                proof {
                    lemma_lookup_at(m@, "id"@, 0);
                    lemma_lookup_at(m@, "amount"@, 1);
                }
                let res = Json::Object(m);
                assert(keys_spec(res).unwrap() =~= seq!["id"@, "amount"@]);
                res
            },
            RestRequest::Invoice { amount_msat, label, description } => {
                let mut m: Vec<(String, Json)> = Vec::new();
                m.push((owned("amount_msat"), str_value(amount_msat)));
                m.push((owned("label"), str_value(label)));
                m.push((owned("description"), str_value(description)));
                proof {
                    lemma_lookup_at(m@, "amount_msat"@, 0);
                    lemma_lookup_at(m@, "label"@, 1);
                    lemma_lookup_at(m@, "description"@, 2);
                }
                let res = Json::Object(m);
                assert(keys_spec(res).unwrap() =~= seq!["amount_msat"@, "label"@, "description"@]);
                res
            },
            _ => {
                let m: Vec<(String, Json)> = Vec::new();
                let res = Json::Object(m);
                assert(keys_spec(res).unwrap() =~= Seq::<Seq<char>>::empty());
                res
            },
        }
    }
}

/// The label of the run's invoice: `multihop_` and the time in seconds.
pub fn invoice_label(unix_secs: u64) -> (res: String)
    ensures
        res@ == "multihop_"@ + decimal(unix_secs as nat),
{
    let digits = u64_to_decimal(unix_secs);
    String::from_str("multihop_").concat(digits.as_str())
}

} // verus!
