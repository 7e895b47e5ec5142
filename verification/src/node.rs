//! The three Lightning nodes of the regtest network and how their REST
//! interfaces are reached.
use vstd::prelude::*;
use crate::text::{decimal, u64_to_decimal};

verus! {

/// A Lightning node of the run: Alice pays, Bob routes, Carol is paid.
#[derive(Clone, Copy, Debug, PartialEq, Eq, Structural)]
pub enum Node {
    Alice,
    Bob,
    Carol,
}

/// The local port of each node's REST interface.
pub open spec fn rest_port_spec(node: Node) -> u16 {
    match node {
        Node::Alice => 3010,
        Node::Bob => 3011,
        Node::Carol => 3012,
    }
}

/// The environment variable that holds each node's rune.
pub open spec fn rune_var_spec(node: Node) -> Seq<char> {
    match node {
        Node::Alice => "ALICE_RUNE"@,
        Node::Bob => "BOB_RUNE"@,
        Node::Carol => "CAROL_RUNE"@,
    }
}

/// The address of the REST method `method` on `node`.
pub open spec fn rest_url_spec(node: Node, method: Seq<char>) -> Seq<char> {
    "http://localhost:"@ + decimal(rest_port_spec(node) as nat) + "/v1/"@ + method
}

impl Node {
    /// The local port of the node's REST interface.
    pub fn rest_port(&self) -> (port: u16)
        ensures
            port == rest_port_spec(*self),
    {
        match self {
            Node::Alice => 3010,
            Node::Bob => 3011,
            Node::Carol => 3012,
        }
    }

    /// The environment variable that holds the node's rune.
    pub fn rune_var(&self) -> (var: &'static str)
        ensures
            var@ == rune_var_spec(*self),
    {
        match self {
            Node::Alice => "ALICE_RUNE",
            Node::Bob => "BOB_RUNE",
            Node::Carol => "CAROL_RUNE",
        }
    }

    /// The address of the REST method `method` on the node.
    pub fn rest_url(&self, method: &str) -> (url: String)
        ensures
            url@ == rest_url_spec(*self, method@),
    {
        let port = u64_to_decimal(self.rest_port() as u64);
        String::from_str("http://localhost:").concat(port.as_str()).concat("/v1/").concat(method)
    }
}

/// Each node has its own REST port.
pub proof fn rest_ports_distinct(a: Node, b: Node)
    ensures
        rest_port_spec(a) == rest_port_spec(b) <==> a == b,
{
}

/// Each node answers at its own address: for the same method, the addresses of
/// two different nodes differ.
pub proof fn rest_urls_distinct(a: Node, b: Node, method: Seq<char>)
    requires
        a != b,
    ensures
        rest_url_spec(a, method) != rest_url_spec(b, method),
{
    reveal_with_fuel(decimal, 5);
    reveal_strlit("http://localhost:");
    let pa = decimal(rest_port_spec(a) as nat);
    let pb = decimal(rest_port_spec(b) as nat);
    assert(pa.len() == 4 && pb.len() == 4);
    assert(pa[3] != pb[3]);
    let k: int = "http://localhost:"@.len() as int + 3;
    assert(rest_url_spec(a, method)[k] == pa[3]);
    assert(rest_url_spec(b, method)[k] == pb[3]);
}

} // verus!
