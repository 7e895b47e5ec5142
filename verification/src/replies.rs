//! What the run reads from the nodes' replies: the checks that its waits poll,
//! and the items it extracts for the payment record.
use vstd::prelude::*;
use crate::error::FlowError;
use crate::json::{Json, array_spec, bool_spec, get_spec, has_str_member, i64_spec, str_member, str_member_is, str_spec, u64_spec};
use crate::text::{i64_to_decimal, signed_decimal, trim_end_matches, trim_end_matches_spec};

verus! {

/// The first element of `items` that satisfies `p`.
pub open spec fn first_where(items: Seq<Json>, p: spec_fn(Json) -> bool) -> Option<Json>
    decreases items.len(),
{
    if items.len() == 0 {
        None
    } else if p(items[0]) {
        Some(items[0])
    } else {
        first_where(items.drop_first(), p)
    }
}

/// Whether some element of `items` satisfies `p`.
pub open spec fn any_where(items: Seq<Json>, p: spec_fn(Json) -> bool) -> bool {
    exists|i: int| 0 <= i < items.len() && p(#[trigger] items[i])
}

/// The elements of the array member `key` of `v`, when it has one.
pub open spec fn array_member(v: Json, key: Seq<char>) -> Option<Seq<Json>> {
    match get_spec(v, key) {
        Some(m) => array_spec(m),
        None => None,
    }
}

/// A wallet name that is the mining wallet.
pub open spec fn mining_wallet_pred() -> spec_fn(Json) -> bool {
    |v: Json| str_spec(v) == Some("mining_wallet"@)
}

/// A channel with `peer` in the `CHANNELD_NORMAL` state.
pub open spec fn normal_channel_pred(peer: Seq<char>) -> spec_fn(Json) -> bool {
    |c: Json| has_str_member(c, "peer_id"@, peer) && has_str_member(c, "state"@, "CHANNELD_NORMAL"@)
}

/// A forward whose status is `settled`.
pub open spec fn settled_pred() -> spec_fn(Json) -> bool {
    |f: Json| has_str_member(f, "status"@, "settled"@)
}

/// An on-chain output that is confirmed and not reserved.
pub open spec fn spendable_output_pred() -> spec_fn(Json) -> bool {
    |o: Json|
        has_str_member(o, "status"@, "confirmed"@) && match get_spec(o, "reserved"@) {
            Some(r) => bool_spec(r) == Some(false),
            None => false,
        }
}

/// A completed payment with payment hash `hash`.
pub open spec fn completed_pay_pred(hash: Seq<char>) -> spec_fn(Json) -> bool {
    |p: Json| has_str_member(p, "payment_hash"@, hash) && has_str_member(p, "status"@, "complete"@)
}

/// Whether `e` is the failure "the reply to `reply` lacks `field`".
pub open spec fn is_missing(e: FlowError, reply: Seq<char>, field: Seq<char>) -> bool {
    match e {
        FlowError::MissingField { reply: r, field: f } => r@ == reply && f@ == field,
        _ => false,
    }
}

/// The first element satisfying a predicate is an element that satisfies it,
/// with none before it, and there is one exactly when some element satisfies it.
pub proof fn first_where_is_first(items: Seq<Json>, p: spec_fn(Json) -> bool)
    ensures
        first_where(items, p) is Some <==> any_where(items, p),
        first_where(items, p) is Some ==> exists|i: int|
            0 <= i < items.len() && items[i] == first_where(items, p)->0 && p(items[i])
                && forall|j: int| 0 <= j < i ==> !p(#[trigger] items[j]),
    decreases items.len(),
{
    if items.len() > 0 {
        let rest = items.drop_first();
        first_where_is_first(rest, p);
        if !p(items[0]) {
            if any_where(items, p) {
                let i: int = choose|i: int| 0 <= i < items.len() && p(#[trigger] items[i]);
                assert(rest[i - 1] == items[i]);
            }
            if any_where(rest, p) {
                let i: int = choose|i: int| 0 <= i < rest.len() && p(#[trigger] rest[i]);
                assert(items[i + 1] == rest[i]);
            }
            if first_where(rest, p) is Some {
                let i: int = choose|i: int|
                    0 <= i < rest.len() && rest[i] == first_where(rest, p)->0 && p(rest[i])
                        && forall|j: int| 0 <= j < i ==> !p(#[trigger] rest[j]);
                assert(items[i + 1] == rest[i]);
                assert forall|j: int| 0 <= j < i + 1 implies !p(#[trigger] items[j]) by {
                    if j > 0 {
                        assert(items[j] == rest[j - 1]);
                    }
                }
            }
        }
    }
}

/// Whether the `listwallets` reply names the mining wallet; a reply that is not
/// an array is a failure.
pub fn wallet_loaded(wallets: &Json) -> (res: Result<bool, FlowError>)
    ensures
        match array_spec(*wallets) {
            Some(items) => res == Ok::<bool, FlowError>(any_where(items, mining_wallet_pred())),
            None => res matches Err(FlowError::WalletsNotArray),
        },
{
    match wallets.as_array() {
        None => Err(FlowError::WalletsNotArray),
        Some(items) => {
            let n: usize = items.len();
            let mut i: usize = 0;
            while i < n
                invariant
                    n == items@.len(),
                    i <= n,
                    array_spec(*wallets) == Some(items@),
                    forall|j: int| 0 <= j < i ==> !mining_wallet_pred()(#[trigger] items@[j]),
                decreases n - i,
            {
                let found = match items[i].as_str() {
                    Some(s) => crate::text::str_eq(s, "mining_wallet"),
                    None => false,
                };
                if found {
                    assert(mining_wallet_pred()(items@[i as int]));
                    return Ok(true);
                }
                i = i + 1;
            }
            Ok(false)
        },
    }
}

/// Whether the `listpeerchannels` reply shows a channel with `peer_id` in the
/// `CHANNELD_NORMAL` state; a reply without a `channels` array is a failure.
pub fn channel_normal(reply: &Json, peer_id: &str) -> (res: Result<bool, FlowError>)
    ensures
        match array_member(*reply, "channels"@) {
            Some(items) => res == Ok::<bool, FlowError>(any_where(items, normal_channel_pred(peer_id@))),
            None => res matches Err(e) && is_missing(e, "listpeerchannels"@, "channels"@),
        },
{
    let channels = match reply.get("channels") {
        Some(m) => m.as_array(),
        None => None,
    };
    match channels {
        None => Err(FlowError::MissingField {
            reply: String::from_str("listpeerchannels"),
            field: String::from_str("channels"),
        }),
        Some(items) => {
            let n: usize = items.len();
            let mut i: usize = 0;
            while i < n
                invariant
                    n == items@.len(),
                    i <= n,
                    array_member(*reply, "channels"@) == Some(items@),
                    forall|j: int| 0 <= j < i ==> !normal_channel_pred(peer_id@)(#[trigger] items@[j]),
                decreases n - i,
            {
                if str_member_is(&items[i], "peer_id", peer_id) && str_member_is(
                    &items[i],
                    "state",
                    "CHANNELD_NORMAL",
                ) {
                    assert(normal_channel_pred(peer_id@)(items@[i as int]));
                    return Ok(true);
                }
                i = i + 1;
            }
            Ok(false)
        },
    }
}

/// The first settled forward of a `listforwards` reply.
pub open spec fn settled_forward_spec(reply: Json) -> Option<Json> {
    match array_member(reply, "forwards"@) {
        Some(items) => first_where(items, settled_pred()),
        None => None,
    }
}

/// The first forward of a `listforwards` reply whose status is `settled`.
pub fn settled_forward(reply: &Json) -> (res: Option<&Json>)
    ensures
        match res {
            Some(f) => settled_forward_spec(*reply) == Some(*f),
            None => settled_forward_spec(*reply) is None,
        },
{
    let forwards = match reply.get("forwards") {
        Some(m) => m.as_array(),
        None => None,
    };
    match forwards {
        None => None,
        Some(items) => {
            let n: usize = items.len();
            let mut i: usize = 0;
            assert(items@.subrange(0, n as int) =~= items@);
            while i < n
                invariant
                    n == items@.len(),
                    i <= n,
                    settled_forward_spec(*reply) == first_where(items@, settled_pred()),
                    first_where(items@, settled_pred()) == first_where(
                        items@.subrange(i as int, n as int),
                        settled_pred(),
                    ),
                decreases n - i,
            {
                assert(items@.subrange(i as int, n as int)[0] == items@[i as int]);
                if str_member_is(&items[i], "status", "settled") {
                    return Some(&items[i]);
                }
                assert(items@.subrange(i as int, n as int).drop_first()
                    =~= items@.subrange(i + 1, n as int));
                i = i + 1;
            }
            None
        },
    }
}

/// The chain height a `getinfo` reply reports; zero when it reports none.
pub open spec fn block_height_spec(info: Json) -> u64 {
    match get_spec(info, "blockheight"@) {
        Some(h) => match u64_spec(h) {
            Some(n) => n,
            None => 0,
        },
        None => 0,
    }
}

/// The chain height a `getinfo` reply reports, or zero when it has no
/// `blockheight` member that is an unsigned integer.
pub fn block_height(info: &Json) -> (res: u64)
    ensures
        res == block_height_spec(*info),
{
    match info.get("blockheight") {
        Some(h) => match h.as_u64() {
            Some(n) => n,
            None => 0,
        },
        None => 0,
    }
}

/// Whether a `listfunds` reply lists an output that is confirmed and not
/// reserved; a reply without an `outputs` array lists none.
pub fn has_confirmed_output(funds: &Json) -> (res: bool)
    ensures
        res == match array_member(*funds, "outputs"@) {
            Some(items) => any_where(items, spendable_output_pred()),
            None => false,
        },
{
    let outputs = match funds.get("outputs") {
        Some(m) => m.as_array(),
        None => None,
    };
    match outputs {
        None => false,
        Some(items) => {
            let n: usize = items.len();
            let mut i: usize = 0;
            while i < n
                invariant
                    n == items@.len(),
                    i <= n,
                    array_member(*funds, "outputs"@) == Some(items@),
                    forall|j: int| 0 <= j < i ==> !spendable_output_pred()(#[trigger] items@[j]),
                decreases n - i,
            {
                let unreserved = match items[i].get("reserved") {
                    Some(r) => r.as_bool() == Some(false),
                    None => false,
                };
                if str_member_is(&items[i], "status", "confirmed") && unreserved {
                    assert(spendable_output_pred()(items@[i as int]));
                    return true;
                }
                i = i + 1;
            }
            false
        },
    }
}

/// The preimage a payment reply carries: its `payment_preimage` member when it
/// has one, otherwise its `preimage` member, when that member is a string.
pub open spec fn preimage_spec(v: Json) -> Option<Seq<char>> {
    let m = if get_spec(v, "payment_preimage"@) is Some {
        get_spec(v, "payment_preimage"@)
    } else {
        get_spec(v, "preimage"@)
    };
    match m {
        Some(x) => str_spec(x),
        None => None,
    }
}

/// The preimage a payment reply carries, if any.
pub fn preimage_of(v: &Json) -> (res: Option<String>)
    ensures
        match preimage_spec(*v) {
            Some(p) => res matches Some(t) && t@ == p,
            None => res is None,
        },
{
    let m = match v.get("payment_preimage") {
        Some(x) => Some(x),
        None => v.get("preimage"),
    };
    match m {
        Some(x) => match x.as_str() {
            Some(s) => Some(String::from_str(s)),
            None => None,
        },
        None => None,
    }
}

/// The preimage of the payment of `hash` in a `listpays` reply: the preimage
/// carried by the first completed payment with that hash.
pub open spec fn listpays_preimage_spec(pays: Json, hash: Seq<char>) -> Option<Seq<char>> {
    match array_member(pays, "pays"@) {
        Some(items) => match first_where(items, completed_pay_pred(hash)) {
            Some(p) => preimage_spec(p),
            None => None,
        },
        None => None,
    }
}

/// The preimage of the payment of `payment_hash` in a `listpays` reply; its
/// absence is a failure.
pub fn preimage_in_listpays(pays: &Json, payment_hash: &str) -> (res: Result<String, FlowError>)
    ensures
        match listpays_preimage_spec(*pays, payment_hash@) {
            Some(p) => res matches Ok(t) && t@ == p,
            None => res matches Err(e) && is_missing(e, "listpays"@, "payment preimage"@),
        },
{
    let items_opt = match pays.get("pays") {
        Some(m) => m.as_array(),
        None => None,
    };
    let missing = FlowError::MissingField {
        reply: String::from_str("listpays"),
        field: String::from_str("payment preimage"),
    };
    match items_opt {
        None => Err(missing),
        Some(items) => {
            let n: usize = items.len();
            let mut i: usize = 0;
            let ghost p = completed_pay_pred(payment_hash@);
            assert(items@.subrange(0, n as int) =~= items@);
            while i < n
                invariant
                    n == items@.len(),
                    i <= n,
                    p == completed_pay_pred(payment_hash@),
                    is_missing(missing, "listpays"@, "payment preimage"@),
                    array_member(*pays, "pays"@) == Some(items@),
                    first_where(items@, p) == first_where(items@.subrange(i as int, n as int), p),
                decreases n - i,
            {
                assert(items@.subrange(i as int, n as int)[0] == items@[i as int]);
                if str_member_is(&items[i], "payment_hash", payment_hash) && str_member_is(
                    &items[i],
                    "status",
                    "complete",
                ) {
                    return match preimage_of(&items[i]) {
                        Some(t) => Ok(t),
                        None => Err(missing),
                    };
                }
                assert(items@.subrange(i as int, n as int).drop_first()
                    =~= items@.subrange(i + 1, n as int));
                i = i + 1;
            }
            Err(missing)
        },
    }
}

/// The fee a forward reports, in millisatoshi: a string member `fee_msat` with
/// every trailing `msat` removed, or an integer member written in decimal.
pub open spec fn fee_msat_spec(forward: Json) -> Option<Seq<char>> {
    match get_spec(forward, "fee_msat"@) {
        Some(fee) => match str_spec(fee) {
            Some(s) => Some(trim_end_matches_spec(s, "msat"@)),
            None => match i64_spec(fee) {
                Some(n) => Some(signed_decimal(n as int)),
                None => None,
            },
        },
        None => None,
    }
}

/// The fee a forward reports; its absence is a failure.
pub fn forward_fee_msat(forward: &Json) -> (res: Result<String, FlowError>)
    ensures
        match fee_msat_spec(*forward) {
            Some(f) => res matches Ok(t) && t@ == f,
            None => res matches Err(e) && is_missing(e, "forward"@, "fee_msat"@),
        },
{
    let fee = match forward.get("fee_msat") {
        Some(fee) => match fee.as_str() {
            Some(s) => Some(trim_end_matches(s, "msat")),
            None => match fee.as_i64() {
                Some(n) => Some(i64_to_decimal(n)),
                None => None,
            },
        },
        None => None,
    };
    match fee {
        Some(f) => Ok(f),
        None => Err(FlowError::MissingField {
            reply: String::from_str("forward"),
            field: String::from_str("fee_msat"),
        }),
    }
}

/// The payment hash a forward reports, or `fallback` when it reports none.
pub fn forwarded_hash(forward: &Json, fallback: &str) -> (res: String)
    ensures
        res@ == match str_member(*forward, "payment_hash"@) {
            Some(h) => h,
            None => fallback@,
        },
{
    let found = match forward.get("payment_hash") {
        Some(m) => m.as_str(),
        None => None,
    };
    match found {
        Some(h) => String::from_str(h),
        None => String::from_str(fallback),
    }
}

/// The forward read for the record is the first forward of the reply whose
/// `status` member is the string `settled`: it has that status, no forward
/// before it has, and one is found whenever some forward has that status.
pub proof fn settled_forward_is_first_settled(reply: Json)
    ensures
        match array_member(reply, "forwards"@) {
            Some(items) => {
                &&& settled_forward_spec(reply) is Some <==> exists|i: int|
                    0 <= i < items.len() && str_member(#[trigger] items[i], "status"@) == Some("settled"@)
                &&& settled_forward_spec(reply) matches Some(f) ==> {
                    &&& str_member(f, "status"@) == Some("settled"@)
                    &&& exists|i: int| 0 <= i < items.len() && #[trigger] items[i] == f
                        && forall|j: int| 0 <= j < i ==> str_member(#[trigger] items[j], "status"@) != Some("settled"@)
                }
            },
            None => settled_forward_spec(reply) is None,
        },
{
    if let Some(items) = array_member(reply, "forwards"@) {
        let p = settled_pred();
        first_where_is_first(items, p);
        assert forall|k: int| 0 <= k < items.len() implies
            (p(items[k]) <==> str_member(#[trigger] items[k], "status"@) == Some("settled"@)) by {}
        if first_where(items, p) is Some {
            let i = choose|i: int| 0 <= i < items.len() && items[i] == first_where(items, p)->0 && p(items[i])
                && forall|j: int| 0 <= j < i ==> !p(#[trigger] items[j]);
            assert(items[i] == first_where(items, p)->0);
        }
        if exists|i: int| 0 <= i < items.len() && str_member(#[trigger] items[i], "status"@) == Some("settled"@) {
            let i = choose|i: int| 0 <= i < items.len() && str_member(#[trigger] items[i], "status"@) == Some("settled"@);
            assert(p(items[i]));
        }
    }
}

/// Whether a pay of a `listpays` reply is a completed payment of `hash`: its
/// `payment_hash` member is `hash` and its `status` member is `complete`.
spec fn complete_pay_of(p: Json, hash: Seq<char>) -> bool {
    str_member(p, "payment_hash"@) == Some(hash) && str_member(p, "status"@) == Some("complete"@)
}

/// The preimage read from `listpays` for `hash` is carried by the first pay
/// whose `payment_hash` member is `hash` and whose `status` member is
/// `complete`, as its `payment_preimage` string or, when it has no such member,
/// its `preimage` string; and whenever there is such a pay, what is read is
/// what that first one carries.
pub proof fn listpays_preimage_is_from_first_complete_pay(pays: Json, hash: Seq<char>)
    ensures
        match array_member(pays, "pays"@) {
            Some(items) => {
                &&& listpays_preimage_spec(pays, hash) matches Some(t) ==> exists|i: int| {
                    &&& 0 <= i < items.len()
                    &&& str_member(#[trigger] items[i], "payment_hash"@) == Some(hash)
                    &&& str_member(items[i], "status"@) == Some("complete"@)
                    &&& (str_member(items[i], "payment_preimage"@) == Some(t)
                        || (get_spec(items[i], "payment_preimage"@) is None && str_member(items[i], "preimage"@) == Some(t)))
                    &&& forall|j: int| 0 <= j < i ==> !(str_member(#[trigger] items[j], "payment_hash"@) == Some(hash)
                        && str_member(items[j], "status"@) == Some("complete"@))
                }
                &&& forall|i: int| 0 <= i < items.len()
                    && str_member(#[trigger] items[i], "payment_hash"@) == Some(hash)
                    && str_member(items[i], "status"@) == Some("complete"@)
                    && (forall|j: int| 0 <= j < i ==> !(str_member(#[trigger] items[j], "payment_hash"@) == Some(hash)
                        && str_member(items[j], "status"@) == Some("complete"@)))
                    ==> listpays_preimage_spec(pays, hash) == preimage_spec(items[i])
            },
            None => listpays_preimage_spec(pays, hash) is None,
        },
{
    if let Some(items) = array_member(pays, "pays"@) {
        let p = completed_pay_pred(hash);
        first_where_is_first(items, p);
        assert forall|k: int| 0 <= k < items.len() implies
            (p(items[k]) <==> complete_pay_of(#[trigger] items[k], hash)) by {}
        if first_where(items, p) is Some {
            let i = choose|i: int| 0 <= i < items.len() && items[i] == first_where(items, p)->0 && p(items[i])
                && forall|j: int| 0 <= j < i ==> !p(#[trigger] items[j]);
            assert(complete_pay_of(items[i], hash));
            assert forall|j: int| 0 <= j < i implies !complete_pay_of(#[trigger] items[j], hash) by {
                assert(!p(items[j]));
            }
            assert forall|k: int| 0 <= k < items.len() && complete_pay_of(#[trigger] items[k], hash)
                && (forall|j: int| 0 <= j < k ==> !complete_pay_of(#[trigger] items[j], hash))
                implies k == i by {
                if k < i {
                    assert(!p(items[k]));
                } else if k > i {
                    assert(!complete_pay_of(items[i], hash));
                }
            }
        } else {
            assert forall|k: int| 0 <= k < items.len() implies !complete_pay_of(#[trigger] items[k], hash) by {
                if complete_pay_of(items[k], hash) {
                    assert(p(items[k]));
                }
            }
        }
    }
}

/// A `listfunds` reply shows funds to spend exactly when one of its `outputs`
/// has the `status` member `confirmed` and the `reserved` member `false`.
pub proof fn confirmed_output_is_confirmed_and_unreserved(funds: Json)
    ensures
        (match array_member(funds, "outputs"@) {
            Some(items) => any_where(items, spendable_output_pred()),
            None => false,
        }) <==> (array_member(funds, "outputs"@) matches Some(items) && exists|i: int|
            0 <= i < items.len() && str_member(#[trigger] items[i], "status"@) == Some("confirmed"@)
                && get_spec(items[i], "reserved"@) == Some(Json::Bool(false))),
{
    if let Some(items) = array_member(funds, "outputs"@) {
        let p = spendable_output_pred();
        assert forall|k: int| 0 <= k < items.len() implies (p(items[k]) <==> (str_member(#[trigger] items[k], "status"@)
            == Some("confirmed"@) && get_spec(items[k], "reserved"@) == Some(Json::Bool(false)))) by {
            if let Some(r) = get_spec(items[k], "reserved"@) {
                if bool_spec(r) == Some(false) {
                    assert(r == Json::Bool(false));
                }
            }
        }
    }
}

/// A channel counts as ready exactly when the `listpeerchannels` reply has a
/// channel whose `peer_id` member is the peer and whose `state` member is
/// `CHANNELD_NORMAL`.
pub proof fn normal_channel_is_with_the_peer(items: Seq<Json>, peer: Seq<char>)
    ensures
        any_where(items, normal_channel_pred(peer)) <==> exists|i: int| 0 <= i < items.len()
            && str_member(#[trigger] items[i], "peer_id"@) == Some(peer)
            && str_member(items[i], "state"@) == Some("CHANNELD_NORMAL"@),
{
}

/// The mining wallet is loaded exactly when `listwallets` names a wallet that
/// is the string `mining_wallet`.
pub proof fn loaded_wallet_is_the_mining_wallet(items: Seq<Json>)
    ensures
        any_where(items, mining_wallet_pred()) <==> exists|i: int| 0 <= i < items.len()
            && (#[trigger] items[i] matches Json::Str(name) && name@ == "mining_wallet"@),
{
}

/// A payment reply carries as its preimage its `payment_preimage` string, or,
/// when it has no `payment_preimage` member, its `preimage` string.
pub proof fn preimage_is_payment_preimage_else_preimage(v: Json)
    ensures
        forall|t: Seq<char>| preimage_spec(v) == Some(t) <==> (str_member(v, "payment_preimage"@) == Some(t)
            || (get_spec(v, "payment_preimage"@) is None && str_member(v, "preimage"@) == Some(t))),
{
}

/// A forward's fee written as a string `x` followed by `msat` is read as `x`
/// (when `x` does not itself end in `msat`); one written as an integer from
/// zero to `i64::MAX` is read as its decimal digits; a forward without a
/// `fee_msat` member has no fee.
pub proof fn fee_is_read_without_its_unit(forward: Json, x: Seq<char>, n: u64)
    ensures
        str_member(forward, "fee_msat"@) == Some(x + "msat"@)
            && !(x.len() >= 4 && x.subrange(x.len() - 4, x.len() as int) == "msat"@)
            ==> fee_msat_spec(forward) == Some(x),
        get_spec(forward, "fee_msat"@) == Some(Json::Number(crate::json::JsonNumber::PosInt(n))) && n <= i64::MAX
            ==> fee_msat_spec(forward) == Some(crate::text::decimal(n as nat)),
        get_spec(forward, "fee_msat"@) is None ==> fee_msat_spec(forward) is None,
{
    reveal_strlit("msat");
    let s = x + "msat"@;
    if str_member(forward, "fee_msat"@) == Some(s)
        && !(x.len() >= 4 && x.subrange(x.len() - 4, x.len() as int) == "msat"@) {
        assert(s.subrange(s.len() - 4, s.len() as int) =~= "msat"@);
        assert(s.subrange(0, s.len() - 4) =~= x);
        assert(trim_end_matches_spec(s, "msat"@) == trim_end_matches_spec(x, "msat"@));
        assert(trim_end_matches_spec(x, "msat"@) == x);
    }
}

} // verus!
