//! Endpoint configuration: the websocket endpoint that goes with an RPC endpoint.
use vstd::prelude::*;
use vstd::string::{StrSliceExecFns, StringExecFns};
use crate::text::{find_from, find_marker, matches_at, occurs_at};

verus! {

/// `s` with every occurrence of `a` at or after `i`, taken left to right without overlap,
/// replaced by `b`; the text before `i` is dropped.
pub open spec fn replace_from(s: Seq<char>, a: Seq<char>, b: Seq<char>, i: int) -> Seq<char>
    recommends
        a.len() > 0,
    decreases s.len() + 1 - i,
{
    if a.len() == 0 || i < 0 || i > s.len() {
        Seq::empty()
    } else {
        let j = find_from(s, a, i);
        if j < i || j + a.len() > s.len() {
            s.subrange(i, s.len() as int)
        } else {
            s.subrange(i, j) + b + replace_from(s, a, b, j + a.len())
        }
    }
}

pub open spec fn https_prefix() -> Seq<char> {
    seq!['h', 't', 't', 'p', 's', ':', '/', '/']
}

pub open spec fn http_prefix() -> Seq<char> {
    seq!['h', 't', 't', 'p', ':', '/', '/']
}

pub open spec fn wss_prefix() -> Seq<char> {
    seq!['w', 's', 's', ':', '/', '/']
}

pub open spec fn ws_prefix() -> Seq<char> {
    seq!['w', 's', ':', '/', '/']
}

/// Websocket endpoint used when the RPC endpoint has neither http prefix.
pub open spec fn default_ws_url() -> Seq<char> {
    "wss://api.mainnet-beta.solana.com"@
}

/// The websocket endpoint of an RPC endpoint: `https://` becomes `wss://` and `http://`
/// becomes `ws://`, wherever they occur; any other endpoint gets the default.
pub open spec fn ws_url_spec(rpc: Seq<char>) -> Seq<char> {
    if occurs_at(rpc, https_prefix(), 0) {
        replace_from(rpc, https_prefix(), wss_prefix(), 0)
    } else if occurs_at(rpc, http_prefix(), 0) {
        replace_from(rpc, http_prefix(), ws_prefix(), 0)
    } else {
        default_ws_url()
    }
}

proof fn lemma_find_from_at_least(s: Seq<char>, a: Seq<char>, i: int)
    requires
        0 <= i,
    ensures
        find_from(s, a, i) == -1 || (i <= find_from(s, a, i) && occurs_at(
            s,
            a,
            find_from(s, a, i),
        )),
    decreases s.len() + 1 - i,
{
    if i + a.len() <= s.len() && !occurs_at(s, a, i) {
        lemma_find_from_at_least(s, a, i + 1);
    }
}

/// `s` with every occurrence of `a` replaced by `b`.
pub fn replace_all(s: &str, a: &str, b: &str) -> (r: String)
    requires
        a@.len() > 0,
    ensures
        r@ == replace_from(s@, a@, b@, 0),
{
    let n = s.unicode_len();
    let k = a.unicode_len();
    let mut out = String::new();
    let mut i: usize = 0;
    loop
        invariant
            n == s@.len(),
            k == a@.len(),
            k > 0,
            i <= n,
            out@ + replace_from(s@, a@, b@, i as int) == replace_from(s@, a@, b@, 0),
        decreases n - i,
    {
        proof {
            lemma_find_from_at_least(s@, a@, i as int);
        }
        match find_marker(s, a, i) {
            None => {
                out.append(s.substring_char(i, n));
                assert(out@ == replace_from(s@, a@, b@, 0));
                return out;
            },
            Some(j) => {
                out.append(s.substring_char(i, j));
                out.append(b);
                i = j + k;
            },
        }
    }
}

/// The websocket endpoint that goes with `rpc_url` (see `ws_url_spec`).
pub fn ws_url_from_rpc(rpc_url: &str) -> (r: String)
    ensures
        r@ == ws_url_spec(rpc_url@),
{
    proof {
        reveal_strlit("https://");
        reveal_strlit("http://");
        reveal_strlit("wss://");
        reveal_strlit("ws://");
        reveal_strlit("wss://api.mainnet-beta.solana.com");
        assert("https://"@ == https_prefix());
        assert("http://"@ == http_prefix());
        assert("wss://"@ == wss_prefix());
        assert("ws://"@ == ws_prefix());
    }
    if matches_at(rpc_url, "https://", 0) {
        replace_all(rpc_url, "https://", "wss://")
    } else if matches_at(rpc_url, "http://", 0) {
        replace_all(rpc_url, "http://", "ws://")
    } else {
        "wss://api.mainnet-beta.solana.com".to_owned()
    }
}

} // verus!
