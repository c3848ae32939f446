//! Safety screen: a keyword and symbol-length heuristic on a token's name and symbol.
use vstd::prelude::*;
use vstd::utf8::encode_utf8;
use crate::extract::NewTokenInfo;
use crate::text::{contains, contains_marker};

verus! {

/// Longest symbol, in bytes once lowercased, that passes the screen.
pub const MAX_SYMBOL_LEN: usize = 10;

/// The lowercase mapping of `s`.
pub uninterp spec fn lower_of(s: Seq<char>) -> Seq<char>;

/// Relies on `str::to_lowercase`: the result depends on the characters of `s` alone.
#[verifier::external_body]
fn to_lower(s: &str) -> (r: String)
    ensures
        r@ == lower_of(s@),
{
    s.to_lowercase()
}

/// Words that mark a token as a likely scam.
pub open spec fn scam_keywords() -> Seq<Seq<char>> {
    seq![
        seq!['s', 'c', 'a', 'm'],
        seq!['r', 'u', 'g'],
        seq!['f', 'a', 'k', 'e'],
        seq!['h', 'o', 'n', 'e', 'y', 'p', 'o', 't'],
        seq!['h', 'o', 'n', 'e', 'y', ' ', 'p', 'o', 't'],
        seq!['p', 'o', 'n', 'z', 'i'],
        seq!['p', 'r', 'e', 's', 'a', 'l', 'e'],
        seq!['p', 'r', 'e', '-', 's', 'a', 'l', 'e'],
        seq!['i', 'c', 'o'],
        seq!['g', 'u', 'a', 'r', 'a', 'n', 't', 'e', 'e', 'd'],
        seq!['1', '0', '0', 'x'],
        seq!['1', '0', '0', '0', 'x'],
    ]
}

/// A lowercased name and symbol pass the screen: neither holds a scam keyword, and the
/// symbol is at most `MAX_SYMBOL_LEN` bytes long.
pub open spec fn safe_spec(name_lower: Seq<char>, symbol_lower: Seq<char>) -> bool {
    &&& forall|j: int|
        0 <= j < scam_keywords().len() ==> !contains(name_lower, #[trigger] scam_keywords()[j])
            && !contains(symbol_lower, scam_keywords()[j])
    &&& encode_utf8(symbol_lower).len() <= MAX_SYMBOL_LEN
}

/// The screen on a name and symbol that are already lowercased.
pub fn is_safe_lowered(name_lower: &str, symbol_lower: &str) -> (r: bool)
    ensures
        r == safe_spec(name_lower@, symbol_lower@),
{
    let keywords: Vec<&str> = vec![
        "scam",
        "rug",
        "fake",
        "honeypot",
        "honey pot",
        "ponzi",
        "presale",
        "pre-sale",
        "ico",
        "guaranteed",
        "100x",
        "1000x",
    ];
    proof {
        reveal_strlit("scam");
        reveal_strlit("rug");
        reveal_strlit("fake");
        reveal_strlit("honeypot");
        reveal_strlit("honey pot");
        reveal_strlit("ponzi");
        reveal_strlit("presale");
        reveal_strlit("pre-sale");
        reveal_strlit("ico");
        reveal_strlit("guaranteed");
        reveal_strlit("100x");
        reveal_strlit("1000x");
        assert(keywords@.len() == scam_keywords().len());
        assert forall|j: int| 0 <= j < keywords@.len() implies keywords@[j]@
            == #[trigger] scam_keywords()[j] by {}
    }
    let mut j: usize = 0;
    while j < keywords.len()
        invariant
            j <= keywords@.len(),
            keywords@.len() == scam_keywords().len(),
            forall|t: int| 0 <= t < keywords@.len() ==> keywords@[t]@ == #[trigger] scam_keywords()[t],
            forall|t: int|
                0 <= t < j ==> !contains(name_lower@, #[trigger] scam_keywords()[t]) && !contains(
                    symbol_lower@,
                    scam_keywords()[t],
                ),
        decreases keywords@.len() - j,
    {
        let kw = keywords[j];
        if contains_marker(name_lower, kw) || contains_marker(symbol_lower, kw) {
            assert(keywords@[j as int]@ == scam_keywords()[j as int]);
            return false;
        }
        j = j + 1;
    }
    symbol_lower.as_bytes().len() <= MAX_SYMBOL_LEN
}

/// Whether a token is likely safe: the screen applied to its lowercased name and symbol.
pub fn is_token_safe(token_info: &NewTokenInfo) -> (r: bool)
    ensures
        r == safe_spec(lower_of(token_info.name@), lower_of(token_info.symbol@)),
{
    let name_lower = to_lower(token_info.name.as_str());
    let symbol_lower = to_lower(token_info.symbol.as_str());
    is_safe_lowered(name_lower.as_str(), symbol_lower.as_str())
}

} // verus!
