//! Token Event Extractor: raw program log lines to a token-creation event.
use vstd::prelude::*;
use vstd::utf8::encode_utf8;
use crate::text::{contains, contains_marker, find_marker, piece_after, trim, trimmed_piece};

verus! {

/// Shortest text, in bytes, that is taken as a candidate mint address.
pub const MIN_MINT_TEXT_LEN: usize = 32;

/// The 32 bytes of the on-chain address that `s` spells, if it spells one.
pub uninterp spec fn pubkey_of(s: Seq<char>) -> Option<Seq<u8>>;

/// Relies on `<solana_sdk::pubkey::Pubkey as FromStr>::from_str`: the result depends on
/// the text alone, a parsed key is 32 bytes, and text of more than 44 bytes is refused.
#[verifier::external_body]
pub(crate) fn parse_pubkey(s: &str) -> (r: Option<[u8; 32]>)
    ensures
        encode_utf8(s@).len() > 44 ==> r is None,
        match r {
            Some(b) => pubkey_of(s@) == Some(b@),
            None => pubkey_of(s@) is None,
        },
{
    s.parse::<solana_sdk::pubkey::Pubkey>().ok().map(|k| k.to_bytes())
}

/// Token information extracted from a token-creation transaction.
pub struct NewTokenInfo {
    pub mint_address: [u8; 32],
    pub name: String,
    pub symbol: String,
    pub transaction_signature: String,
}

/// Mathematical form of an extracted event (without its transaction id).
pub struct TokenEvent {
    pub mint: Seq<u8>,
    pub name: Seq<char>,
    pub symbol: Seq<char>,
}

/// What a scan of the log lines has found so far.
pub struct LogScan {
    pub mint: Option<Seq<u8>>,
    pub name: Option<Seq<char>>,
    pub symbol: Option<Seq<char>>,
}

pub open spec fn mint_marker() -> Seq<char> {
    seq!['m', 'i', 'n', 't', ':']
}

pub open spec fn name_marker() -> Seq<char> {
    seq!['n', 'a', 'm', 'e', ':']
}

pub open spec fn symbol_marker() -> Seq<char> {
    seq!['s', 'y', 'm', 'b', 'o', 'l', ':']
}

pub open spec fn create_marker() -> Seq<char> {
    seq!['c', 'r', 'e', 'a', 't', 'e']
}

/// Name given to a token whose logs carry none.
pub open spec fn unknown_name() -> Seq<char> {
    seq!['U', 'n', 'k', 'n', 'o', 'w', 'n', ' ', 'T', 'o', 'k', 'e', 'n']
}

/// Symbol given to a token whose logs carry none.
pub open spec fn unknown_symbol() -> Seq<char> {
    seq!['U', 'N', 'K', 'N', 'O', 'W', 'N']
}

/// The trimmed text that follows `m` in `line`.
pub open spec fn field_text(line: Seq<char>, m: Seq<char>) -> Seq<char> {
    trim(piece_after(line, m))
}

/// The line offers a mint candidate long enough to be parsed.
pub open spec fn has_mint_candidate(line: Seq<char>) -> bool {
    contains(line, mint_marker()) && encode_utf8(field_text(line, mint_marker())).len()
        >= MIN_MINT_TEXT_LEN
}

/// The line offers a mint candidate that parses as an address.
pub open spec fn has_valid_mint(line: Seq<char>) -> bool {
    has_mint_candidate(line) && pubkey_of(field_text(line, mint_marker())) is Some
}

/// One line of the scan. A candidate that fails to parse abandons the rest of its line.
pub open spec fn scan_line(st: LogScan, line: Seq<char>) -> LogScan {
    if has_mint_candidate(line) && !has_valid_mint(line) {
        st
    } else {
        LogScan {
            mint: if has_valid_mint(line) {
                pubkey_of(field_text(line, mint_marker()))
            } else {
                st.mint
            },
            name: if contains(line, name_marker()) {
                Some(field_text(line, name_marker()))
            } else {
                st.name
            },
            symbol: if contains(line, symbol_marker()) {
                Some(field_text(line, symbol_marker()))
            } else {
                st.symbol
            },
        }
    }
}

/// Scan of all lines, in order.
pub open spec fn scan(lines: Seq<Seq<char>>) -> LogScan
    decreases lines.len(),
{
    if lines.len() == 0 {
        LogScan { mint: None, name: None, symbol: None }
    } else {
        scan_line(scan(lines.drop_last()), lines.last())
    }
}

/// The event that the lines describe: present exactly when a mint address was found.
pub open spec fn extract_spec(lines: Seq<Seq<char>>) -> Option<TokenEvent> {
    let st = scan(lines);
    match st.mint {
        Some(m) => Some(
            TokenEvent {
                mint: m,
                name: match st.name {
                    Some(n) => n,
                    None => unknown_name(),
                },
                symbol: match st.symbol {
                    Some(s) => s,
                    None => unknown_symbol(),
                },
            },
        ),
        None => None,
    }
}

/// The character sequences of the log lines.
pub open spec fn lines_of(logs: Seq<String>) -> Seq<Seq<char>> {
    logs.map_values(|l: String| l@)
}

pub open spec fn opt_bytes(o: Option<[u8; 32]>) -> Option<Seq<u8>> {
    match o {
        Some(b) => Some(b@),
        None => None,
    }
}

pub open spec fn opt_text(o: Option<String>) -> Option<Seq<char>> {
    match o {
        Some(s) => Some(s@),
        None => None,
    }
}

/// The trimmed text after the first occurrence of `m` in `line`, up to the next one.
fn field_after(line: &str, m: &str) -> (r: Option<String>)
    ensures
        match r {
            Some(t) => contains(line@, m@) && t@ == field_text(line@, m@),
            None => !contains(line@, m@),
        },
{
    match find_marker(line, m, 0) {
        None => None,
        Some(i) => {
            let n = line.unicode_len();
            let k = m.unicode_len();
            let start = i + k;
            let end = match find_marker(line, m, start) {
                Some(j) => j,
                None => n,
            };
            Some(trimmed_piece(line, start, end))
        },
    }
}

proof fn lemma_scan_step(logs: Seq<String>, i: int)
    requires
        0 <= i < logs.len(),
    ensures
        scan(lines_of(logs).take(i + 1)) == scan_line(scan(lines_of(logs).take(i)), logs[i]@),
{
    let l = lines_of(logs);
    assert(l.take(i + 1).drop_last() == l.take(i));
    assert(l.take(i + 1).last() == logs[i]@);
}

/// Extracts the token-creation event that `logs` describe, if they name a mint address.
///
/// Lines are scanned in order for the markers `mint:`, `name:` and `symbol:`; the text after
/// a marker, trimmed, is its value and later lines override earlier ones. A mint candidate
/// shorter than `MIN_MINT_TEXT_LEN` bytes is ignored; one that does not parse as an address
/// abandons the rest of its line. Missing names and symbols take sentinel values.
pub fn extract_token_info_from_logs(logs: &Vec<String>, signature: String) -> (r: Option<
    NewTokenInfo,
>)
    ensures
        match r {
            Some(info) => extract_spec(lines_of(logs@)) == Some(
                (TokenEvent { mint: info.mint_address@, name: info.name@, symbol: info.symbol@ }),
            ) && info.transaction_signature@ == signature@,
            None => extract_spec(lines_of(logs@)) is None,
        },
{
    let mut mint: Option<[u8; 32]> = None;
    let mut name: Option<String> = None;
    let mut symbol: Option<String> = None;
    proof {
        reveal_strlit("mint:");
        reveal_strlit("name:");
        reveal_strlit("symbol:");
        assert(lines_of(logs@).take(0).len() == 0);
    }
    let mut i: usize = 0;
    while i < logs.len()
        invariant
            i <= logs@.len(),
            "mint:"@ == mint_marker(),
            "name:"@ == name_marker(),
            "symbol:"@ == symbol_marker(),
            scan(lines_of(logs@).take(i as int)) == (LogScan {
                mint: opt_bytes(mint),
                name: opt_text(name),
                symbol: opt_text(symbol),
            }),
        decreases logs@.len() - i,
    {
        let line = logs[i].as_str();
        proof {
            lemma_scan_step(logs@, i as int);
        }
        let mut abandon = false;
        if let Some(c) = field_after(line, "mint:") {
            if c.as_str().as_bytes().len() >= MIN_MINT_TEXT_LEN {
                match parse_pubkey(c.as_str()) {
                    Some(b) => {
                        mint = Some(b);
                    },
                    None => {
                        abandon = true;
                    },
                }
            }
        }
        if !abandon {
            if let Some(n) = field_after(line, "name:") {
                name = Some(n);
            }
            if let Some(s) = field_after(line, "symbol:") {
                symbol = Some(s);
            }
        }
        i = i + 1;
    }
    assert(lines_of(logs@).take(logs@.len() as int) == lines_of(logs@));
    match mint {
        None => None,
        Some(m) => {
            let name = match name {
                Some(n) => n,
                None => {
                    proof {
                        reveal_strlit("Unknown Token");
                    }
                    assert("Unknown Token"@ == unknown_name());
                    "Unknown Token".to_owned()
                },
            };
            let symbol = match symbol {
                Some(s) => s,
                None => {
                    proof {
                        reveal_strlit("UNKNOWN");
                    }
                    assert("UNKNOWN"@ == unknown_symbol());
                    "UNKNOWN".to_owned()
                },
            };
            Some(
                NewTokenInfo {
                    mint_address: m,
                    name,
                    symbol,
                    transaction_signature: signature,
                },
            )
        },
    }
}

/// Whether any line mentions `create`, the sign that a notification may announce a token.
pub fn mentions_create(logs: &Vec<String>) -> (r: bool)
    ensures
        r == exists|i: int| 0 <= i < logs@.len() && contains(#[trigger] logs@[i]@, create_marker()),
{
    proof {
        reveal_strlit("create");
    }
    let mut i: usize = 0;
    while i < logs.len()
        invariant
            i <= logs@.len(),
            "create"@ == create_marker(),
            forall|j: int| 0 <= j < i ==> !contains(#[trigger] logs@[j]@, create_marker()),
        decreases logs@.len() - i,
    {
        if contains_marker(logs[i].as_str(), "create") {
            return true;
        }
        i = i + 1;
    }
    false
}

/// The event carried by one log notification: only notifications whose lines mention
/// `create` are handed to the extractor.
pub fn event_from_notification(logs: &Vec<String>, signature: String) -> (r: Option<NewTokenInfo>)
    ensures
        !(exists|i: int| 0 <= i < logs@.len() && contains(#[trigger] logs@[i]@, create_marker()))
            ==> r is None,
        (exists|i: int| 0 <= i < logs@.len() && contains(#[trigger] logs@[i]@, create_marker()))
            ==> match r {
            Some(info) => extract_spec(lines_of(logs@)) == Some(
                (TokenEvent { mint: info.mint_address@, name: info.name@, symbol: info.symbol@ }),
            ) && info.transaction_signature@ == signature@,
            None => extract_spec(lines_of(logs@)) is None,
        },
{
    if mentions_create(logs) {
        extract_token_info_from_logs(logs, signature)
    } else {
        None
    }
}

/// Log lines with no `mint:` marker describe no event.
pub proof fn lemma_no_mint_marker_no_event(lines: Seq<Seq<char>>)
    requires
        forall|i: int| 0 <= i < lines.len() ==> !contains(#[trigger] lines[i], mint_marker()),
    ensures
        scan(lines).mint is None,
        extract_spec(lines) is None,
    decreases lines.len(),
{
    if lines.len() > 0 {
        lemma_no_mint_marker_no_event(lines.drop_last());
        assert(!contains(lines[lines.len() - 1], mint_marker()));
    }
}

/// The mint of the last line that holds a valid mint marker is the one scanned.
pub proof fn lemma_last_valid_mint_scanned(lines: Seq<Seq<char>>, k: int)
    requires
        0 <= k < lines.len(),
        has_valid_mint(lines[k]),
        forall|j: int| k < j < lines.len() ==> !has_valid_mint(#[trigger] lines[j]),
    ensures
        scan(lines).mint == pubkey_of(field_text(lines[k], mint_marker())),
    decreases lines.len(),
{
    if lines.len() > k + 1 {
        let d = lines.drop_last();
        assert forall|j: int| k < j < d.len() implies !has_valid_mint(#[trigger] d[j]) by {
            assert(d[j] == lines[j]);
        }
        lemma_last_valid_mint_scanned(d, k);
        assert(!has_valid_mint(lines[lines.len() - 1]));
    } else {
        assert(lines.last() == lines[k]);
    }
}

/// Log lines in which some line holds a valid mint marker describe an event carrying the
/// mint of the last such line.
pub proof fn lemma_valid_mint_gives_event(lines: Seq<Seq<char>>, k: int)
    requires
        0 <= k < lines.len(),
        has_valid_mint(lines[k]),
        forall|j: int| k < j < lines.len() ==> !has_valid_mint(#[trigger] lines[j]),
    ensures
        extract_spec(lines) is Some,
        Some(extract_spec(lines)->Some_0.mint) == pubkey_of(field_text(lines[k], mint_marker())),
{
    lemma_last_valid_mint_scanned(lines, k);
}

proof fn lemma_no_name_no_symbol(lines: Seq<Seq<char>>)
    requires
        forall|i: int|
            0 <= i < lines.len() ==> !contains(#[trigger] lines[i], name_marker()) && !contains(
                lines[i],
                symbol_marker(),
            ),
    ensures
        scan(lines).name is None,
        scan(lines).symbol is None,
    decreases lines.len(),
{
    if lines.len() > 0 {
        lemma_no_name_no_symbol(lines.drop_last());
        let l = lines[lines.len() - 1];
        assert(!contains(l, name_marker()) && !contains(l, symbol_marker()));
    }
}

/// Log lines that hold a valid mint marker but no `name:` or `symbol:` marker still describe
/// an event, with the sentinel name and symbol.
pub proof fn lemma_missing_name_symbol_defaults(lines: Seq<Seq<char>>, k: int)
    requires
        0 <= k < lines.len(),
        has_valid_mint(lines[k]),
        forall|i: int|
            0 <= i < lines.len() ==> !contains(#[trigger] lines[i], name_marker()) && !contains(
                lines[i],
                symbol_marker(),
            ),
    ensures
        extract_spec(lines) is Some,
        extract_spec(lines)->Some_0.name == unknown_name(),
        extract_spec(lines)->Some_0.symbol == unknown_symbol(),
    decreases lines.len(),
{
    lemma_no_name_no_symbol(lines);
    lemma_some_mint_scanned(lines, k);
}

proof fn lemma_some_mint_scanned(lines: Seq<Seq<char>>, k: int)
    requires
        0 <= k < lines.len(),
        has_valid_mint(lines[k]),
    ensures
        scan(lines).mint is Some,
    decreases lines.len(),
{
    if lines.len() > k + 1 {
        let d = lines.drop_last();
        assert(d[k] == lines[k]);
        lemma_some_mint_scanned(d, k);
    } else {
        assert(lines.last() == lines[k]);
    }
}

} // verus!
