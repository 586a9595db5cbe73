//! The command line: the info commands and the global options.
use vstd::prelude::*;
use crate::api::request_util::chars_of;
use crate::types::chain::NetworkType;

pub mod arguments;

verus! {

/// The commands of the command line tool.
#[derive(Debug, Clone)]
#[allow(inconsistent_fields)]
pub enum Commands {
    AllMids { dex: Option<String> },
    OpenOrders { user: String, dex: Option<String> },
    FrontendOpenOrders { user: String, dex: Option<String> },
    UserFills { user: String, aggregate_by_time: Option<bool> },
    UserFillsByTime {
        user: String,
        start_time: u64,
        end_time: Option<u64>,
        aggregate_by_time: Option<bool>,
    },
    UserRateLimit { user: String },
    OrderStatus { user: String, oid: u64 },
    L2Book { coin: String, n_sig_figs: Option<u8>, mantissa: Option<u8> },
    CandleSnapshot { coin: String, interval: String, start_time: u64, end_time: u64 },
    HistoricalOrders { user: String },
    SubAccounts { user: String },
    VaultDetails { vault_address: String, user: Option<String> },
    UserVaultEquities { user: String },
    UserRole { user: String },
    Portfolio { user: String },
    Referral { user: String },
    UserFees { user: String },
}

/// The command line: the network, whether the signer key may be read from
/// the environment, and the command.
#[derive(Debug, Clone)]
pub struct Cli {
    pub network: Option<String>,
    pub allow_signer_key_env: Option<bool>,
    pub command: Commands,
}

/// The ASCII lowercase of a character.
pub open spec fn ascii_lower(c: char) -> char {
    if 'A' <= c <= 'Z' {
        ((c as int) + 32) as char
    } else {
        c
    }
}

/// Whether two strings are equal up to ASCII case.
pub open spec fn eq_ignore_ascii_case(a: Seq<char>, b: Seq<char>) -> bool {
    a.len() == b.len() && forall|i: int| 0 <= i < a.len() ==> ascii_lower(#[trigger] a[i]) == ascii_lower(b[i])
}

fn lower_char(c: char) -> (l: char)
    ensures
        l == ascii_lower(c),
{
    if 'A' <= c && c <= 'Z' {
        ((c as u8) + 32) as char
    } else {
        c
    }
}

/// Whether the characters equal a lowercase word up to ASCII case.
fn matches_word(chars: &Vec<char>, word: &Vec<char>) -> (b: bool)
    ensures
        b == eq_ignore_ascii_case(chars@, word@),
{
    if chars.len() != word.len() {
        return false;
    }
    let mut i: usize = 0;
    while i < chars.len()
        invariant
            i <= chars@.len(),
            chars@.len() == word@.len(),
            forall|j: int| 0 <= j < i ==> ascii_lower(#[trigger] chars@[j]) == ascii_lower(word@[j]),
        decreases chars@.len() - i,
    {
        if lower_char(chars[i]) != lower_char(word[i]) {
            return false;
        }
        i = i + 1;
    }
    true
}

/// The network named on the command line: `mainnet` (in any ASCII case)
/// or no flag at all selects mainnet; any other name selects testnet.
pub fn network_from_flag(network: Option<&str>) -> (n: NetworkType)
    ensures
        n == (match network {
            None => NetworkType::Mainnet,
            Some(s) => if eq_ignore_ascii_case(s@, "mainnet"@) {
                NetworkType::Mainnet
            } else {
                NetworkType::Testnet
            },
        }),
{
    match network {
        None => NetworkType::Mainnet,
        Some(s) => {
            let chars = chars_of(s);
            let word = chars_of("mainnet");
            if matches_word(&chars, &word) {
                NetworkType::Mainnet
            } else {
                NetworkType::Testnet
            }
        },
    }
}

} // verus!
