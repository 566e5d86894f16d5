//! Selection of the RPC endpoint for a named cluster environment.

use vstd::prelude::*;

verus! {

/// ASCII lowercasing of one character; other characters are untouched.
pub open spec fn lower_char(c: char) -> char {
    if 'A' <= c && c <= 'Z' {
        (((c as u8) + 32) as char)
    } else {
        c
    }
}

/// ASCII lowercasing of a character sequence.
pub open spec fn lower_seq(s: Seq<char>) -> Seq<char> {
    Seq::new(s.len(), |i: int| lower_char(s[i]))
}

/// Case-insensitive (ASCII) equality of two strings.
pub open spec fn matches_ci(a: Seq<char>, b: Seq<char>) -> bool {
    lower_seq(a) == lower_seq(b)
}

/// Compare two strings for equality up to ASCII case.
fn eq_ignore_case(a: &str, b: &str) -> (r: bool)
    ensures
        r == matches_ci(a@, b@),
{
    let a_len = a.unicode_len();
    let b_len = b.unicode_len();
    if a_len != b_len {
        assert(lower_seq(a@).len() != lower_seq(b@).len());
        return false;
    }
    let mut i: usize = 0;
    while i < a_len
        invariant
            a_len == a@.len(),
            b_len == b@.len(),
            a_len == b_len,
            i <= a_len,
            forall|j: int| 0 <= j < i ==> lower_char(a@[j]) == lower_char(b@[j]),
        decreases a_len - i,
    {
        let ca = a.get_char(i);
        let cb = b.get_char(i);
        let la = if ca >= 'A' && ca <= 'Z' {
            (((ca as u8) + 32) as char)
        } else {
            ca
        };
        let lb = if cb >= 'A' && cb <= 'Z' {
            (((cb as u8) + 32) as char)
        } else {
            cb
        };
        if la != lb {
            assert(lower_seq(a@)[i as int] != lower_seq(b@)[i as int]);
            return false;
        }
        i = i + 1;
    }
    proof {
        assert(lower_seq(a@) =~= lower_seq(b@));
    }
    true
}

/// The default RPC endpoint of each environment name, compared up to ASCII
/// case; an unknown environment falls back to the main network.
pub open spec fn default_rpc_url_spec(env: Seq<char>) -> Seq<char> {
    if matches_ci(env, "mainnet"@) || matches_ci(env, "mainnet-beta"@) {
        "https://api.mainnet-beta.solana.com"@
    } else if matches_ci(env, "devnet"@) {
        "https://api.devnet.solana.com"@
    } else if matches_ci(env, "testnet"@) {
        "https://api.testnet.solana.com"@
    } else if matches_ci(env, "localhost"@) || matches_ci(env, "local"@) {
        "http://localhost:8899"@
    } else {
        "https://api.mainnet-beta.solana.com"@
    }
}

/// The default RPC endpoint for a cluster environment name, matched without
/// regard to ASCII case, with the main network as the fallback.
pub fn get_default_rpc_url(env: &str) -> (r: String)
    ensures
        r@ == default_rpc_url_spec(env@),
{
    if eq_ignore_case(env, "mainnet") || eq_ignore_case(env, "mainnet-beta") {
        String::from_str("https://api.mainnet-beta.solana.com")
    } else if eq_ignore_case(env, "devnet") {
        String::from_str("https://api.devnet.solana.com")
    } else if eq_ignore_case(env, "testnet") {
        String::from_str("https://api.testnet.solana.com")
    } else if eq_ignore_case(env, "localhost") || eq_ignore_case(env, "local") {
        String::from_str("http://localhost:8899")
    } else {
        String::from_str("https://api.mainnet-beta.solana.com")
    }
}

} // verus!
