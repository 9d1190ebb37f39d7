//! Account identifiers: the naming rules of the host and the derivation of
//! a meme's sub-account.

use vstd::prelude::*;

verus! {

/// Separators allowed between the alphanumeric runs of an account name.
pub open spec fn is_separator(c: char) -> bool {
    c == '-' || c == '_' || c == '.'
}

/// Characters allowed anywhere in an account name.
pub open spec fn is_account_char(c: char) -> bool {
    ('a' <= c && c <= 'z') || ('0' <= c && c <= '9') || is_separator(c)
}

/// The host's rule for account names: 2 to 64 characters among lower-case
/// letters, digits and separators, neither starting nor ending with a
/// separator, and with no two separators in a row.
pub open spec fn valid_account_id(s: Seq<char>) -> bool {
    &&& 2 <= s.len() <= 64
    &&& forall|i: int| 0 <= i < s.len() ==> #[trigger] is_account_char(s[i])
    &&& !is_separator(s[0])
    &&& !is_separator(s[s.len() - 1])
    &&& forall|i: int|
        0 <= i < s.len() - 1 ==> !(#[trigger] is_separator(s[i]) && is_separator(s[i + 1]))
}

/// The sub-account of `meme` under the account `parent`: `<meme>.<parent>`.
pub open spec fn sub_account(meme: Seq<char>, parent: Seq<char>) -> Seq<char> {
    meme + seq!['.'] + parent
}

/// Relies on `near_sdk::env::is_valid_account_id`, the host's own check of an
/// account name. It reads the UTF-8 bytes of the name; a character outside
/// ASCII encodes to bytes that the check refuses, so the rule can be stated
/// over characters.
#[verifier::external_body]
pub(crate) fn host_accepts_account_id(account_id: &String) -> (r: bool)
    ensures
        r == valid_account_id(account_id@),
{
    near_sdk::env::is_valid_account_id(account_id.as_bytes())
}

/// Derives the sub-account `<meme>.<parent>`.
pub fn sub_account_for(meme: &String, parent: &String) -> (r: String)
    ensures
        r@ == sub_account(meme@, parent@),
{
    let mut r = meme.clone();
    proof {
        reveal_strlit(".");
    }
    r.append(".");
    r.append(parent.as_str());
    r
}

} // verus!
