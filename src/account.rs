//! Account identifiers, validated by the host chain's rules.

use vstd::prelude::*;
use vstd::string::StringSliceAdditionalSpecFns;

verus! {

/// `-`, `_` or `.`: the bytes that separate the parts of an account name.
pub open spec fn is_separator(c: u8) -> bool {
    c == 45 || c == 95 || c == 46
}

/// A lower-case ASCII letter or a decimal digit.
pub open spec fn is_name_byte(c: u8) -> bool {
    (97 <= c && c <= 122) || (48 <= c && c <= 57)
}

/// A valid account name: 2 to 64 bytes, letters and digits joined by single
/// separators, neither starting nor ending with a separator.
pub open spec fn valid_account_bytes(b: Seq<u8>) -> bool {
    &&& 2 <= b.len() <= 64
    &&& forall|i: int| 0 <= i < b.len() ==> is_name_byte(#[trigger] b[i]) || is_separator(b[i])
    &&& !is_separator(b[0])
    &&& !is_separator(b[b.len() - 1])
    &&& forall|i: int| 0 <= i < b.len() - 1 ==> !(is_separator(#[trigger] b[i]) && is_separator(b[i + 1]))
}

/// Relies on `near_sdk::env::is_valid_account_id`, which accepts exactly the
/// names described by `valid_account_bytes`.
#[verifier::external_body]
fn is_valid_account_id(b: &[u8]) -> (r: bool)
    ensures
        r == valid_account_bytes(b@),
{
    near_sdk::env::is_valid_account_id(b)
}

/// An account identifier that has passed validation.
#[derive(Clone, Debug)]
pub struct AccountId {
    id: String,
}

impl View for AccountId {
    type V = Seq<char>;

    closed spec fn view(&self) -> Seq<char> {
        self.id@
    }
}

impl AccountId {
    /// The identifier `s`, if it is a valid account name.
    pub fn parse(s: &str) -> (r: Option<AccountId>)
        ensures
            r is Some <==> valid_account_bytes(s.spec_bytes()),
            r is Some ==> r->0@ == s@,
    {
        if is_valid_account_id(s.as_bytes()) {
            Some(AccountId { id: s.to_owned() })
        } else {
            None
        }
    }

    /// The identifier as text.
    pub fn as_str(&self) -> (r: &str)
        ensures
            r@ == self@,
    {
        self.id.as_str()
    }

    /// Whether two identifiers name the same account.
    pub fn same_as(&self, other: &AccountId) -> (r: bool)
        ensures
            r == (self@ == other@),
    {
        self.id == other.id
    }
}

} // verus!
