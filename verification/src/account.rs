//! Account identifiers: the names under which donors and beneficiaries are
//! known.

use vstd::prelude::*;

verus! {

/// The characters that may separate the parts of an account identifier.
pub open spec fn is_separator(c: char) -> bool {
    c == '-' || c == '_' || c == '.'
}

/// Lower-case ASCII letters and decimal digits.
pub open spec fn is_lower_alphanumeric(c: char) -> bool {
    ('a' <= c && c <= 'z') || ('0' <= c && c <= '9')
}

/// Whether `text` is a syntactically valid account identifier: between 2 and
/// 64 characters, each a lower-case letter, a digit or a separator, with no
/// separator at either end and no two separators in a row.
pub open spec fn is_valid_account_text(text: Seq<char>) -> bool {
    &&& 2 <= text.len() <= 64
    &&& forall|i: int|
        0 <= i < text.len() ==> is_lower_alphanumeric(#[trigger] text[i]) || is_separator(text[i])
    &&& !is_separator(text[0])
    &&& !is_separator(text[text.len() - 1])
    &&& forall|i: int|
        0 <= i < text.len() - 1 ==> !(is_separator(#[trigger] text[i]) && is_separator(
            text[i + 1],
        ))
}

/// Asks `near_sdk::env::is_valid_account_id` whether the UTF-8 bytes of `text`
/// form a valid account identifier.
///
/// Trusted: the claim is that the answer is [`is_valid_account_text`] of the
/// characters of `text`. The outside function rejects byte lengths outside
/// 2..=64, any byte other than `a`-`z`, `0`-`9`, `-`, `_`, `.`, a separator
/// that comes first or directly after another separator, and a separator that
/// comes last. A text that passes holds ASCII only, so its byte and character
/// sequences agree; a text with any other character fails both tests.
#[verifier::external_body]
fn host_accepts_account_text(text: &str) -> (accepted: bool)
    ensures
        accepted == is_valid_account_text(text@),
{
    near_sdk::env::is_valid_account_id(text.as_bytes())
}

/// The text handed to [`AccountId::parse`] was not a valid account identifier.
#[derive(Debug, Clone, Copy, PartialEq, Eq)]
pub struct ParseAccountIdError {}

/// A syntactically valid account identifier.
///
/// Every value comes from [`AccountId::parse`], directly or as a clone, so
/// every value of this type satisfies [`is_valid_account_text`].
#[derive(Debug)]
pub struct AccountId {
    name: String,
}

impl View for AccountId {
    type V = Seq<char>;

    closed spec fn view(&self) -> Seq<char> {
        self.name@
    }
}

impl AccountId {
    #[verifier::type_invariant]
    spec fn well_formed(self) -> bool {
        is_valid_account_text(self.name@)
    }

    /// Validates `text` and wraps it.
    pub fn parse(text: &str) -> (parsed: Result<AccountId, ParseAccountIdError>)
        ensures
            is_valid_account_text(text@) <==> parsed is Ok,
            parsed matches Ok(id) ==> id@ == text@,
    {
        if host_accepts_account_text(text) {
            Ok(AccountId { name: text.to_owned() })
        } else {
            Err(ParseAccountIdError {  })
        }
    }

    /// The identifier as text.
    pub fn as_str(&self) -> (text: &str)
        ensures
            text@ == self@,
            is_valid_account_text(text@),
    {
        proof {
            use_type_invariant(self);
        }
        self.name.as_str()
    }
}

impl Clone for AccountId {
    fn clone(&self) -> (copy: Self)
        ensures
            copy == *self,
            is_valid_account_text(copy@),
    {
        proof {
            use_type_invariant(self);
        }
        AccountId { name: self.name.clone() }
    }
}

impl PartialEq for AccountId {
    fn eq(&self, other: &Self) -> (equal: bool) {
        self.name == other.name
    }
}

impl vstd::std_specs::cmp::PartialEqSpecImpl for AccountId {
    open spec fn obeys_eq_spec() -> bool {
        true
    }

    open spec fn eq_spec(&self, other: &Self) -> bool {
        self@ == other@
    }
}

impl Eq for AccountId {

}

} // verus!
