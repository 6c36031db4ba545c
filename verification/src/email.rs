//! The mail exchangers of a recipient: the domain to ask about, and the
//! order in which the exchangers are tried.
use vstd::prelude::*;

use crate::text::{split_once, split_once_spec};

verus! {

/// The domain of an email address as `email.split('@').nth(1)` finds it:
/// the text between the first at sign and the next one (or the end).
pub open spec fn domain_of(email: Seq<char>) -> Option<Seq<char>> {
    match split_once_spec(email, '@') {
        None => None,
        Some(parts) => match split_once_spec(parts.1, '@') {
            Some(inner) => Some(inner.0),
            None => Some(parts.1),
        },
    }
}

/// Why the mail exchangers of an address could not be found.
pub enum EmailError {
    /// The address has no at sign; this is the address.
    InvalidAddress(String),
}

impl EmailError {
    /// The text that describes the error.
    pub fn message(&self) -> (r: String)
        ensures
            self matches EmailError::InvalidAddress(e) && r@ == "Invalid email address: "@ + e@,
    {
        match self {
            EmailError::InvalidAddress(e) => {
                let mut s = "Invalid email address: ".to_owned();
                s.append(e.as_str());
                s
            },
        }
    }
}

/// The domain whose mail exchangers deliver mail for `email`.
pub fn mx_domain(email: &str) -> (r: Result<String, EmailError>)
    ensures
        match domain_of(email@) {
            Some(d) => r matches Ok(s) && s@ == d,
            None => r matches Err(EmailError::InvalidAddress(e)) && e@ == email@,
        },
{
    match split_once(email, '@') {
        None => Err(EmailError::InvalidAddress(email.to_owned())),
        Some((_, rest)) => match split_once(rest, '@') {
            Some((d, _)) => Ok(d.to_owned()),
            None => Ok(rest.to_owned()),
        },
    }
}

/// A mail exchanger: its preference (lower comes first) and its host.
pub struct MxRecord {
    pub preference: u16,
    pub exchange: String,
}

/// A mail exchanger as plain values.
pub open spec fn mx_view(m: MxRecord) -> (u16, Seq<char>) {
    (m.preference, m.exchange@)
}

/// The exchangers come in order of preference.
pub open spec fn by_preference(s: Seq<MxRecord>) -> bool {
    forall|i: int, j: int| 0 <= i < j < s.len() ==> (#[trigger] s[i]).preference <= (#[trigger] s[j]).preference
}

/// `v.sort_unstable_by_key(|m| m.preference)`: puts the exchangers in order
/// of preference, keeping each of them; the order among equal preferences is
/// left open, as the standard library leaves it.
#[verifier::external_body]
fn sort_by_preference(v: &mut Vec<MxRecord>)
    ensures
        final(v)@.map_values(|m: MxRecord| mx_view(m)).to_multiset() == old(v)@.map_values(
            |m: MxRecord| mx_view(m),
        ).to_multiset(),
        by_preference(final(v)@),
{
    v.sort_unstable_by_key(|m| m.preference);
}

/// The exchangers in the order in which they are tried: by preference, lower
/// first.
pub fn sort_mx_records(records: Vec<MxRecord>) -> (r: Vec<MxRecord>)
    ensures
        r@.map_values(|m: MxRecord| mx_view(m)).to_multiset() == records@.map_values(
            |m: MxRecord| mx_view(m),
        ).to_multiset(),
        by_preference(r@),
{
    let mut v = records;
    sort_by_preference(&mut v);
    v
}

} // verus!
