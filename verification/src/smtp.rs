//! The e-mail that carries a verification code.
use vstd::prelude::*;

use crate::outside::{mailbox_parts, optional_view, parse_mailbox};
use crate::status::StatusCode;
use crate::text::{decimal, decimal_string};

verus! {

/// The subject of a code e-mail.
pub const CODE_SUBJECT: &'static str = "sumire: code";

/// The body of a code e-mail: the code in decimal.
pub fn code_body(code: i64) -> (body: String)
    ensures
        body@ == decimal(code as int),
{
    decimal_string(code)
}

/// A mailbox: an optional display name and an address.
#[derive(Clone, Debug)]
pub struct Recipient {
    pub name: Option<String>,
    pub address: String,
}

/// The mailbox that `to` names, or `500` when it does not parse as one. The
/// service uses it both for the recipient of a code e-mail and for its sender.
pub fn recipient(to: &str) -> (mailbox: Result<Recipient, StatusCode>)
    ensures
        mailbox is Ok <==> mailbox_parts(to@) is Some,
        mailbox matches Ok(m) ==> mailbox_parts(to@) == Some((optional_view(m.name), m.address@)),
        mailbox matches Err(s) ==> s == StatusCode::InternalServerError,
{
    match parse_mailbox(to) {
        Ok(m) => Ok(m),
        Err(_) => Err(StatusCode::InternalServerError),
    }
}

} // verus!
