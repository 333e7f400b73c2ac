//! Field validation: the rules a request body must meet, and the violations
//! reported when it does not.
use vstd::prelude::*;

use crate::text::{
    all_white_space, lemma_trim_keeps_printable, lemma_trimmed_empty, trim, trimmed,
};

verus! {

/// An error from a custom field check, identified by its code.
pub struct ValidationError {
    pub code: String,
}

/// The code of the error that `empty_string` reports.
pub open spec fn empty_code() -> Seq<char> {
    "empty"@
}

/// Rejects a field that is empty or all white space, with the code `empty`.
pub fn empty_string(field: &String) -> (r: Result<(), ValidationError>)
    ensures
        r is Err <==> trimmed(field@).len() == 0,
        r is Err <==> all_white_space(field@),
        (exists|i: int| 0 <= i < field@.len() && '!' <= #[trigger] field@[i] && field@[i] <= '~')
            ==> r is Ok,
        r matches Err(e) ==> e.code@ == empty_code(),
{
    proof {
        lemma_trimmed_empty(field@);
        lemma_trim_keeps_printable(field@);
    }
    let t = trim(field.as_str());
    if t.as_str().is_empty() {
        return Err(ValidationError { code: "empty".to_owned() });
    }
    Ok(())
}

/// The request fields that are validated.
#[derive(Clone, Copy, Debug, PartialEq, Eq, Structural)]
pub enum Field {
    Email,
    Username,
    Password,
    Title,
    Body,
}

/// The kind of rule a field broke.
#[derive(Clone, Copy, Debug, PartialEq, Eq, Structural)]
pub enum Rule {
    /// The field is empty or all white space (code `empty`).
    NotBlank,
    /// The field does not have the required shape (code `invalid`).
    Shape,
    /// The field's number of characters is outside the bounds (code `length`).
    Length { min: Option<u64>, max: Option<u64> },
}

/// The message attached to a violation.
#[derive(Clone, Copy, Debug, PartialEq, Eq, Structural)]
pub enum Message {
    OnlyGoogle,
    LengthEmail,
    InvalidUsername,
    LengthName,
    LengthPassword,
    EmptyTitle,
    LengthTitle,
    EmptyBody,
    LengthBody,
    EmptyString,
    MaxString,
}

/// One broken rule: which field, which rule, and the message reported for it.
#[derive(Clone, Copy, Debug, PartialEq, Eq, Structural)]
pub struct Violation {
    pub field: Field,
    pub rule: Rule,
    pub message: Message,
}

/// The character count `len` is within the optional bounds, as the length rule
/// checks it.
pub open spec fn within_length(len: nat, min: Option<u64>, max: Option<u64>) -> bool {
    &&& (min matches Some(m) ==> len >= m)
    &&& (max matches Some(m) ==> len <= m)
}

/// Checks the number of characters of `value` against the optional bounds.
pub fn length_within(value: &str, min: Option<u64>, max: Option<u64>) -> (ok: bool)
    ensures
        ok == within_length(value@.len(), min, max),
{
    let n: u64 = crate::text::char_count(value) as u64;
    match min {
        Some(m) => {
            if n < m {
                return false;
            }
        },
        None => {},
    }
    match max {
        Some(m) => {
            if n > m {
                return false;
            }
        },
        None => {},
    }
    true
}

/// `violation` when the rule held is false, nothing otherwise.
pub open spec fn unless(held: bool, violation: Violation) -> Seq<Violation> {
    if held {
        Seq::empty()
    } else {
        seq![violation]
    }
}

/// Appends `violation` to `found` when the rule did not hold.
pub fn report(found: &mut Vec<Violation>, held: bool, violation: Violation)
    ensures
        final(found)@ == old(found)@ + unless(held, violation),
{
    if !held {
        found.push(violation);
    }
    assert(final(found)@ =~= old(found)@ + unless(held, violation));
}

pub open spec fn field_name(field: Field) -> Seq<char> {
    match field {
        Field::Email => "email"@,
        Field::Username => "username"@,
        Field::Password => "password"@,
        Field::Title => "title"@,
        Field::Body => "body"@,
    }
}

pub open spec fn rule_code(rule: Rule) -> Seq<char> {
    match rule {
        Rule::NotBlank => empty_code(),
        Rule::Shape => "invalid"@,
        Rule::Length { .. } => "length"@,
    }
}

pub open spec fn message_text(message: Message) -> Seq<char> {
    match message {
        Message::OnlyGoogle => "only_google"@,
        Message::LengthEmail => "length_email"@,
        Message::InvalidUsername => "invalid_username"@,
        Message::LengthName => "length_name"@,
        Message::LengthPassword => "length_password"@,
        Message::EmptyTitle => "empty_title"@,
        Message::LengthTitle => "length_title"@,
        Message::EmptyBody => "empty_body"@,
        Message::LengthBody => "length_body"@,
        Message::EmptyString => "empty_string"@,
        Message::MaxString => "max_string"@,
    }
}

impl Field {
    /// The field's name in the request body.
    pub fn name(&self) -> (s: &'static str)
        ensures
            s@ == field_name(*self),
    {
        match self {
            Field::Email => "email",
            Field::Username => "username",
            Field::Password => "password",
            Field::Title => "title",
            Field::Body => "body",
        }
    }
}

impl Rule {
    /// The error code reported for the rule.
    pub fn code(&self) -> (s: &'static str)
        ensures
            s@ == rule_code(*self),
    {
        match self {
            Rule::NotBlank => "empty",
            Rule::Shape => "invalid",
            Rule::Length { .. } => "length",
        }
    }
}

impl Message {
    /// The message text.
    pub fn text(&self) -> (s: &'static str)
        ensures
            s@ == message_text(*self),
    {
        match self {
            Message::OnlyGoogle => "only_google",
            Message::LengthEmail => "length_email",
            Message::InvalidUsername => "invalid_username",
            Message::LengthName => "length_name",
            Message::LengthPassword => "length_password",
            Message::EmptyTitle => "empty_title",
            Message::LengthTitle => "length_title",
            Message::EmptyBody => "empty_body",
            Message::LengthBody => "length_body",
            Message::EmptyString => "empty_string",
            Message::MaxString => "max_string",
        }
    }
}

} // verus!
