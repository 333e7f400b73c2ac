//! The stand-alone registration route, which accepts shorter passwords and
//! answers every failed insert with `500`.
use vstd::prelude::*;

use crate::api::users::{
    account_violations, account_violations_of, lemma_account_rules, prepare_account,
    salted_step, RegisterReply, RegisterStep,
};
use crate::api::validation::{Field, Message, Rule, Violation};
use crate::api::InsertOutcome;
use crate::outside::is_salt;

verus! {

/// The shortest password this route accepts, in characters.
pub const PASSWORD_MIN: u64 = 8;

/// A request to register an account.
pub struct User {
    pub email: String,
    pub username: String,
    pub password: String,
}

impl User {
    /// The rules the request breaks.
    pub open spec fn violations(&self) -> Seq<Violation> {
        account_violations(self.email@, self.username@, self.password@, PASSWORD_MIN)
    }

    /// Checks the request.
    pub fn validate(&self) -> (found: Vec<Violation>)
        ensures
            found@ == self.violations(),
    {
        account_violations_of(&self.email, &self.username, &self.password, PASSWORD_MIN)
    }
}

/// The first step of the route: an invalid request is answered with its broken
/// rules; a valid one comes to what its password, hashed with a random salt,
/// comes to: `500` when hashing fails, otherwise the account row with that hash.
pub fn register(payload: User) -> (step: RegisterStep)
    ensures
        payload.violations().len() > 0 ==> (step matches RegisterStep::Reply(
            RegisterReply::Invalid(found),
        ) && found@ == payload.violations()),
        payload.violations().len() == 0 ==> exists|salt: Seq<char>|
            #[trigger] is_salt(salt) && salted_step(
                step,
                payload.email,
                payload.username,
                payload.password@,
                salt,
            ),
{
    prepare_account(payload.email, payload.username, payload.password, PASSWORD_MIN)
}

/// The answer once the insert has been tried: `201` when stored, `500` otherwise.
pub fn register_outcome(outcome: &InsertOutcome) -> (reply: RegisterReply)
    ensures
        outcome is Inserted ==> reply is Created,
        outcome is Failed ==> reply is InternalError,
{
    match outcome {
        InsertOutcome::Inserted => RegisterReply::Created,
        InsertOutcome::Failed { .. } => RegisterReply::InternalError,
    }
}

/// This route accepts passwords of 8 to 69 characters: the password rule is
/// reported exactly outside that range.
pub proof fn lemma_user_password_length(payload: User)
    ensures
        payload.violations().contains(
            Violation {
                field: Field::Password,
                rule: Rule::Length { min: Some(8), max: Some(69) },
                message: Message::LengthPassword,
            },
        ) <==> !(8 <= payload.password@.len() <= 69),
{
    lemma_account_rules(payload.email@, payload.username@, payload.password@, 8);
}

} // verus!
