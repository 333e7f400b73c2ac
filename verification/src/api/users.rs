//! Account registration: what a registration request must hold, and what the
//! service does with it between the password hash and the database insert.
use vstd::prelude::*;

use crate::api::InsertOutcome;
use crate::api::validation::{
    length_within, report, unless, within_length, Field, Message, Rule, Violation,
};
use crate::grammar::{email_matches, is_google_email, is_username, username_matches};
use crate::outside::{
    argon2id_phc, hash_password, is_default_argon2id_phc, is_salt, is_uuid_v4, now_micros,
    random_salt, random_uuid,
};
use crate::status::StatusCode;
use crate::text::same_text;

pub mod register;

verus! {

/// The shortest e-mail address accepted, in characters.
pub const EMAIL_MIN: u64 = 16;

/// The longest e-mail address accepted, in characters.
pub const EMAIL_MAX: u64 = 45;

/// The shortest username accepted, in characters.
pub const USERNAME_MIN: u64 = 4;

/// The longest username accepted, in characters.
pub const USERNAME_MAX: u64 = 20;

/// The longest password accepted, in characters.
pub const PASSWORD_MAX: u64 = 69;

/// The shortest password that `/users/register` accepts, in characters.
pub const PASSWORD_MIN: u64 = 11;

/// The rules an account's e-mail, username and password break, in the order
/// they are checked: the e-mail's shape and length, the username's shape and
/// length, the password's length (at least `password_min`, at most 69).
pub open spec fn account_violations(
    email: Seq<char>,
    username: Seq<char>,
    password: Seq<char>,
    password_min: u64,
) -> Seq<Violation> {
    unless(
        email_matches(email),
        Violation { field: Field::Email, rule: Rule::Shape, message: Message::OnlyGoogle },
    ) + unless(
        within_length(email.len(), Some(EMAIL_MIN), Some(EMAIL_MAX)),
        Violation {
            field: Field::Email,
            rule: Rule::Length { min: Some(EMAIL_MIN), max: Some(EMAIL_MAX) },
            message: Message::LengthEmail,
        },
    ) + unless(
        username_matches(username),
        Violation { field: Field::Username, rule: Rule::Shape, message: Message::InvalidUsername },
    ) + unless(
        within_length(username.len(), Some(USERNAME_MIN), Some(USERNAME_MAX)),
        Violation {
            field: Field::Username,
            rule: Rule::Length { min: Some(USERNAME_MIN), max: Some(USERNAME_MAX) },
            message: Message::LengthName,
        },
    ) + unless(
        within_length(password.len(), Some(password_min), Some(PASSWORD_MAX)),
        Violation {
            field: Field::Password,
            rule: Rule::Length { min: Some(password_min), max: Some(PASSWORD_MAX) },
            message: Message::LengthPassword,
        },
    )
}

/// Checks an account's e-mail, username and password.
pub fn account_violations_of(
    email: &String,
    username: &String,
    password: &String,
    password_min: u64,
) -> (found: Vec<Violation>)
    ensures
        found@ == account_violations(email@, username@, password@, password_min),
{
    let mut found: Vec<Violation> = Vec::new();
    report(
        &mut found,
        is_google_email(email.as_str()),
        Violation { field: Field::Email, rule: Rule::Shape, message: Message::OnlyGoogle },
    );
    report(
        &mut found,
        length_within(email.as_str(), Some(EMAIL_MIN), Some(EMAIL_MAX)),
        Violation {
            field: Field::Email,
            rule: Rule::Length { min: Some(EMAIL_MIN), max: Some(EMAIL_MAX) },
            message: Message::LengthEmail,
        },
    );
    report(
        &mut found,
        is_username(username.as_str()),
        Violation { field: Field::Username, rule: Rule::Shape, message: Message::InvalidUsername },
    );
    report(
        &mut found,
        length_within(username.as_str(), Some(USERNAME_MIN), Some(USERNAME_MAX)),
        Violation {
            field: Field::Username,
            rule: Rule::Length { min: Some(USERNAME_MIN), max: Some(USERNAME_MAX) },
            message: Message::LengthName,
        },
    );
    report(
        &mut found,
        length_within(password.as_str(), Some(password_min), Some(PASSWORD_MAX)),
        Violation {
            field: Field::Password,
            rule: Rule::Length { min: Some(password_min), max: Some(PASSWORD_MAX) },
            message: Message::LengthPassword,
        },
    );
    assert(found@ =~= account_violations(email@, username@, password@, password_min));
    found
}

/// A request to register an account.
pub struct Register {
    pub email: String,
    pub username: String,
    pub password: String,
}

impl Register {
    /// The rules the request breaks.
    pub open spec fn violations(&self) -> Seq<Violation> {
        account_violations(self.email@, self.username@, self.password@, PASSWORD_MIN)
    }

    /// Checks the request.
    pub fn validate(&self) -> (found: Vec<Violation>)
        ensures
            found@ == self.violations(),
    {
        account_violations_of(&self.email, &self.username, &self.password, PASSWORD_MIN)
    }
}

/// Which unique column a rejected insert collided with.
#[derive(Clone, Copy, Debug, PartialEq, Eq, Structural)]
pub enum Duplicate {
    Username,
    Email,
    Id,
}

pub open spec fn duplicate_text(d: Duplicate) -> Seq<char> {
    match d {
        Duplicate::Username => "USERNAME"@,
        Duplicate::Email => "EMAIL"@,
        Duplicate::Id => "UUID"@,
    }
}

impl Duplicate {
    /// The body sent with the conflict.
    pub fn text(&self) -> (s: &'static str)
        ensures
            s@ == duplicate_text(*self),
    {
        match self {
            Duplicate::Username => "USERNAME",
            Duplicate::Email => "EMAIL",
            Duplicate::Id => "UUID",
        }
    }
}

/// The answer to a registration request.
pub enum RegisterReply {
    /// The account was stored.
    Created,
    /// The request broke these rules; they are sent back as the body.
    Invalid(Vec<Violation>),
    /// The account collides with a stored one.
    Conflict(Duplicate),
    /// Hashing or storing failed.
    InternalError,
}

impl RegisterReply {
    /// The status of the answer. Broken rules are sent back as a plain JSON body,
    /// which carries `200 OK`.
    pub open spec fn status_of(&self) -> StatusCode {
        match self {
            RegisterReply::Created => StatusCode::Created,
            RegisterReply::Invalid(_) => StatusCode::Success,
            RegisterReply::Conflict(_) => StatusCode::Conflict,
            RegisterReply::InternalError => StatusCode::InternalServerError,
        }
    }

    /// The status of the answer.
    pub fn status(&self) -> (s: StatusCode)
        ensures
            s == self.status_of(),
    {
        match self {
            RegisterReply::Created => StatusCode::Created,
            RegisterReply::Invalid(_) => StatusCode::Success,
            RegisterReply::Conflict(_) => StatusCode::Conflict,
            RegisterReply::InternalError => StatusCode::InternalServerError,
        }
    }
}

/// The row to insert for a new account.
pub struct NewUser {
    pub user_id: u128,
    pub email: String,
    pub username: String,
    pub password_hash: String,
    pub created_at_micros: i64,
}

/// What to do next with a registration request: answer, or insert the account.
pub enum RegisterStep {
    Reply(RegisterReply),
    Insert(NewUser),
}

/// The password could not be hashed.
pub struct HashFailed;

/// The step after hashing the password of an account that broke no rule: answer
/// `500` when hashing failed, or insert the account with the hash, the new id and
/// the creation time.
pub fn register_hashed(
    email: String,
    username: String,
    hashed: Result<String, HashFailed>,
    user_id: u128,
    created_at_micros: i64,
) -> (step: RegisterStep)
    ensures
        hashed is Err ==> step matches RegisterStep::Reply(RegisterReply::InternalError),
        hashed matches Ok(h) ==> step == RegisterStep::Insert(
            NewUser { user_id, email, username, password_hash: h, created_at_micros },
        ),
{
    match hashed {
        Ok(password_hash) => RegisterStep::Insert(
            NewUser { user_id, email, username, password_hash, created_at_micros },
        ),
        Err(_) => RegisterStep::Reply(RegisterReply::InternalError),
    }
}

/// The step for an account that broke no rule, once its password is hashed with
/// `salt` (Argon2id, default parameters): `500` when hashing fails, otherwise the
/// row to insert, holding the PHC string of the password and salt.
pub fn register_salted(
    email: String,
    username: String,
    password: &str,
    salt: &str,
    user_id: u128,
    created_at_micros: i64,
) -> (step: RegisterStep)
    ensures
        argon2id_phc(password@, salt@) is None ==> step matches RegisterStep::Reply(
            RegisterReply::InternalError,
        ),
        argon2id_phc(password@, salt@) matches Some(h) ==> (step matches RegisterStep::Insert(u)
            && u.user_id == user_id && u.email == email && u.username == username
            && u.password_hash@ == h && u.created_at_micros == created_at_micros
            && is_default_argon2id_phc(h, salt@)),
{
    let hashed = match hash_password(password, salt) {
        Ok(h) => Ok(h),
        Err(_) => Err(HashFailed),
    };
    register_hashed(email, username, hashed, user_id, created_at_micros)
}

/// What a valid account comes to once its password is hashed with `salt`:
/// `500` when hashing fails, otherwise an insert of the account's e-mail and
/// username, the PHC string of the password and salt (of the default Argon2id
/// shape, and so never the password itself, which is at most 69 characters
/// where the PHC string of a drawn salt has 97), and a random (version 4) id.
pub open spec fn salted_step(
    step: RegisterStep,
    email: String,
    username: String,
    password: Seq<char>,
    salt: Seq<char>,
) -> bool {
    match argon2id_phc(password, salt) {
        Some(h) => step matches RegisterStep::Insert(u) && u.email == email && u.username
            == username && u.password_hash@ == h && is_default_argon2id_phc(h, salt) && h
            != password && is_uuid_v4(
            u.user_id,
        ),
        None => step matches RegisterStep::Reply(RegisterReply::InternalError),
    }
}

/// The first step of a registration: check the account, and when it breaks no
/// rule draw a random salt, hash the password with it, draw a random id and read
/// the clock.
pub fn prepare_account(email: String, username: String, password: String, password_min: u64) -> (step:
    RegisterStep)
    ensures
        ({
            let v = account_violations(email@, username@, password@, password_min);
            &&& v.len() > 0 ==> (step matches RegisterStep::Reply(RegisterReply::Invalid(found))
                && found@ == v)
            &&& v.len() == 0 ==> exists|salt: Seq<char>|
                #[trigger] is_salt(salt) && salted_step(step, email, username, password@, salt)
        }),
{
    let found = account_violations_of(&email, &username, &password, password_min);
    if found.len() > 0 {
        return RegisterStep::Reply(RegisterReply::Invalid(found));
    }
    let ghost (e, n) = (email, username);
    let salt = random_salt();
    let user_id: u128 = random_uuid();
    let created_at_micros: i64 = now_micros();
    let step = register_salted(email, username, password.as_str(), salt.as_str(), user_id, created_at_micros);
    assert(is_salt(salt@) && salted_step(step, e, n, password@, salt@));
    step
}

/// The first step of `/users/register`: an invalid request is answered with its
/// broken rules; a valid one comes to what its password, hashed with a random
/// salt, comes to: `500` when hashing fails, otherwise the account row with that
/// hash.
pub fn register(payload: Register) -> (step: RegisterStep)
    ensures
        payload.violations().len() > 0 ==> (step matches RegisterStep::Reply(
            RegisterReply::Invalid(found),
        ) && found@ == payload.violations()),
        payload.violations().len() == 0 ==> exists|salt: Seq<char>|
            #[trigger] is_salt(salt) && salted_step(
                step,
                payload.email,
                payload.username,
                payload.password@,
                salt,
            ),
{
    prepare_account(payload.email, payload.username, payload.password, PASSWORD_MIN)
}

/// The column a constraint name stands for.
pub open spec fn duplicate_of(constraint: Seq<char>) -> Option<Duplicate> {
    if constraint == "users_username_key"@ {
        Some(Duplicate::Username)
    } else if constraint == "users_email_key"@ {
        Some(Duplicate::Email)
    } else if constraint == "users_pkey"@ {
        Some(Duplicate::Id)
    } else {
        None
    }
}

/// The answer to `/users/register` once the insert has been tried: `201` when
/// stored, `409` naming the colliding column for the username, e-mail and id
/// constraints, `500` for anything else.
pub fn register_outcome(outcome: &InsertOutcome) -> (reply: RegisterReply)
    ensures
        outcome is Inserted ==> reply is Created,
        outcome matches InsertOutcome::Failed { constraint } ==> match constraint {
            Some(c) => match duplicate_of(c@) {
                Some(d) => reply == RegisterReply::Conflict(d),
                None => reply is InternalError,
            },
            None => reply is InternalError,
        },
{
    match outcome {
        InsertOutcome::Inserted => RegisterReply::Created,
        InsertOutcome::Failed { constraint } => match constraint {
            Some(c) => {
                if same_text(c.as_str(), "users_username_key") {
                    RegisterReply::Conflict(Duplicate::Username)
                } else if same_text(c.as_str(), "users_email_key") {
                    RegisterReply::Conflict(Duplicate::Email)
                } else if same_text(c.as_str(), "users_pkey") {
                    RegisterReply::Conflict(Duplicate::Id)
                } else {
                    RegisterReply::InternalError
                }
            },
            None => RegisterReply::InternalError,
        },
    }
}

/// Every account that passes the checks, and so every account row that
/// registration inserts, has an e-mail of the accepted shape and length, a
/// username of the accepted shape (hence of 4 to 20 characters), and a password
/// of `password_min` to 69 characters.
pub proof fn lemma_accepted_account(
    email: Seq<char>,
    username: Seq<char>,
    password: Seq<char>,
    password_min: u64,
)
    requires
        account_violations(email, username, password, password_min).len() == 0,
    ensures
        email_matches(email),
        EMAIL_MIN <= email.len() <= EMAIL_MAX,
        username_matches(username),
        USERNAME_MIN <= username.len() <= USERNAME_MAX,
        password_min <= password.len() <= PASSWORD_MAX,
{
}

/// Which rules an account breaks, field by field, in characters counted as
/// the length rules count them: the e-mail's length is reported exactly when it
/// is outside 16 to 45 characters, the username's exactly when it is outside 4 to
/// 20, the password's exactly when it is outside `password_min` to 69; the shape
/// rules are reported exactly when the shapes do not match. Nothing else is ever
/// reported, and an account that keeps all these rules breaks none.
pub proof fn lemma_account_rules(
    email: Seq<char>,
    username: Seq<char>,
    password: Seq<char>,
    password_min: u64,
)
    ensures
        ({
            let found = account_violations(email, username, password, password_min);
            &&& found.contains(
                Violation { field: Field::Email, rule: Rule::Shape, message: Message::OnlyGoogle },
            ) <==> !email_matches(email)
            &&& found.contains(
                Violation {
                    field: Field::Email,
                    rule: Rule::Length { min: Some(16), max: Some(45) },
                    message: Message::LengthEmail,
                },
            ) <==> !(16 <= email.len() <= 45)
            &&& found.contains(
                Violation {
                    field: Field::Username,
                    rule: Rule::Shape,
                    message: Message::InvalidUsername,
                },
            ) <==> !username_matches(username)
            &&& found.contains(
                Violation {
                    field: Field::Username,
                    rule: Rule::Length { min: Some(4), max: Some(20) },
                    message: Message::LengthName,
                },
            ) <==> !(4 <= username.len() <= 20)
            &&& found.contains(
                Violation {
                    field: Field::Password,
                    rule: Rule::Length { min: Some(password_min), max: Some(69) },
                    message: Message::LengthPassword,
                },
            ) <==> !(password_min <= password.len() <= 69)
            &&& forall|i: int|
                0 <= i < found.len() ==> {
                    ||| #[trigger] found[i] == Violation {
                        field: Field::Email,
                        rule: Rule::Shape,
                        message: Message::OnlyGoogle,
                    }
                    ||| found[i] == Violation {
                        field: Field::Email,
                        rule: Rule::Length { min: Some(16), max: Some(45) },
                        message: Message::LengthEmail,
                    }
                    ||| found[i] == Violation {
                        field: Field::Username,
                        rule: Rule::Shape,
                        message: Message::InvalidUsername,
                    }
                    ||| found[i] == Violation {
                        field: Field::Username,
                        rule: Rule::Length { min: Some(4), max: Some(20) },
                        message: Message::LengthName,
                    }
                    ||| found[i] == Violation {
                        field: Field::Password,
                        rule: Rule::Length { min: Some(password_min), max: Some(69) },
                        message: Message::LengthPassword,
                    }
                }
            &&& (found.len() == 0 <==> (email_matches(email) && 16 <= email.len() <= 45
                && username_matches(username) && 4 <= username.len() <= 20 && password_min
                <= password.len() <= 69))
        }),
{
    let e1 = Violation { field: Field::Email, rule: Rule::Shape, message: Message::OnlyGoogle };
    let e2 = Violation {
        field: Field::Email,
        rule: Rule::Length { min: Some(16), max: Some(45) },
        message: Message::LengthEmail,
    };
    let u1 = Violation {
        field: Field::Username,
        rule: Rule::Shape,
        message: Message::InvalidUsername,
    };
    let u2 = Violation {
        field: Field::Username,
        rule: Rule::Length { min: Some(4), max: Some(20) },
        message: Message::LengthName,
    };
    let p1 = Violation {
        field: Field::Password,
        rule: Rule::Length { min: Some(password_min), max: Some(69) },
        message: Message::LengthPassword,
    };
    let a = unless(email_matches(email), e1);
    let b = unless(16 <= email.len() <= 45, e2);
    let c = unless(username_matches(username), u1);
    let d = unless(4 <= username.len() <= 20, u2);
    let f = unless(password_min <= password.len() <= 69, p1);
    let found = account_violations(email, username, password, password_min);
    assert(found =~= a + b + c + d + f);
    let ab = a + b;
    let abc = ab + c;
    let abcd = abc + d;
    assert forall|i: int| 0 <= i < found.len() implies {
        ||| #[trigger] found[i] == e1
        ||| found[i] == e2
        ||| found[i] == u1
        ||| found[i] == u2
        ||| found[i] == p1
    } by {
        if i < a.len() {
        } else if i < ab.len() {
            assert(found[i] == b[i - a.len()]);
        } else if i < abc.len() {
            assert(found[i] == c[i - ab.len()]);
        } else if i < abcd.len() {
            assert(found[i] == d[i - abc.len()]);
        } else {
            assert(found[i] == f[i - abcd.len()]);
        }
    }
    // Each violation sits at its own place, after the ones that come before it.
    if !email_matches(email) {
        assert(found[0] == e1);
    }
    if !(16 <= email.len() <= 45) {
        assert(found[a.len() as int] == e2);
    }
    if !username_matches(username) {
        assert(found[ab.len() as int] == u1);
    }
    if !(4 <= username.len() <= 20) {
        assert(found[abc.len() as int] == u2);
    }
    if !(password_min <= password.len() <= 69) {
        assert(found[abcd.len() as int] == p1);
    }
    assert forall|x: Violation| #[trigger] found.contains(x) implies {
        ||| (x == e1 && a.len() == 1)
        ||| (x == e2 && b.len() == 1)
        ||| (x == u1 && c.len() == 1)
        ||| (x == u2 && d.len() == 1)
        ||| (x == p1 && f.len() == 1)
    } by {
        let i = choose|i: int| 0 <= i < found.len() && found[i] == x;
        if i < a.len() {
        } else if i < ab.len() {
            assert(found[i] == b[i - a.len()]);
        } else if i < abc.len() {
            assert(found[i] == c[i - ab.len()]);
        } else if i < abcd.len() {
            assert(found[i] == d[i - abc.len()]);
        } else {
            assert(found[i] == f[i - abcd.len()]);
        }
    }
}

/// `/users/register` accepts passwords of 11 to 69 characters: the password
/// rule is reported exactly outside that range.
pub proof fn lemma_register_password_length(payload: Register)
    ensures
        payload.violations().contains(
            Violation {
                field: Field::Password,
                rule: Rule::Length { min: Some(11), max: Some(69) },
                message: Message::LengthPassword,
            },
        ) <==> !(11 <= payload.password@.len() <= 69),
{
    lemma_account_rules(payload.email@, payload.username@, payload.password@, 11);
}

} // verus!
