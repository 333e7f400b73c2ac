use sumire::api::health::health;
use sumire::api::notes::{
    get_user_id, write_note_after_lookup, write_note_outcome, write_note_prepared,
    write_note_start, Note, SessionLookup, WriteNote, WriteNoteReply, WriteNoteStep,
};
use sumire::api::token::{token, token_outcome, token_with, TokenReply, TokenStep, UpdateOutcome};
use sumire::api::users::register::{self as short_register, User};
use sumire::api::users::{
    register, register_hashed, register_outcome, register_salted, Duplicate, HashFailed,
    Register, RegisterReply, RegisterStep,
};
use argon2::password_hash::{PasswordHash, PasswordVerifier};
use sumire::api::validation::{empty_string, length_within, Field, Message, Rule, Violation};
use sumire::api::wah::wah as api_wah;
use sumire::api::InsertOutcome;
use sumire::grammar::{is_google_email, is_username};
use sumire::smtp::{code_body, recipient, CODE_SUBJECT};
use sumire::status::StatusCode;
use sumire::text::{decimal_string, is_whitespace, same_text, trim};
use sumire::wah::wah;

fn account(email: &str, username: &str, password: &str) -> Register {
    Register {
        email: email.to_string(),
        username: username.to_string(),
        password: password.to_string(),
    }
}

fn v(field: Field, rule: Rule, message: Message) -> Violation {
    Violation { field, rule, message }
}

fn is_v4(id: u128) -> bool {
    (id >> 76) & 0xf == 4 && (id >> 62) & 0x3 == 2
}

#[test]
fn status_numbers() {
    assert_eq!(StatusCode::Success.as_u16(), 200);
    assert_eq!(StatusCode::Created.as_u16(), 201);
    assert_eq!(StatusCode::Unauthorized.as_u16(), 401);
    assert_eq!(StatusCode::Conflict.as_u16(), 409);
    assert_eq!(StatusCode::UnprocessableEntity.as_u16(), 422);
    assert_eq!(StatusCode::InternalServerError.as_u16(), 500);
    assert_eq!(health(), StatusCode::Success);
}

#[test]
fn wah_bodies() {
    assert_eq!(wah(), "Ninomae Ina'nis is Cute");
    assert_eq!(api_wah(true), "Ninomae Ina'nis is Cute");
    assert_eq!(api_wah(false), "not so wah?");
}

#[test]
fn whitespace_and_trim() {
    assert!(is_whitespace(' '));
    assert!(is_whitespace('\t'));
    assert!(is_whitespace('\u{3000}'));
    assert!(is_whitespace('\u{85}'));
    assert!(!is_whitespace('a'));
    assert!(!is_whitespace('\u{200b}'));
    assert_eq!(trim("  hello world \n"), "hello world");
    assert_eq!(trim("\u{a0}x\u{2003}"), "x");
    assert_eq!(trim(" \t\n "), "");
    assert_eq!(trim(""), "");
    assert_eq!(trim("abc"), "abc");
    // Trimming twice changes nothing.
    let once = trim("  ünïcode  ");
    assert_eq!(trim(&once), once);
    for s in ["  a b ", "\n\nx", "y\t", "   ", ""] {
        assert_eq!(trim(s), s.trim());
        assert_eq!(trim(&trim(s)), trim(s));
    }
}

#[test]
fn same_text_compares_characters() {
    assert!(same_text("notes_pkey", "notes_pkey"));
    assert!(!same_text("notes_pkey", "notes_pke"));
    assert!(!same_text("a", "b"));
    assert!(same_text("", ""));
}

#[test]
fn decimal_rendering() {
    assert_eq!(decimal_string(0), "0");
    assert_eq!(decimal_string(7), "7");
    assert_eq!(decimal_string(10), "10");
    assert_eq!(decimal_string(123456), "123456");
    assert_eq!(decimal_string(-42), "-42");
    assert_eq!(decimal_string(i64::MAX), "9223372036854775807");
    assert_eq!(decimal_string(i64::MIN), "-9223372036854775808");
    for n in [-1000i64, -9, -1, 1, 9, 99, 100, 4096, 31337] {
        assert_eq!(decimal_string(n), n.to_string());
    }
    // Distinct codes give distinct bodies.
    assert_ne!(code_body(12), code_body(-12));
    assert_ne!(code_body(12), code_body(120));
}

#[test]
fn code_mail() {
    assert_eq!(CODE_SUBJECT, "sumire: code");
    assert_eq!(code_body(482913), "482913");
    let bare = recipient("user@example.com").unwrap();
    assert_eq!(bare.name, None);
    assert_eq!(bare.address, "user@example.com");
    let named = recipient("Some One <someone@example.com>").unwrap();
    assert_eq!(named.name.as_deref(), Some("Some One"));
    assert_eq!(named.address, "someone@example.com");
    assert_eq!(code_body(-42), "-42");
    assert_eq!(recipient("not an address").unwrap_err(), StatusCode::InternalServerError);
    assert_eq!(recipient("").unwrap_err(), StatusCode::InternalServerError);
}

#[test]
fn empty_string_check() {
    assert!(empty_string(&"note".to_string()).is_ok());
    assert!(empty_string(&"  note  ".to_string()).is_ok());
    let e = empty_string(&"   ".to_string()).unwrap_err();
    assert_eq!(e.code, "empty");
    assert_eq!(empty_string(&String::new()).unwrap_err().code, "empty");
    assert!(empty_string(&"\t\n\u{3000}".to_string()).is_err());
}

#[test]
fn length_bounds() {
    assert!(length_within("abcd", Some(4), Some(20)));
    assert!(!length_within("abc", Some(4), Some(20)));
    assert!(!length_within("abcdefghijklmnopqrstu", Some(4), Some(20)));
    // Characters, not bytes, are counted.
    assert!(length_within("ééé", None, Some(3)));
    assert!(length_within("", None, None));
}

#[test]
fn violation_texts() {
    assert_eq!(Field::Email.name(), "email");
    assert_eq!(Field::Username.name(), "username");
    assert_eq!(Field::Password.name(), "password");
    assert_eq!(Field::Title.name(), "title");
    assert_eq!(Field::Body.name(), "body");
    assert_eq!(Rule::NotBlank.code(), "empty");
    assert_eq!(Rule::Shape.code(), "invalid");
    assert_eq!(Rule::Length { min: None, max: Some(42) }.code(), "length");
    assert_eq!(Message::OnlyGoogle.text(), "only_google");
    assert_eq!(Message::LengthEmail.text(), "length_email");
    assert_eq!(Message::InvalidUsername.text(), "invalid_username");
    assert_eq!(Message::LengthName.text(), "length_name");
    assert_eq!(Message::LengthPassword.text(), "length_password");
    assert_eq!(Message::EmptyTitle.text(), "empty_title");
    assert_eq!(Message::LengthTitle.text(), "length_title");
    assert_eq!(Message::EmptyBody.text(), "empty_body");
    assert_eq!(Message::LengthBody.text(), "length_body");
    assert_eq!(Message::EmptyString.text(), "empty_string");
    assert_eq!(Message::MaxString.text(), "max_string");
    assert_eq!(Duplicate::Username.text(), "USERNAME");
    assert_eq!(Duplicate::Email.text(), "EMAIL");
    assert_eq!(Duplicate::Id.text(), "UUID");
}

#[test]
fn email_shape() {
    assert!(is_google_email("abcdef@gmail.com"));
    assert!(is_google_email("abcdef@googlemail.com"));
    assert!(is_google_email("a.b.c.d.e.f@gmail.com"));
    assert!(is_google_email("john.doe99@gmail.com"));
    assert!(is_google_email(&format!("{}@gmail.com", "a".repeat(30))));
    assert!(!is_google_email(&format!("{}@gmail.com", "a".repeat(31))));
    assert!(!is_google_email("abcde@gmail.com"));
    assert!(!is_google_email("a..bcdef@gmail.com"));
    assert!(!is_google_email(".abcdef@gmail.com"));
    assert!(!is_google_email("abcdef.@gmail.com"));
    assert!(!is_google_email("Abcdef@gmail.com"));
    assert!(!is_google_email("abc_def@gmail.com"));
    assert!(!is_google_email("abcdef@yahoo.com"));
    assert!(!is_google_email("abcdef@gmail.co"));
    assert!(!is_google_email("@gmail.com"));
    assert!(!is_google_email(""));
}

#[test]
fn username_shape() {
    assert!(is_username("abcd"));
    assert!(is_username("sumire"));
    assert!(is_username(&"z".repeat(20)));
    assert!(!is_username("abc"));
    assert!(!is_username(&"z".repeat(21)));
    assert!(!is_username("Sumire"));
    assert!(!is_username("sumire1"));
    assert!(!is_username("ab cd"));
}

#[test]
fn register_validation() {
    assert!(account("johndoe@gmail.com", "johndoe", "correct horse").validate().is_empty());
    // Ten characters are too few here, and enough for the other route.
    assert_eq!(
        account("johndoe@gmail.com", "johndoe", "0123456789").validate(),
        vec![v(
            Field::Password,
            Rule::Length { min: Some(11), max: Some(69) },
            Message::LengthPassword
        )]
    );
    let other = User {
        email: "johndoe@gmail.com".to_string(),
        username: "johndoe".to_string(),
        password: "01234567".to_string(),
    };
    assert!(other.validate().is_empty());
    let short = User { password: "0123456".to_string(), ..other };
    assert_eq!(
        short.validate(),
        vec![v(
            Field::Password,
            Rule::Length { min: Some(8), max: Some(69) },
            Message::LengthPassword
        )]
    );
    // Every broken rule, in order.
    assert_eq!(
        account("x@y.z", "Ab", "").validate(),
        vec![
            v(Field::Email, Rule::Shape, Message::OnlyGoogle),
            v(Field::Email, Rule::Length { min: Some(16), max: Some(45) }, Message::LengthEmail),
            v(Field::Username, Rule::Shape, Message::InvalidUsername),
            v(Field::Username, Rule::Length { min: Some(4), max: Some(20) }, Message::LengthName),
            v(
                Field::Password,
                Rule::Length { min: Some(11), max: Some(69) },
                Message::LengthPassword
            ),
        ]
    );
    // A long address of the right shape breaks only the length rule.
    let long = format!("{}{}@googlemail.com", "a.".repeat(12), "a".repeat(10));
    assert!(is_google_email(&long));
    assert_eq!(
        account(&long, "johndoe", "correct horse").validate(),
        vec![v(Field::Email, Rule::Length { min: Some(16), max: Some(45) }, Message::LengthEmail)]
    );
    // A username of the right shape never breaks the length rule.
    assert!(account("johndoe@gmail.com", "abcd", "correct horse").validate().is_empty());
    assert!(account("johndoe@gmail.com", &"q".repeat(20), "correct horse")
        .validate()
        .is_empty());
}

#[test]
fn register_rejects_invalid() {
    match register(account("nope", "johndoe", "correct horse")) {
        RegisterStep::Reply(RegisterReply::Invalid(found)) => {
            assert_eq!(
                found,
                vec![
                    v(Field::Email, Rule::Shape, Message::OnlyGoogle),
                    v(
                        Field::Email,
                        Rule::Length { min: Some(16), max: Some(45) },
                        Message::LengthEmail
                    ),
                ]
            );
        }
        _ => panic!("an invalid account must be answered with its broken rules"),
    }
    let reply = RegisterReply::Invalid(vec![]);
    assert_eq!(reply.status(), StatusCode::Success);
}

#[test]
fn register_builds_row() {
    let step = register(account("johndoe@gmail.com", "johndoe", "correct horse"));
    let first = match step {
        RegisterStep::Insert(u) => u,
        _ => panic!("a valid account must be inserted"),
    };
    assert_eq!(first.email, "johndoe@gmail.com");
    assert_eq!(first.username, "johndoe");
    assert!(first.password_hash.starts_with("$argon2id$v=19$m=19456,t=2,p=1$"));
    assert_eq!(first.password_hash.chars().count(), 97);
    assert_ne!(first.password_hash, "correct horse");
    assert!(verifies("correct horse", &first.password_hash));
    assert!(!verifies("johndoe@gmail.com", &first.password_hash));
    assert!(is_v4(first.user_id));
    // After 2020-01-01.
    assert!(first.created_at_micros > 1_577_836_800_000_000);
    let second = match register(account("johndoe@gmail.com", "johndoe", "correct horse")) {
        RegisterStep::Insert(u) => u,
        _ => panic!("a valid account must be inserted"),
    };
    assert_ne!(first.user_id, second.user_id);
    assert_ne!(first.password_hash, second.password_hash);

    match short_register::register(User {
        email: "johndoe@gmail.com".to_string(),
        username: "johndoe".to_string(),
        password: "01234567".to_string(),
    }) {
        RegisterStep::Insert(u) => assert!(u.password_hash.starts_with("$argon2id$v=19$")),
        _ => panic!("a valid account must be inserted"),
    }
}

fn verifies(password: &str, phc: &str) -> bool {
    let parsed = PasswordHash::new(phc).unwrap();
    argon2::Argon2::default().verify_password(password.as_bytes(), &parsed).is_ok()
}

#[test]
fn register_salted_steps() {
    let salt = "c29tZXNhbHRzb21lc2FsdA";
    let hash_of = |password: &str| match register_salted(
        "e".to_string(),
        "u".to_string(),
        password,
        salt,
        7,
        9,
    ) {
        RegisterStep::Insert(u) => {
            assert_eq!(u.email, "e");
            assert_eq!(u.username, "u");
            assert_eq!(u.user_id, 7);
            assert_eq!(u.created_at_micros, 9);
            u.password_hash
        }
        _ => panic!("a hashed account must be inserted"),
    };
    let first = hash_of("correct horse");
    // The hash is a function of the password and the salt.
    assert_eq!(first, hash_of("correct horse"));
    assert_ne!(first, hash_of("correct horsf"));
    assert!(first.starts_with("$argon2id$v=19$m=19456,t=2,p=1$"));
    assert_eq!(first.chars().count(), 75 + salt.len());
    assert_eq!(&first[31..53], salt);
    assert_eq!(&first[53..54], "$");
    assert!(verifies("correct horse", &first));
    assert!(!verifies("correct horsf", &first));
    // A salt that is not Base64 cannot be used: the answer is 500.
    assert!(matches!(
        register_salted("e".to_string(), "u".to_string(), "pw", "no", 7, 9),
        RegisterStep::Reply(RegisterReply::InternalError)
    ));
}

#[test]
fn register_hashed_steps() {
    match register_hashed("e".to_string(), "u".to_string(), Err(HashFailed), 7, 9) {
        RegisterStep::Reply(RegisterReply::InternalError) => {}
        _ => panic!("a failed hash is a server error"),
    }
    match register_hashed("e".to_string(), "u".to_string(), Ok("h".to_string()), 7, 9) {
        RegisterStep::Insert(u) => {
            assert_eq!(u.email, "e");
            assert_eq!(u.username, "u");
            assert_eq!(u.password_hash, "h");
            assert_eq!(u.user_id, 7);
            assert_eq!(u.created_at_micros, 9);
        }
        _ => panic!("a hashed account must be inserted"),
    }
}

fn failed(constraint: Option<&str>) -> InsertOutcome {
    InsertOutcome::Failed { constraint: constraint.map(|c| c.to_string()) }
}

#[test]
fn register_outcomes() {
    assert!(matches!(register_outcome(&InsertOutcome::Inserted), RegisterReply::Created));
    assert!(matches!(
        register_outcome(&failed(Some("users_username_key"))),
        RegisterReply::Conflict(Duplicate::Username)
    ));
    assert!(matches!(
        register_outcome(&failed(Some("users_email_key"))),
        RegisterReply::Conflict(Duplicate::Email)
    ));
    assert!(matches!(
        register_outcome(&failed(Some("users_pkey"))),
        RegisterReply::Conflict(Duplicate::Id)
    ));
    assert!(matches!(
        register_outcome(&failed(Some("notes_pkey"))),
        RegisterReply::InternalError
    ));
    assert!(matches!(register_outcome(&failed(None)), RegisterReply::InternalError));
    assert_eq!(RegisterReply::Created.status(), StatusCode::Created);
    assert_eq!(RegisterReply::Conflict(Duplicate::Email).status(), StatusCode::Conflict);
    assert_eq!(RegisterReply::InternalError.status(), StatusCode::InternalServerError);

    assert!(matches!(
        short_register::register_outcome(&InsertOutcome::Inserted),
        RegisterReply::Created
    ));
    assert!(matches!(
        short_register::register_outcome(&failed(Some("users_username_key"))),
        RegisterReply::InternalError
    ));
}

fn note_request(title: &str, body: &str) -> WriteNote {
    WriteNote { title: title.to_string(), body: body.to_string() }
}

#[test]
fn write_note_validation() {
    assert!(note_request("groceries", "milk, eggs").validate().is_empty());
    assert_eq!(
        note_request("   ", "").validate(),
        vec![
            v(Field::Title, Rule::NotBlank, Message::EmptyTitle),
            v(Field::Body, Rule::NotBlank, Message::EmptyBody),
        ]
    );
    assert_eq!(
        note_request(&"t".repeat(43), &"b".repeat(421)).validate(),
        vec![
            v(Field::Title, Rule::Length { min: None, max: Some(42) }, Message::LengthTitle),
            v(Field::Body, Rule::Length { min: None, max: Some(420) }, Message::LengthBody),
        ]
    );
    assert!(note_request(&"t".repeat(42), &"b".repeat(420)).validate().is_empty());
    // The length rule counts the untrimmed text.
    let padded = format!(" {} ", "t".repeat(41));
    assert_eq!(
        note_request(&padded, "b").validate(),
        vec![v(Field::Title, Rule::Length { min: None, max: Some(42) }, Message::LengthTitle)]
    );
    let note = Note { id: 1, title: " ".to_string(), body: "b".repeat(421) };
    assert_eq!(
        note.validate(),
        vec![
            v(Field::Title, Rule::NotBlank, Message::EmptyString),
            v(Field::Body, Rule::Length { min: None, max: Some(420) }, Message::MaxString),
        ]
    );
}

#[test]
fn user_lookup() {
    assert_eq!(get_user_id(SessionLookup::Found(5)), Ok(5));
    assert_eq!(get_user_id(SessionLookup::NotFound), Err(StatusCode::Unauthorized));
    assert_eq!(get_user_id(SessionLookup::Failed), Err(StatusCode::InternalServerError));
}

#[test]
fn write_note_steps() {
    assert!(matches!(
        write_note_start(None),
        WriteNoteStep::Reply(WriteNoteReply::Unauthorized)
    ));
    match write_note_start(Some("abc".to_string())) {
        WriteNoteStep::LookUpSession(s) => assert_eq!(s, "abc"),
        _ => panic!("a session must be looked up"),
    }
    assert!(matches!(
        write_note_after_lookup(note_request("t", "b"), SessionLookup::NotFound),
        WriteNoteStep::Reply(WriteNoteReply::Unauthorized)
    ));
    assert!(matches!(
        write_note_after_lookup(note_request("t", "b"), SessionLookup::Failed),
        WriteNoteStep::Reply(WriteNoteReply::InternalError)
    ));
    match write_note_after_lookup(note_request("", "b"), SessionLookup::Found(3)) {
        WriteNoteStep::Reply(WriteNoteReply::Invalid(found)) => {
            assert_eq!(found, vec![v(Field::Title, Rule::NotBlank, Message::EmptyTitle)])
        }
        _ => panic!("a blank title must be refused"),
    }
    match write_note_after_lookup(note_request("  shopping ", "\n milk \n"), SessionLookup::Found(3)) {
        WriteNoteStep::Insert { note, user_id, created_at_micros } => {
            assert!(created_at_micros > 1_577_836_800_000_000);
            assert_eq!(user_id, 3);
            assert_eq!(note.title, "shopping");
            assert_eq!(note.body, "milk");
            assert!(is_v4(note.id));
            // A stored note meets the stored-note rules.
            assert!(note.validate().is_empty());
        }
        _ => panic!("a valid note must be inserted"),
    }
    match write_note_prepared(note_request(" a ", " b "), 4, 99, 12) {
        WriteNoteStep::Insert { note, user_id, created_at_micros } => {
            assert_eq!(created_at_micros, 12);
            assert_eq!(user_id, 4);
            assert_eq!(note.id, 99);
            assert_eq!(note.title, "a");
            assert_eq!(note.body, "b");
        }
        _ => panic!("a valid note must be inserted"),
    }
}

#[test]
fn write_note_outcomes() {
    let note = || Note { id: 8, title: "t".to_string(), body: "b".to_string() };
    match write_note_outcome(note(), &InsertOutcome::Inserted) {
        WriteNoteReply::Created(n) => {
            assert_eq!(n.id, 8);
            assert_eq!(n.title, "t");
            assert_eq!(n.body, "b");
        }
        _ => panic!("a stored note must be sent back"),
    }
    assert!(matches!(
        write_note_outcome(note(), &failed(Some("notes_pkey"))),
        WriteNoteReply::Conflict(Duplicate::Id)
    ));
    assert!(matches!(
        write_note_outcome(note(), &failed(Some("users_pkey"))),
        WriteNoteReply::InternalError
    ));
    assert!(matches!(write_note_outcome(note(), &failed(None)), WriteNoteReply::InternalError));
    assert_eq!(WriteNoteReply::Created(note()).status(), StatusCode::Created);
    assert_eq!(WriteNoteReply::Unauthorized.status(), StatusCode::Unauthorized);
    assert_eq!(WriteNoteReply::Invalid(vec![]).status(), StatusCode::UnprocessableEntity);
    assert_eq!(WriteNoteReply::Conflict(Duplicate::Id).status(), StatusCode::Conflict);
    assert_eq!(WriteNoteReply::InternalError.status(), StatusCode::InternalServerError);
}

#[test]
fn token_steps() {
    assert!(matches!(token(None), TokenStep::Reply(TokenReply::Unauthorized)));
    let old = "x".repeat(420);
    let (first_old, first_new) = match token(Some(old.clone())) {
        TokenStep::Rotate { old_token, new_token } => (old_token, new_token),
        _ => panic!("a token must be rotated"),
    };
    assert_eq!(first_old, old);
    assert_eq!(first_new.chars().count(), 420);
    assert!(first_new.chars().all(|c| c.is_ascii_alphanumeric()));
    let second_new = match token(Some(old.clone())) {
        TokenStep::Rotate { new_token, .. } => new_token,
        _ => panic!("a token must be rotated"),
    };
    assert_ne!(first_new, second_new);
    match token_with(Some("o".to_string()), "n".to_string()) {
        TokenStep::Rotate { old_token, new_token } => {
            assert_eq!(old_token, "o");
            assert_eq!(new_token, "n");
        }
        _ => panic!("a token must be rotated"),
    }
    assert!(matches!(
        token_with(None, "n".to_string()),
        TokenStep::Reply(TokenReply::Unauthorized)
    ));
}

#[test]
fn token_outcomes() {
    match token_outcome("fresh".to_string(), UpdateOutcome::Updated(1)) {
        TokenReply::Issued(t) => assert_eq!(t, "fresh"),
        _ => panic!("one replaced token issues the new one"),
    }
    assert!(matches!(
        token_outcome("fresh".to_string(), UpdateOutcome::Updated(0)),
        TokenReply::Unauthorized
    ));
    assert!(matches!(
        token_outcome("fresh".to_string(), UpdateOutcome::Updated(2)),
        TokenReply::Unauthorized
    ));
    assert!(matches!(
        token_outcome("fresh".to_string(), UpdateOutcome::Failed),
        TokenReply::InternalError
    ));
    assert_eq!(TokenReply::Issued(String::new()).status(), StatusCode::Success);
    assert_eq!(TokenReply::Unauthorized.status(), StatusCode::Unauthorized);
    assert_eq!(TokenReply::InternalError.status(), StatusCode::InternalServerError);
}
