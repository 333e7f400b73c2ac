//! Writing notes: the session check, the rules a note must meet, and the answer
//! once the note has been stored or refused.
use vstd::prelude::*;

use crate::api::validation::{
    empty_string, length_within, report, unless, within_length, Field, Message, Rule, Violation,
};
use crate::api::users::Duplicate;
use crate::api::InsertOutcome;
use crate::outside::{is_uuid_v4, now_micros, random_uuid};
use crate::status::StatusCode;
use crate::text::{
    all_white_space, lemma_trim_idempotent, lemma_trimmed_empty, same_text, trim, trimmed,
};

verus! {

/// The longest title accepted, in characters.
pub const TITLE_MAX: u64 = 42;

/// The longest body accepted, in characters.
pub const BODY_MAX: u64 = 420;

/// The rules a title and a body break, in the order they are checked, each
/// reported with the given messages: the title is blank, the title is too long,
/// the body is blank, the body is too long.
pub open spec fn text_violations(
    title: Seq<char>,
    body: Seq<char>,
    empty_title: Message,
    long_title: Message,
    empty_body: Message,
    long_body: Message,
) -> Seq<Violation> {
    unless(
        trimmed(title).len() > 0,
        Violation { field: Field::Title, rule: Rule::NotBlank, message: empty_title },
    ) + unless(
        within_length(title.len(), None, Some(TITLE_MAX)),
        Violation {
            field: Field::Title,
            rule: Rule::Length { min: None, max: Some(TITLE_MAX) },
            message: long_title,
        },
    ) + unless(
        trimmed(body).len() > 0,
        Violation { field: Field::Body, rule: Rule::NotBlank, message: empty_body },
    ) + unless(
        within_length(body.len(), None, Some(BODY_MAX)),
        Violation {
            field: Field::Body,
            rule: Rule::Length { min: None, max: Some(BODY_MAX) },
            message: long_body,
        },
    )
}

fn text_violations_of(
    title: &String,
    body: &String,
    empty_title: Message,
    long_title: Message,
    empty_body: Message,
    long_body: Message,
) -> (found: Vec<Violation>)
    ensures
        found@ == text_violations(
            title@,
            body@,
            empty_title,
            long_title,
            empty_body,
            long_body,
        ),
{
    let mut found: Vec<Violation> = Vec::new();
    report(
        &mut found,
        empty_string(title).is_ok(),
        Violation { field: Field::Title, rule: Rule::NotBlank, message: empty_title },
    );
    report(
        &mut found,
        length_within(title.as_str(), None, Some(TITLE_MAX)),
        Violation {
            field: Field::Title,
            rule: Rule::Length { min: None, max: Some(TITLE_MAX) },
            message: long_title,
        },
    );
    report(
        &mut found,
        empty_string(body).is_ok(),
        Violation { field: Field::Body, rule: Rule::NotBlank, message: empty_body },
    );
    report(
        &mut found,
        length_within(body.as_str(), None, Some(BODY_MAX)),
        Violation {
            field: Field::Body,
            rule: Rule::Length { min: None, max: Some(BODY_MAX) },
            message: long_body,
        },
    );
    assert(found@ =~= text_violations(
        title@,
        body@,
        empty_title,
        long_title,
        empty_body,
        long_body,
    ));
    found
}

/// A request to write a note.
pub struct WriteNote {
    pub title: String,
    pub body: String,
}

/// The rules a written note's title and body break.
pub open spec fn write_note_violations(title: Seq<char>, body: Seq<char>) -> Seq<Violation> {
    text_violations(
        title,
        body,
        Message::EmptyTitle,
        Message::LengthTitle,
        Message::EmptyBody,
        Message::LengthBody,
    )
}

impl WriteNote {
    /// The rules the request breaks.
    pub open spec fn violations(&self) -> Seq<Violation> {
        write_note_violations(self.title@, self.body@)
    }

    /// Checks the request.
    pub fn validate(&self) -> (found: Vec<Violation>)
        ensures
            found@ == self.violations(),
    {
        text_violations_of(
            &self.title,
            &self.body,
            Message::EmptyTitle,
            Message::LengthTitle,
            Message::EmptyBody,
            Message::LengthBody,
        )
    }
}

/// A stored note.
pub struct Note {
    pub id: u128,
    pub title: String,
    pub body: String,
}

/// The rules a stored note's title and body break.
pub open spec fn note_violations(title: Seq<char>, body: Seq<char>) -> Seq<Violation> {
    text_violations(
        title,
        body,
        Message::EmptyString,
        Message::MaxString,
        Message::EmptyString,
        Message::MaxString,
    )
}

impl Note {
    /// The rules the note breaks.
    pub open spec fn violations(&self) -> Seq<Violation> {
        note_violations(self.title@, self.body@)
    }

    /// Checks the note.
    pub fn validate(&self) -> (found: Vec<Violation>)
        ensures
            found@ == self.violations(),
    {
        text_violations_of(
            &self.title,
            &self.body,
            Message::EmptyString,
            Message::MaxString,
            Message::EmptyString,
            Message::MaxString,
        )
    }
}

/// How the session lookup answered: the verified user of the session, no such
/// user, or a failed query.
pub enum SessionLookup {
    Found(u128),
    NotFound,
    Failed,
}

/// The user a session belongs to, `401` when the session has no verified user,
/// `500` when the lookup failed.
pub fn get_user_id(lookup: SessionLookup) -> (user: Result<u128, StatusCode>)
    ensures
        lookup matches SessionLookup::Found(u) ==> user == Ok::<u128, StatusCode>(u),
        lookup is NotFound ==> user == Err::<u128, StatusCode>(StatusCode::Unauthorized),
        lookup is Failed ==> user == Err::<u128, StatusCode>(StatusCode::InternalServerError),
{
    match lookup {
        SessionLookup::Found(u) => Ok(u),
        SessionLookup::NotFound => Err(StatusCode::Unauthorized),
        SessionLookup::Failed => Err(StatusCode::InternalServerError),
    }
}

/// The answer to a request to write a note.
pub enum WriteNoteReply {
    /// The note was stored; it is sent back.
    Created(Note),
    /// No session, or no verified user for it.
    Unauthorized,
    /// The request broke these rules; they are sent back.
    Invalid(Vec<Violation>),
    /// The new note's id collides with a stored one (body `UUID`).
    Conflict(Duplicate),
    /// A query failed.
    InternalError,
}

impl WriteNoteReply {
    pub open spec fn status_of(&self) -> StatusCode {
        match self {
            WriteNoteReply::Created(_) => StatusCode::Created,
            WriteNoteReply::Unauthorized => StatusCode::Unauthorized,
            WriteNoteReply::Invalid(_) => StatusCode::UnprocessableEntity,
            WriteNoteReply::Conflict(_) => StatusCode::Conflict,
            WriteNoteReply::InternalError => StatusCode::InternalServerError,
        }
    }

    /// The status of the answer.
    pub fn status(&self) -> (s: StatusCode)
        ensures
            s == self.status_of(),
    {
        match self {
            WriteNoteReply::Created(_) => StatusCode::Created,
            WriteNoteReply::Unauthorized => StatusCode::Unauthorized,
            WriteNoteReply::Invalid(_) => StatusCode::UnprocessableEntity,
            WriteNoteReply::Conflict(_) => StatusCode::Conflict,
            WriteNoteReply::InternalError => StatusCode::InternalServerError,
        }
    }
}

/// What to do next with a request to write a note.
pub enum WriteNoteStep {
    Reply(WriteNoteReply),
    /// Look up the user of this session.
    LookUpSession(String),
    /// Store the note for the user, created at the given time (microseconds since
    /// the Unix epoch).
    Insert { note: Note, user_id: u128, created_at_micros: i64 },
}

/// The first step: without a `session_id` cookie the request is refused with `401`.
pub fn write_note_start(session_id: Option<String>) -> (step: WriteNoteStep)
    ensures
        session_id is None ==> step matches WriteNoteStep::Reply(WriteNoteReply::Unauthorized),
        session_id matches Some(s) ==> step == WriteNoteStep::LookUpSession(s),
{
    match session_id {
        Some(s) => WriteNoteStep::LookUpSession(s),
        None => WriteNoteStep::Reply(WriteNoteReply::Unauthorized),
    }
}

/// The step for a request of a known user, with the id and creation time for the
/// new note: its broken rules, or the note to store, its title and body trimmed.
pub fn write_note_prepared(
    payload: WriteNote,
    user_id: u128,
    note_id: u128,
    created_at_micros: i64,
) -> (step: WriteNoteStep)
    ensures
        payload.violations().len() > 0 ==> (step matches WriteNoteStep::Reply(
            WriteNoteReply::Invalid(found),
        ) && found@ == payload.violations()),
        payload.violations().len() == 0 ==> (step matches WriteNoteStep::Insert {
            note,
            user_id: u,
            created_at_micros: t,
        } && u == user_id && t == created_at_micros && note.id == note_id && note.title@
            == trimmed(payload.title@) && note.body@ == trimmed(payload.body@)),
{
    let found = payload.validate();
    if found.len() > 0 {
        return WriteNoteStep::Reply(WriteNoteReply::Invalid(found));
    }
    let note = Note {
        id: note_id,
        title: trim(payload.title.as_str()),
        body: trim(payload.body.as_str()),
    };
    WriteNoteStep::Insert { note, user_id, created_at_micros }
}

/// The step after the session lookup: `401` or `500` when it found no user or
/// failed, then the request's broken rules (`422`), or the note to store under a
/// fresh random id.
pub fn write_note_after_lookup(payload: WriteNote, lookup: SessionLookup) -> (step: WriteNoteStep)
    ensures
        lookup is NotFound ==> step matches WriteNoteStep::Reply(WriteNoteReply::Unauthorized),
        lookup is Failed ==> step matches WriteNoteStep::Reply(WriteNoteReply::InternalError),
        lookup matches SessionLookup::Found(user_id) ==> {
            &&& payload.violations().len() > 0 ==> (step matches WriteNoteStep::Reply(
                WriteNoteReply::Invalid(found),
            ) && found@ == payload.violations())
            &&& payload.violations().len() == 0 ==> (step matches WriteNoteStep::Insert {
                note,
                user_id: u,
                ..
            } && u == user_id && is_uuid_v4(note.id) && note.title@ == trimmed(payload.title@)
                && note.body@ == trimmed(payload.body@))
        },
{
    let user_id: u128 = match get_user_id(lookup) {
        Ok(u) => u,
        Err(StatusCode::Unauthorized) => {
            return WriteNoteStep::Reply(WriteNoteReply::Unauthorized);
        },
        Err(_) => {
            return WriteNoteStep::Reply(WriteNoteReply::InternalError);
        },
    };
    let note_id: u128 = random_uuid();
    let created_at_micros: i64 = now_micros();
    write_note_prepared(payload, user_id, note_id, created_at_micros)
}

/// The answer once the insert has been tried: `201` with the note when stored,
/// `409` when the note's id collides (`notes_pkey`), `500` otherwise.
pub fn write_note_outcome(note: Note, outcome: &InsertOutcome) -> (reply: WriteNoteReply)
    ensures
        outcome is Inserted ==> reply == WriteNoteReply::Created(note),
        outcome matches InsertOutcome::Failed { constraint } ==> {
            if constraint matches Some(c) && c@ == "notes_pkey"@ {
                reply == WriteNoteReply::Conflict(Duplicate::Id)
            } else {
                reply is InternalError
            }
        },
{
    match outcome {
        InsertOutcome::Inserted => WriteNoteReply::Created(note),
        InsertOutcome::Failed { constraint } => match constraint {
            Some(c) => {
                if same_text(c.as_str(), "notes_pkey") {
                    WriteNoteReply::Conflict(Duplicate::Id)
                } else {
                    WriteNoteReply::InternalError
                }
            },
            None => WriteNoteReply::InternalError,
        },
    }
}

/// Every note that a valid write request stores meets the rules of a stored note:
/// its title and body are not blank and within their lengths, and they are
/// already trimmed.
pub proof fn lemma_stored_note_is_valid(title: Seq<char>, body: Seq<char>)
    requires
        write_note_violations(title, body).len() == 0,
    ensures
        note_violations(trimmed(title), trimmed(body)).len() == 0,
        trimmed(trimmed(title)) == trimmed(title),
        trimmed(trimmed(body)) == trimmed(body),
{
    lemma_trim_idempotent(title);
    lemma_trim_idempotent(body);
}

/// Which rules a note request breaks: the title is reported blank exactly when
/// it is all white space and too long exactly when it has more than 42
/// characters; the body likewise with 420 characters. Nothing else is ever
/// reported, and a request that keeps these rules breaks none.
pub proof fn lemma_write_note_rules(title: Seq<char>, body: Seq<char>)
    ensures
        ({
            let found = write_note_violations(title, body);
            &&& found.contains(
                Violation {
                    field: Field::Title,
                    rule: Rule::NotBlank,
                    message: Message::EmptyTitle,
                },
            ) <==> all_white_space(title)
            &&& found.contains(
                Violation {
                    field: Field::Title,
                    rule: Rule::Length { min: None, max: Some(42) },
                    message: Message::LengthTitle,
                },
            ) <==> title.len() > 42
            &&& found.contains(
                Violation { field: Field::Body, rule: Rule::NotBlank, message: Message::EmptyBody },
            ) <==> all_white_space(body)
            &&& found.contains(
                Violation {
                    field: Field::Body,
                    rule: Rule::Length { min: None, max: Some(420) },
                    message: Message::LengthBody,
                },
            ) <==> body.len() > 420
            &&& found.len() <= 4
            &&& (found.len() == 0 <==> (!all_white_space(title) && title.len() <= 42
                && !all_white_space(body) && body.len() <= 420))
        }),
{
    lemma_trimmed_empty(title);
    lemma_trimmed_empty(body);
    let t1 = Violation { field: Field::Title, rule: Rule::NotBlank, message: Message::EmptyTitle };
    let t2 = Violation {
        field: Field::Title,
        rule: Rule::Length { min: None, max: Some(42) },
        message: Message::LengthTitle,
    };
    let b1 = Violation { field: Field::Body, rule: Rule::NotBlank, message: Message::EmptyBody };
    let b2 = Violation {
        field: Field::Body,
        rule: Rule::Length { min: None, max: Some(420) },
        message: Message::LengthBody,
    };
    let a = unless(!all_white_space(title), t1);
    let b = unless(title.len() <= 42, t2);
    let c = unless(!all_white_space(body), b1);
    let d = unless(body.len() <= 420, b2);
    let found = write_note_violations(title, body);
    assert(found =~= a + b + c + d);
    let ab = a + b;
    let abc = ab + c;
    if all_white_space(title) {
        assert(found[0] == t1);
    }
    if title.len() > 42 {
        assert(found[a.len() as int] == t2);
    }
    if all_white_space(body) {
        assert(found[ab.len() as int] == b1);
    }
    if body.len() > 420 {
        assert(found[abc.len() as int] == b2);
    }
    assert forall|x: Violation| #[trigger] found.contains(x) implies {
        ||| (x == t1 && a.len() == 1)
        ||| (x == t2 && b.len() == 1)
        ||| (x == b1 && c.len() == 1)
        ||| (x == b2 && d.len() == 1)
    } by {
        let i = choose|i: int| 0 <= i < found.len() && found[i] == x;
        if i < a.len() {
        } else if i < ab.len() {
            assert(found[i] == b[i - a.len()]);
        } else if i < abc.len() {
            assert(found[i] == c[i - ab.len()]);
        } else {
            assert(found[i] == d[i - abc.len()]);
        }
    }
}

} // verus!
