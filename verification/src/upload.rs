//! The upload of one file: a state machine that the server drives.
//!
//! The server reads the multipart body and writes the file; after each such
//! piece of work it reports what happened as an [`UploadEvent`], and is told
//! by an [`UploadAction`] what to do next. Only the first field that carries
//! a file name is stored; a request holds one upload.

use crate::auth::{
    auth_outcome, outlasts_the_clock, rejection_reply, AuthGate, Rejection,
};
use crate::clock::current_time;
use crate::cookies::{carried_token, jar_cookies, CookieView};
use crate::response::{
    text_reply, Response, ResponseView, STATUS_BAD_REQUEST, STATUS_INTERNAL_ERROR, STATUS_OK,
};
use vstd::prelude::*;

verus! {

/// The length of the token that makes a stored name unique.
pub const UPLOAD_TOKEN_LEN: usize = 36;

/// `c` is a decimal digit or one of the letters `a` to `f`.
pub open spec fn is_lower_hex(c: char) -> bool {
    ('0' <= c && c <= '9') || ('a' <= c && c <= 'f')
}

/// `t` has the shape of a hyphenated UUID in lower case: 36 characters,
/// hyphens at the positions 8, 13, 18 and 23, hexadecimal digits elsewhere.
pub open spec fn is_upload_token(t: Seq<char>) -> bool {
    &&& t.len() == UPLOAD_TOKEN_LEN
    &&& forall|i: int|
        0 <= i < t.len() ==> if i == 8 || i == 13 || i == 18 || i == 23 {
            #[trigger] t[i] == '-'
        } else {
            is_lower_hex(t[i])
        }
}

/// Calls `uuid::Uuid::new_v4` and formats the UUID with its `Display`.
///
/// Trusted: the text has the hyphenated lower-case shape. That two calls give
/// two different texts is likely beyond doubt, and not claimed.
#[verifier::external_body]
fn fresh_token() -> (t: String)
    ensures
        is_upload_token(t@),
{
    uuid::Uuid::new_v4().to_string()
}

/// The name under which a file is stored: the token, a hyphen, and the name
/// that the client gave.
pub open spec fn stored_name(token: Seq<char>, file_name: Seq<char>) -> Seq<char> {
    token + seq!['-'] + file_name
}

/// Forms the name under which the client's file `file_name` is stored.
pub fn unique_name(token: &str, file_name: &str) -> (name: String)
    ensures
        name@ == stored_name(token@, file_name@),
{
    proof {
        reveal_strlit("-");
    }
    let name = String::from_str(token).concat("-").concat(file_name);
    assert("-"@ =~= seq!['-']);
    name
}

/// Where the upload stands.
#[derive(Debug, PartialEq, Eq)]
pub enum UploadState {
    /// The next field of the body was asked for. `token` is this request's
    /// unique token.
    AwaitingField { token: String },
    /// The bytes of the chosen field were asked for; the file will be stored
    /// as `name`.
    AwaitingPayload { name: String },
    /// The file was handed over to be stored as `name`.
    AwaitingStore { name: String },
    /// The reply was given.
    Done,
}

/// What the server reports.
#[derive(Debug, PartialEq, Eq)]
pub enum UploadEvent {
    /// The body held another field, with this file name or without one.
    Field { file_name: Option<String> },
    /// The body holds no further field.
    NoMoreFields,
    /// The body is not well-formed multipart data.
    Malformed,
    /// Reading the body failed.
    ReadFailed,
    /// The bytes of the chosen field, all of them.
    Payload { content: Vec<u8> },
    /// The file was written.
    Stored,
    /// The file could not be written.
    StoreFailed,
}

/// What the server is to do next.
#[derive(Debug, PartialEq, Eq)]
pub enum UploadAction {
    /// Read the next field of the body and report it.
    NextField,
    /// Read the bytes of the field just reported.
    ReadPayload,
    /// Write `content` to the file `name` in the upload directory.
    Store { name: String, content: Vec<u8> },
    /// Send this reply; the upload is over.
    Reply(Response),
}

/// The mathematical value of an [`UploadState`].
pub enum UploadStateView {
    AwaitingField { token: Seq<char> },
    AwaitingPayload { name: Seq<char> },
    AwaitingStore { name: Seq<char> },
    Done,
}

/// The mathematical value of an [`UploadEvent`].
pub enum UploadEventView {
    Field { file_name: Option<Seq<char>> },
    NoMoreFields,
    Malformed,
    ReadFailed,
    Payload { content: Seq<u8> },
    Stored,
    StoreFailed,
}

/// The mathematical value of an [`UploadAction`].
pub enum UploadActionView {
    NextField,
    ReadPayload,
    Store { name: Seq<char>, content: Seq<u8> },
    Reply(ResponseView),
}

impl View for UploadState {
    type V = UploadStateView;

    open spec fn view(&self) -> UploadStateView {
        match self {
            UploadState::AwaitingField { token } => UploadStateView::AwaitingField {
                token: token@,
            },
            UploadState::AwaitingPayload { name } => UploadStateView::AwaitingPayload {
                name: name@,
            },
            UploadState::AwaitingStore { name } => UploadStateView::AwaitingStore { name: name@ },
            UploadState::Done => UploadStateView::Done,
        }
    }
}

impl View for UploadEvent {
    type V = UploadEventView;

    open spec fn view(&self) -> UploadEventView {
        match self {
            UploadEvent::Field { file_name: Some(n) } => UploadEventView::Field {
                file_name: Some(n@),
            },
            UploadEvent::Field { file_name: None } => UploadEventView::Field { file_name: None },
            UploadEvent::NoMoreFields => UploadEventView::NoMoreFields,
            UploadEvent::Malformed => UploadEventView::Malformed,
            UploadEvent::ReadFailed => UploadEventView::ReadFailed,
            UploadEvent::Payload { content } => UploadEventView::Payload { content: content@ },
            UploadEvent::Stored => UploadEventView::Stored,
            UploadEvent::StoreFailed => UploadEventView::StoreFailed,
        }
    }
}

impl View for UploadAction {
    type V = UploadActionView;

    open spec fn view(&self) -> UploadActionView {
        match self {
            UploadAction::NextField => UploadActionView::NextField,
            UploadAction::ReadPayload => UploadActionView::ReadPayload,
            UploadAction::Store { name, content } => UploadActionView::Store {
                name: name@,
                content: content@,
            },
            UploadAction::Reply(r) => UploadActionView::Reply(r@),
        }
    }
}

/// The text of the reply to a body without a file.
pub open spec fn no_file_text() -> Seq<char> {
    "No file found in request"@
}

/// The text of the reply where the body could not be worked through.
pub open spec fn process_failed_text() -> Seq<char> {
    "Failed to process upload"@
}

/// The text of the reply where the file's bytes could not be read.
pub open spec fn read_failed_text() -> Seq<char> {
    "Failed to read uploaded file"@
}

/// The text of the reply where the file could not be written.
pub open spec fn save_failed_text() -> Seq<char> {
    "Failed to save file"@
}

/// The text of the reply to a stored upload: it ends with the stored name.
pub open spec fn stored_text(name: Seq<char>) -> Seq<char> {
    "File uploaded successfully: "@ + name
}

/// The end of an upload with the given reply.
pub open spec fn finish(status: u16, text: Seq<char>) -> (UploadStateView, UploadActionView) {
    (UploadStateView::Done, UploadActionView::Reply(text_reply(status, text)))
}

/// The step of the machine: the state and the action that follow `event` in
/// `state`.
///
/// A field without a file name is passed over, and the first one with a file
/// name is chosen. A body that ends before that, or is malformed, is the
/// client's fault; a failure to read or to write is the server's. An event
/// that does not answer the action last given ends the upload as a failure
/// of the server.
pub open spec fn upload_transition(state: UploadStateView, event: UploadEventView) -> (
    UploadStateView,
    UploadActionView,
) {
    match state {
        UploadStateView::AwaitingField { token } => match event {
            UploadEventView::Field { file_name: None } => (
                UploadStateView::AwaitingField { token },
                UploadActionView::NextField,
            ),
            UploadEventView::Field { file_name: Some(n) } => (
                UploadStateView::AwaitingPayload { name: stored_name(token, n) },
                UploadActionView::ReadPayload,
            ),
            UploadEventView::NoMoreFields => finish(STATUS_BAD_REQUEST, no_file_text()),
            UploadEventView::Malformed => finish(STATUS_BAD_REQUEST, process_failed_text()),
            _ => finish(STATUS_INTERNAL_ERROR, process_failed_text()),
        },
        UploadStateView::AwaitingPayload { name } => match event {
            UploadEventView::Payload { content } => (
                UploadStateView::AwaitingStore { name },
                UploadActionView::Store { name, content },
            ),
            UploadEventView::Malformed => finish(STATUS_INTERNAL_ERROR, read_failed_text()),
            UploadEventView::ReadFailed => finish(STATUS_INTERNAL_ERROR, read_failed_text()),
            _ => finish(STATUS_INTERNAL_ERROR, process_failed_text()),
        },
        UploadStateView::AwaitingStore { name } => match event {
            UploadEventView::Stored => finish(STATUS_OK, stored_text(name)),
            UploadEventView::StoreFailed => finish(STATUS_INTERNAL_ERROR, save_failed_text()),
            _ => finish(STATUS_INTERNAL_ERROR, process_failed_text()),
        },
        UploadStateView::Done => finish(STATUS_INTERNAL_ERROR, process_failed_text()),
    }
}

/// Ends the upload with a reply of the given status and text.
fn finished(status: u16, text: &str) -> (r: (UploadState, UploadAction))
    ensures
        (r.0@, r.1@) == finish(status, text@),
{
    (UploadState::Done, UploadAction::Reply(Response::text(status, String::from_str(text))))
}

/// Takes one step: given where the upload stands and what the server
/// reports, says where it stands now and what the server is to do.
pub fn upload_step(state: UploadState, event: UploadEvent) -> (r: (UploadState, UploadAction))
    ensures
        (r.0@, r.1@) == upload_transition(state@, event@),
{
    match state {
        UploadState::AwaitingField { token } => match event {
            UploadEvent::Field { file_name: None } => (
                UploadState::AwaitingField { token },
                UploadAction::NextField,
            ),
            UploadEvent::Field { file_name: Some(n) } => (
                UploadState::AwaitingPayload { name: unique_name(token.as_str(), n.as_str()) },
                UploadAction::ReadPayload,
            ),
            UploadEvent::NoMoreFields => finished(STATUS_BAD_REQUEST, "No file found in request"),
            UploadEvent::Malformed => finished(STATUS_BAD_REQUEST, "Failed to process upload"),
            _ => finished(STATUS_INTERNAL_ERROR, "Failed to process upload"),
        },
        UploadState::AwaitingPayload { name } => match event {
            UploadEvent::Payload { content } => {
                let stored = name.clone();
                (UploadState::AwaitingStore { name }, UploadAction::Store { name: stored, content })
            },
            UploadEvent::Malformed => finished(
                STATUS_INTERNAL_ERROR,
                "Failed to read uploaded file",
            ),
            UploadEvent::ReadFailed => finished(
                STATUS_INTERNAL_ERROR,
                "Failed to read uploaded file",
            ),
            _ => finished(STATUS_INTERNAL_ERROR, "Failed to process upload"),
        },
        UploadState::AwaitingStore { name } => match event {
            UploadEvent::Stored => {
                let text = String::from_str("File uploaded successfully: ").concat(name.as_str());
                (UploadState::Done, UploadAction::Reply(Response::text(STATUS_OK, text)))
            },
            UploadEvent::StoreFailed => finished(STATUS_INTERNAL_ERROR, "Failed to save file"),
            _ => finished(STATUS_INTERNAL_ERROR, "Failed to process upload"),
        },
        UploadState::Done => finished(STATUS_INTERNAL_ERROR, "Failed to process upload"),
    }
}

/// How an upload may begin for the cookies `cookies` at the second `now`: a
/// request that the auth gate rejects is answered at once, and one that it
/// lets through is asked for its first field, under a token of its own.
pub open spec fn upload_begins(
    secret: Seq<u8>,
    cookies: Map<Seq<char>, CookieView>,
    now: u64,
    state: UploadStateView,
    action: UploadActionView,
) -> bool {
    match auth_outcome(secret, cookies, now) {
        Err(rejection) => state == UploadStateView::Done && action == UploadActionView::Reply(
            rejection_reply(rejection),
        ),
        Ok(_) => {
            &&& state matches UploadStateView::AwaitingField { token }
            &&& is_upload_token(token)
            &&& action == UploadActionView::NextField
        },
    }
}

/// Begins an upload at the second `now`, for the request whose cookies are
/// in `jar`.
pub fn upload_begin(gate: &AuthGate, jar: &cookie::CookieJar, now: u64) -> (r: (
    UploadState,
    UploadAction,
))
    ensures
        upload_begins(gate.secret(), jar_cookies(*jar), now, r.0@, r.1@),
{
    match gate.authenticate(jar, now) {
        Err(rejection) => (UploadState::Done, UploadAction::Reply(rejection.reply())),
        Ok(_) => (UploadState::AwaitingField { token: fresh_token() }, UploadAction::NextField),
    }
}

/// Begins an upload now. What the clock says is not known here, so the
/// outcome is one that [`upload_begin`] has at some second that a clock can
/// read.
pub fn upload_handler(gate: &AuthGate, jar: &cookie::CookieJar) -> (r: (UploadState, UploadAction))
    ensures
        exists|now: u64|
            now <= i64::MAX && #[trigger] upload_begins(
                gate.secret(),
                jar_cookies(*jar),
                now,
                r.0@,
                r.1@,
            ),
        carried_token(jar_cookies(*jar)) is None ==> r.0@ == UploadStateView::Done && r.1@
            == UploadActionView::Reply(rejection_reply(Rejection::NoSession)),
        outlasts_the_clock(gate.secret(), jar_cookies(*jar)) ==> r.0@ is AwaitingField && r.1@
            == UploadActionView::NextField,
{
    let now: u64 = current_time();
    upload_begin(gate, jar, now)
}

/// The state that the machine reaches from `state` when `events` are
/// reported one after another.
pub open spec fn upload_run(state: UploadStateView, events: Seq<UploadEventView>) -> UploadStateView
    decreases events.len(),
{
    if events.len() == 0 {
        state
    } else {
        upload_run(upload_transition(state, events[0]).0, events.drop_first())
    }
}

/// A stored name ends with the name that the client gave, and is never that
/// name itself.
pub proof fn lemma_stored_name_ends_with_file_name(token: Seq<char>, file_name: Seq<char>)
    ensures
        stored_name(token, file_name).len() == token.len() + 1 + file_name.len(),
        stored_name(token, file_name).skip(token.len() as int + 1) == file_name,
        stored_name(token, file_name) != file_name,
{
    assert(stored_name(token, file_name).skip(token.len() as int + 1) =~= file_name);
}

/// Two uploads under different tokens are stored under different names,
/// whatever the clients called their files: no upload overwrites another.
pub proof fn lemma_distinct_tokens_give_distinct_names(
    token_a: Seq<char>,
    file_name_a: Seq<char>,
    token_b: Seq<char>,
    file_name_b: Seq<char>,
)
    requires
        is_upload_token(token_a),
        is_upload_token(token_b),
        token_a != token_b,
    ensures
        stored_name(token_a, file_name_a) != stored_name(token_b, file_name_b),
{
    let a = stored_name(token_a, file_name_a);
    let b = stored_name(token_b, file_name_b);
    if a == b {
        assert forall|i: int| 0 <= i < token_a.len() implies token_a[i] == token_b[i] by {
            assert(a[i] == token_a[i]);
            assert(b[i] == token_b[i]);
        }
        assert(token_a =~= token_b);
    }
}

/// Only while it waits for a field does the machine ask for one: once a
/// file was chosen, or the reply given, no event makes it read another
/// field.
pub proof fn lemma_next_field_only_while_awaiting_field(
    state: UploadStateView,
    event: UploadEventView,
)
    requires
        !(state is AwaitingField),
    ensures
        upload_transition(state, event).1 != UploadActionView::NextField,
        !(upload_transition(state, event).0 is AwaitingField),
{
}

/// One request stores one file: from a state in which a file was chosen, or
/// the reply given, no run of events leads back to waiting for a field.
pub proof fn lemma_one_file_per_request(state: UploadStateView, events: Seq<UploadEventView>)
    requires
        !(state is AwaitingField),
    ensures
        !(upload_run(state, events) is AwaitingField),
    decreases events.len(),
{
    if events.len() > 0 {
        lemma_next_field_only_while_awaiting_field(state, events[0]);
        lemma_one_file_per_request(upload_transition(state, events[0]).0, events.drop_first());
    }
}

/// The name chosen for a file stays: whatever is reported after the choice,
/// the machine is either done or still holds that name.
pub proof fn lemma_chosen_name_is_kept(name: Seq<char>, events: Seq<UploadEventView>)
    ensures
        ({
            let end = upload_run(UploadStateView::AwaitingPayload { name }, events);
            ||| end == UploadStateView::AwaitingPayload { name }
            ||| end == UploadStateView::AwaitingStore { name }
            ||| end == UploadStateView::Done
        }),
        ({
            let end = upload_run(UploadStateView::AwaitingStore { name }, events);
            ||| end == UploadStateView::AwaitingStore { name }
            ||| end == UploadStateView::Done
        }),
        upload_run(UploadStateView::Done, events) == UploadStateView::Done,
    decreases events.len(),
{
    if events.len() > 0 {
        lemma_chosen_name_is_kept(name, events.drop_first());
    }
}

/// Every event of `events` reports a field without a file name.
pub open spec fn all_without_file_name(events: Seq<UploadEventView>) -> bool {
    forall|i: int|
        0 <= i < events.len() ==> #[trigger] events[i] == (UploadEventView::Field {
            file_name: None,
        })
}

/// Fields without a file name are passed over, and the first field with one
/// is the file of the request: it is chosen, under the request's token.
pub proof fn lemma_first_file_is_chosen(
    token: Seq<char>,
    skipped: Seq<UploadEventView>,
    file_name: Seq<char>,
)
    requires
        all_without_file_name(skipped),
    ensures
        upload_run(UploadStateView::AwaitingField { token }, skipped)
            == (UploadStateView::AwaitingField { token }),
        upload_run(
            UploadStateView::AwaitingField { token },
            skipped.push(UploadEventView::Field { file_name: Some(file_name) }),
        ) == (UploadStateView::AwaitingPayload { name: stored_name(token, file_name) }),
    decreases skipped.len(),
{
    let start = UploadStateView::AwaitingField { token };
    let chosen = UploadEventView::Field { file_name: Some(file_name) };
    if skipped.len() == 0 {
        assert(skipped.push(chosen).drop_first() =~= Seq::<UploadEventView>::empty());
        assert(upload_run(upload_transition(start, chosen).0, Seq::<UploadEventView>::empty())
            == upload_transition(start, chosen).0);
    } else {
        assert(skipped[0] == (UploadEventView::Field { file_name: None }));
        assert(all_without_file_name(skipped.drop_first())) by {
            assert forall|i: int| 0 <= i < skipped.drop_first().len() implies
                #[trigger] skipped.drop_first()[i] == (UploadEventView::Field {
                    file_name: None,
                }) by {
                assert(skipped.drop_first()[i] == skipped[i + 1]);
            }
        }
        lemma_first_file_is_chosen(token, skipped.drop_first(), file_name);
        assert(skipped.push(chosen).drop_first() =~= skipped.drop_first().push(chosen));
        assert(skipped.push(chosen)[0] == skipped[0]);
    }
}

/// `name` is a stored name that was formed under `token`.
pub open spec fn named_under(name: Seq<char>, token: Seq<char>) -> bool {
    exists|file_name: Seq<char>| name == #[trigger] stored_name(token, file_name)
}

/// The upload in `state` runs under `token`: it waits for a field with that
/// token at hand, or has chosen a name formed under it, or is done.
pub open spec fn runs_under(state: UploadStateView, token: Seq<char>) -> bool {
    match state {
        UploadStateView::AwaitingField { token: held } => held == token,
        UploadStateView::AwaitingPayload { name } => named_under(name, token),
        UploadStateView::AwaitingStore { name } => named_under(name, token),
        UploadStateView::Done => true,
    }
}

/// The name under which `action` has a file stored, if it has one stored.
pub open spec fn stored_as(action: UploadActionView) -> Option<Seq<char>> {
    match action {
        UploadActionView::Store { name, .. } => Some(name),
        _ => None,
    }
}

/// An upload keeps its token: after every event it still runs under the
/// token it began with, and a file that it hands over to be stored has a
/// name formed under that token.
pub proof fn lemma_upload_keeps_its_token(
    state: UploadStateView,
    event: UploadEventView,
    token: Seq<char>,
)
    requires
        runs_under(state, token),
    ensures
        runs_under(upload_transition(state, event).0, token),
        stored_as(upload_transition(state, event).1) matches Some(name) ==> named_under(
            name,
            token,
        ),
{
    match (state, event) {
        (
            UploadStateView::AwaitingField { token: held },
            UploadEventView::Field { file_name: Some(n) },
        ) => {
            assert(named_under(stored_name(held, n), token));
        },
        _ => {},
    }
}

/// Whatever two uploads under different tokens are told to store, they are
/// told to store it under different names.
pub proof fn lemma_uploads_store_apart(
    token_a: Seq<char>,
    state_a: UploadStateView,
    event_a: UploadEventView,
    token_b: Seq<char>,
    state_b: UploadStateView,
    event_b: UploadEventView,
)
    requires
        is_upload_token(token_a),
        is_upload_token(token_b),
        token_a != token_b,
        runs_under(state_a, token_a),
        runs_under(state_b, token_b),
    ensures
        stored_as(upload_transition(state_a, event_a).1) is Some ==> stored_as(
            upload_transition(state_a, event_a).1,
        ) != stored_as(upload_transition(state_b, event_b).1),
{
    lemma_upload_keeps_its_token(state_a, event_a, token_a);
    lemma_upload_keeps_its_token(state_b, event_b, token_b);
    if let Some(name_a) = stored_as(upload_transition(state_a, event_a).1) {
        if let Some(name_b) = stored_as(upload_transition(state_b, event_b).1) {
            let file_a = choose|f: Seq<char>| name_a == #[trigger] stored_name(token_a, f);
            let file_b = choose|f: Seq<char>| name_b == #[trigger] stored_name(token_b, f);
            lemma_distinct_tokens_give_distinct_names(token_a, file_a, token_b, file_b);
        }
    }
}

} // verus!
