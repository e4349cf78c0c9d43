//! The sessions in flight, and what happens to one when a webhook comes in.
//!
//! A session is filed in the registry from its creation until its test is
//! completed, an error ends it, or it expires. `Sessions::receive_data` takes
//! the session out, feeds the webhook's message to its state, and puts it back
//! unless the message has ended it. What is then owed to the outside (the
//! answer to the device, the message to viewers, the e-mail) is handed back for
//! the caller to carry out once it is done with the registry.

use std::collections::HashMap;
use vstd::prelude::*;
use vstd::string::StrSliceExecFns;
use vstd::string::StringExecFns;

use crate::address::{email_address_refusal, EmailAddress};
use crate::graph::{png_rgb8, Canvas, HEIGHT, WIDTH};
use crate::messages::Message;
use crate::state::{is_started, settled, CompletedTest, Completion, State, Update};
use crate::websockets::{ready_message, tells, Broadcast, WebsocketMessage};
use crate::Error;

verus! {

broadcast use vstd::std_specs::hash::group_hash_axioms;

/// One test run that the server knows of.
#[derive(Debug)]
pub struct Session {
    pub state: State,
    pub created: jiff::Timestamp,
    pub email_to_notify: EmailAddress,
    /// The value of the session's UUID.
    pub id: u128,
}

/// The registry: the sessions in flight, each under an identifier.
#[derive(Debug)]
pub struct Sessions {
    states: HashMap<u128, Session>,
}

impl View for Sessions {
    type V = Map<u128, Session>;

    closed spec fn view(&self) -> Map<u128, Session> {
        self.states@
    }
}

/// The answer to the device that sent a webhook.
#[derive(Clone, Copy, Debug, PartialEq, Eq)]
pub enum Reply {
    /// The message was taken.
    Received,
    /// The message was refused or could not be worked on.
    Failed,
    /// No session is filed under the identifier.
    UnknownId,
}

/// The e-mail that a webhook leads to.
#[derive(Debug)]
pub enum Mail {
    /// The result of the completed test, for the one who started it.
    Result { completed_test: CompletedTest, recipient: EmailAddress },
    /// The notice that the session `id` has ended with `error`.
    Failure { id: u128, error: Error, recipient: EmailAddress },
}

/// What is owed to the outside once a webhook has been dealt with.
#[derive(Debug)]
pub struct Handled {
    pub reply: Reply,
    /// What the session's viewers are to be told, if anything.
    pub broadcast: Option<Result<Broadcast, Error>>,
    /// The e-mail to send, if any.
    pub mail: Option<Mail>,
}

/// A session whose test is finished but for the drawing of its chart. It is
/// out of the registry and stays out.
#[derive(Debug)]
pub struct Finishing {
    pub id: u128,
    pub email_to_notify: EmailAddress,
    pub completion: Completion,
}

/// How far `Sessions::receive_data` got with a webhook.
#[derive(Debug)]
pub enum Reception {
    /// The webhook is dealt with.
    Handled(Handled),
    /// The test is finished as soon as its chart is drawn.
    Draw(Finishing),
}

/// A UUID of version 4 in the variant of RFC 9562: the four bits of the
/// version read 4, and the two bits of the variant read 2.
pub open spec fn is_version_4(id: u128) -> bool {
    (id >> 76u128) & 0xfu128 == 4u128 && (id >> 62u128) & 0x3u128 == 2u128
}

/// A new random identifier, from `uuid::Uuid::new_v4`, as its 128-bit value.
///
/// Trusted: whatever the random bits, the version and the variant are set.
/// Nothing is claimed about the identifier being new.
#[verifier::external_body]
fn fresh_id() -> (id: u128)
    ensures
        is_version_4(id),
{
    uuid::Uuid::new_v4().as_u128()
}

/// The time by the system's clock, from `jiff::Timestamp::now`. Nothing is
/// claimed about it. `jiff` gives up where the clock is set to a year that it
/// cannot express.
#[verifier::external_body]
fn now() -> (instant: jiff::Timestamp) {
    jiff::Timestamp::now()
}

/// The state with which a session is put back after a message, and `None`
/// where the message takes the session out of the registry for good.
///
/// A session is put back with its new state, or with the state that an error
/// carries to be restored. It is not put back when the test is finished, with
/// or without success, nor after an error that carries no state.
pub open spec fn kept_state(state: State, message: Message) -> Option<State> {
    match settled(state, message) {
        Some(Ok(next)) => Some(next),
        Some(Err(error)) => error.restorable(),
        None => None,
    }
}

/// The registry after a webhook for `id`.
///
/// Without a session under `id` nothing changes. Else that session is taken
/// out, and put back under its own identifier with the state that is kept, if
/// one is.
pub open spec fn registry_after(sessions: Map<u128, Session>, id: u128, message: Message) -> Map<
    u128,
    Session,
> {
    if !sessions.contains_key(id) {
        sessions
    } else {
        match kept_state(sessions[id].state, message) {
            Some(state) => sessions.remove(id).insert(
                sessions[id].id,
                Session {
                    state,
                    created: sessions[id].created,
                    email_to_notify: sessions[id].email_to_notify,
                    id: sessions[id].id,
                },
            ),
            None => sessions.remove(id),
        }
    }
}

/// The registry after one webhook for `id` with each of the messages, in their
/// order.
pub open spec fn registry_after_all(
    sessions: Map<u128, Session>,
    id: u128,
    messages: Seq<Message>,
) -> Map<u128, Session>
    decreases messages.len(),
{
    if messages.len() == 0 {
        sessions
    } else {
        registry_after(registry_after_all(sessions, id, messages.drop_last()), id, messages.last())
    }
}

/// Every session is filed under its own identifier.
pub open spec fn filed_by_id(sessions: Map<u128, Session>) -> bool {
    forall|id: u128| sessions.contains_key(id) ==> (#[trigger] sessions[id]).id == id
}

/// What is owed for a webhook that needs no drawing.
///
/// To an identifier without a session: `UnknownId` and nothing else. After a
/// message that gives a new state: `Received`, and the viewers are told of the
/// new state. After an error that carries a state: `Failed`, and the viewers
/// are told of the state that is kept. After an error that carries none:
/// `Failed`, and the notice of the error goes to the session's recipient.
pub open spec fn handled_as(
    handled: Handled,
    sessions: Map<u128, Session>,
    id: u128,
    message: Message,
) -> bool {
    if !sessions.contains_key(id) {
        handled.reply is UnknownId && handled.broadcast is None && handled.mail is None
    } else {
        match settled(sessions[id].state, message) {
            Some(Ok(next)) => {
                &&& handled.reply is Received
                &&& handled.broadcast matches Some(broadcast) && tells(broadcast, next)
                &&& handled.mail is None
            },
            Some(Err(error)) => match error.restorable() {
                Some(kept) => {
                    &&& handled.reply is Failed
                    &&& handled.broadcast matches Some(broadcast) && tells(broadcast, kept)
                    &&& handled.mail is None
                },
                None => {
                    &&& handled.reply is Failed
                    &&& handled.broadcast is None
                    &&& handled.mail matches Some(Mail::Failure { id: failed, error: cause, recipient })
                    &&& failed == sessions[id].id
                    &&& cause == error
                    &&& recipient == sessions[id].email_to_notify
                },
            },
            None => false,
        }
    }
}

impl Reply {
    /// The HTTP status that goes with the answer.
    pub open spec fn status_code(self) -> u16 {
        match self {
            Reply::Received => 200,
            Reply::Failed => 400,
            Reply::UnknownId => 404,
        }
    }

    /// The text that goes with the answer. It gives nothing away of what went
    /// wrong.
    pub open spec fn text(self) -> Seq<char> {
        match self {
            Reply::Received => "Received"@,
            Reply::Failed => "Failed to process data"@,
            Reply::UnknownId => "Unknown ID"@,
        }
    }

    /// The HTTP status that goes with the answer.
    pub fn status(&self) -> (status: u16)
        ensures
            status == self.status_code(),
    {
        match self {
            Reply::Received => 200,
            Reply::Failed => 400,
            Reply::UnknownId => 404,
        }
    }

    /// The text that goes with the answer.
    pub fn body(&self) -> (body: &'static str)
        ensures
            body@ == self.text(),
    {
        match self {
            Reply::Received => "Received",
            Reply::Failed => "Failed to process data",
            Reply::UnknownId => "Unknown ID",
        }
    }
}

impl Default for Sessions {
    /// A registry without sessions.
    fn default() -> (sessions: Sessions)
        ensures
            sessions@ == Map::<u128, Session>::empty(),
    {
        Sessions::new()
    }
}

impl Finishing {
    /// Ends the session, from what the drawing backend made of the chart.
    ///
    /// With a painted canvas the test is completed: the answer is `Received`,
    /// the viewers are told the result with the chart, and the result goes to
    /// the recipient by e-mail, the chart being the canvas as a PNG file. Where
    /// the backend could not draw, the answer is `Failed`, nobody is told, and
    /// the notice of the `Plotting` error goes to the recipient.
    pub fn finish(self, drawing: Result<Canvas, String>) -> (handled: Handled)
        ensures
            match drawing {
                Ok(canvas) => {
                    &&& handled.reply is Received
                    &&& handled.mail matches Some(Mail::Result { completed_test, recipient })
                    &&& recipient == self.email_to_notify
                    &&& completed_test.overall == self.completion.overall
                    &&& completed_test.subgroup_results == self.completion.subgroup_results
                    &&& completed_test.graph_png@ == png_rgb8(WIDTH, HEIGHT, canvas@)
                    &&& handled.broadcast matches Some(Ok(Broadcast::Ready(told)))
                    &&& Some(told@) == ready_message(State::CompletedTest(completed_test))
                },
                Err(reason) => {
                    &&& handled.reply is Failed
                    &&& handled.broadcast is None
                    &&& handled.mail matches Some(Mail::Failure { id, error, recipient })
                    &&& id == self.id
                    &&& error == Error::Plotting(reason)
                    &&& recipient == self.email_to_notify
                },
            },
    {
        match self.completion.finish(drawing) {
            Ok(completed_test) => {
                let told = WebsocketMessage::completed(&completed_test);
                Handled {
                    reply: Reply::Received,
                    broadcast: Some(Ok(Broadcast::Ready(told))),
                    mail: Some(Mail::Result { completed_test, recipient: self.email_to_notify }),
                }
            },
            Err(error) => Handled {
                reply: Reply::Failed,
                broadcast: None,
                mail: Some(Mail::Failure { id: self.id, error, recipient: self.email_to_notify }),
            },
        }
    }
}

impl Sessions {
    /// A registry without sessions.
    pub fn new() -> (sessions: Sessions)
        ensures
            sessions@ == Map::<u128, Session>::empty(),
    {
        Sessions { states: HashMap::new() }
    }

    /// Files a session that has just started under a new random identifier,
    /// and hands the identifier back.
    ///
    /// The identifier is a UUID of version 4. Should it be one that is in use
    /// already, the new session takes the place of the old.
    pub fn create(&mut self, email_to_notify: EmailAddress) -> (id: u128)
        ensures
            is_version_4(id),
            final(self)@.dom() == old(self)@.dom().insert(id),
            final(self)@.remove(id) == old(self)@.remove(id),
            final(self)@[id].id == id,
            final(self)@[id].email_to_notify == email_to_notify,
            is_started(final(self)@[id].state),
    {
        let id = fresh_id();
        let timestamp = now();
        self.create_with(id, timestamp, email_to_notify);
        id
    }

    /// Files a session that has just started under `id`: in progress, with no
    /// data, created at `created`, with its result to go to `email_to_notify`.
    pub fn create_with(&mut self, id: u128, created: jiff::Timestamp, email_to_notify: EmailAddress)
        ensures
            final(self)@.dom() == old(self)@.dom().insert(id),
            final(self)@.remove(id) == old(self)@.remove(id),
            final(self)@[id].id == id,
            final(self)@[id].created == created,
            final(self)@[id].email_to_notify == email_to_notify,
            is_started(final(self)@[id].state),
    {
        let session = Session { state: State::started(), created, email_to_notify, id };
        self.insert(id, session);
        assert(self@.remove(id) =~= old(self)@.remove(id));
    }

    /// The session under `id`, if there is one.
    pub fn get(&self, id: &u128) -> (session: Option<&Session>)
        ensures
            match session {
                Some(session) => self@.contains_key(*id) && *session == self@[*id],
                None => !self@.contains_key(*id),
            },
    {
        self.states.get(id)
    }

    /// Takes the session under `id` out, if there is one, and hands it back.
    /// No other session is touched.
    pub fn remove(&mut self, id: &u128) -> (session: Option<Session>)
        ensures
            final(self)@ == old(self)@.remove(*id),
            match session {
                Some(session) => old(self)@.contains_key(*id) && session == old(self)@[*id],
                None => !old(self)@.contains_key(*id),
            },
    {
        self.states.remove(id)
    }

    /// Files `session` under `id`, in the place of the one that may be there.
    pub fn insert(&mut self, id: u128, session: Session)
        ensures
            final(self)@ == old(self)@.insert(id, session),
    {
        self.states.insert(id, session);
    }

    /// The number of sessions in flight.
    pub fn len(&self) -> (count: usize)
        ensures
            count == self@.len(),
    {
        self.states.len()
    }

    /// Deals with one webhook for the session under `id`.
    ///
    /// The registry is left as `registry_after` says. Where the message
    /// finishes the test and its chart can be drawn, the session is handed
    /// back to be finished, with the result of the message and the chart of
    /// its data. In every other case the webhook is dealt with, and what is
    /// owed for it is as `handled_as` says.
    pub fn receive_data(&mut self, id: u128, message: Message) -> (reception: Reception)
        ensures
            final(self)@ == registry_after(old(self)@, id, message),
            match reception {
                Reception::Handled(handled) => handled_as(handled, old(self)@, id, message),
                Reception::Draw(finishing) => {
                    &&& old(self)@.contains_key(id)
                    &&& settled(old(self)@[id].state, message) is None
                    &&& finishing.id == old(self)@[id].id
                    &&& finishing.email_to_notify == old(self)@[id].email_to_notify
                    &&& finishing.completion.completes(
                        message.test.result.unwrap(),
                        message.test.data,
                    )
                },
            },
    {
        match self.remove(&id) {
            Some(session) => {
                let Session { state, created, email_to_notify, id } = session;
                match state.update(message) {
                    Update::Draw(completion) => Reception::Draw(
                        Finishing { id, email_to_notify, completion },
                    ),
                    Update::Settled(Ok(state)) => {
                        let broadcast = WebsocketMessage::try_from(&state);
                        self.insert(id, Session { state, created, email_to_notify, id });
                        Reception::Handled(
                            Handled {
                                reply: Reply::Received,
                                broadcast: Some(broadcast),
                                mail: None,
                            },
                        )
                    },
                    Update::Settled(Err(error)) => match error.into_state() {
                        Ok(state) => {
                            let broadcast = WebsocketMessage::try_from(&state);
                            self.insert(id, Session { state, created, email_to_notify, id });
                            Reception::Handled(
                                Handled {
                                    reply: Reply::Failed,
                                    broadcast: Some(broadcast),
                                    mail: None,
                                },
                            )
                        },
                        Err(error) => Reception::Handled(
                            Handled {
                                reply: Reply::Failed,
                                broadcast: None,
                                mail: Some(
                                    Mail::Failure { id, error, recipient: email_to_notify },
                                ),
                            },
                        ),
                    },
                }
            },
            None => Reception::Handled(
                Handled { reply: Reply::UnknownId, broadcast: None, mail: None },
            ),
        }
    }
}


/// After webhooks that each replace the data, sent to a session in progress,
/// the session is still filed and in progress, and its data is the data of the
/// last of them: nothing of the earlier ones is left.
pub proof fn lemma_replacing_events_keep_latest_data(
    sessions: Map<u128, Session>,
    id: u128,
    messages: Seq<Message>,
)
    requires
        sessions.contains_key(id),
        sessions[id].id == id,
        sessions[id].state is IncompleteTest,
        messages.len() > 0,
        forall|i: int| 0 <= i < messages.len() ==> (#[trigger] messages[i]).event.replaces_data(),
    ensures
        registry_after_all(sessions, id, messages).contains_key(id),
        registry_after_all(sessions, id, messages)[id].state == State::IncompleteTest(
            crate::state::IncompleteTest { data: messages.last().test.data },
        ),
        registry_after_all(sessions, id, messages)[id].id == id,
        registry_after_all(sessions, id, messages)[id].created == sessions[id].created,
        registry_after_all(sessions, id, messages)[id].email_to_notify
            == sessions[id].email_to_notify,
        registry_after_all(sessions, id, messages).remove(id) == sessions.remove(id),
    decreases messages.len(),
{
    let front = messages.drop_last();
    let before = registry_after_all(sessions, id, front);
    if front.len() == 0 {
        assert(before == sessions);
    } else {
        assert forall|i: int| 0 <= i < front.len() implies (#[trigger] front[i]).event.replaces_data() by {
            assert(front[i] == messages[i]);
        }
        lemma_replacing_events_keep_latest_data(sessions, id, front);
    }
    assert(messages.last() == messages[messages.len() - 1]);
    assert(registry_after(before, id, messages.last()).remove(id) =~= before.remove(id));
}

/// `TestFinished` without a result, sent to a session in progress, is an error
/// that carries no state, and the session is no longer filed afterwards.
pub proof fn lemma_finished_without_result_ends_session(
    sessions: Map<u128, Session>,
    id: u128,
    message: Message,
)
    requires
        sessions.contains_key(id),
        sessions[id].state is IncompleteTest,
        message.event is TestFinished,
        message.test.result is None,
    ensures
        settled(sessions[id].state, message) == Some(
            Err::<State, Error>(Error::TestFinishedMissingResult),
        ),
        Error::TestFinishedMissingResult.restorable() is None,
        !registry_after(sessions, id, message).contains_key(id),
        registry_after(sessions, id, message) == sessions.remove(id),
{
}

/// While a session is held to have its test finished, it is not filed: a
/// second webhook for it finds no session and changes nothing, whatever its
/// message. Two updates of one session cannot run into each other.
pub proof fn lemma_held_session_is_absent(
    sessions: Map<u128, Session>,
    id: u128,
    first: Message,
    second: Message,
)
    requires
        sessions.contains_key(id),
        settled(sessions[id].state, first) is None,
    ensures
        !registry_after(sessions, id, first).contains_key(id),
        registry_after(registry_after(sessions, id, first), id, second) == registry_after(
            sessions,
            id,
            first,
        ),
        forall|handled: Handled|
            handled_as(handled, registry_after(sessions, id, first), id, second)
                ==> handled.reply is UnknownId && handled.broadcast is None && handled.mail is None,
{
}

/// A webhook leaves every session but the one it is for as it was, and keeps
/// each session under its own identifier.
pub proof fn lemma_webhook_touches_one_session(
    sessions: Map<u128, Session>,
    id: u128,
    message: Message,
)
    requires
        filed_by_id(sessions),
    ensures
        filed_by_id(registry_after(sessions, id, message)),
        registry_after(sessions, id, message).remove(id) == sessions.remove(id),
{
    assert(registry_after(sessions, id, message).remove(id) =~= sessions.remove(id));
}

/// A span of time: whole seconds, and nanoseconds below a second.
#[derive(Clone, Copy, Debug, PartialEq, Eq)]
pub struct Period {
    pub secs: u64,
    pub nanos: u32,
}

/// What `duration_str::parse` makes of a text: the span it stands for, in
/// seconds and nanoseconds, or the message of the parser's error.
pub uninterp spec fn duration_str_parsed(text: Seq<char>) -> Result<(u64, u32), Seq<char>>;

/// A parsed span as plain values.
pub open spec fn parsed_view(parsed: Result<Period, String>) -> Result<(u64, u32), Seq<char>> {
    match parsed {
        Ok(period) => Ok((period.secs, period.nanos)),
        Err(message) => Err(message@),
    }
}

/// Reads a span of time such as `30m` or `1h 30m` with `duration_str::parse`.
///
/// Trusted: the answer is the one named by `duration_str_parsed`, the span
/// being given by `Duration::as_secs` and `Duration::subsec_nanos`. The parser
/// reads the text and nothing else.
#[verifier::external_body]
fn parse_duration(text: &str) -> (parsed: Result<Period, String>)
    ensures
        parsed_view(parsed) == duration_str_parsed(text@),
{
    match duration_str::parse(text) {
        Ok(span) => Ok(Period { secs: span.as_secs(), nanos: span.subsec_nanos() }),
        Err(message) => Err(message),
    }
}

/// What the server is started with, and the registry of its sessions.
#[derive(Debug)]
pub struct ServerState {
    pub sessions: Sessions,
    pub base_url: String,
    pub sender_email: EmailAddress,
    pub mailgun_domain: String,
    pub mailgun_api_key: String,
    /// How long a session is kept before it expires.
    pub cleanup_period: Period,
}

/// The error for a setting that could not be read or used.
pub open spec fn invalid_setting(error: Error, name: Seq<char>, cause: Seq<char>) -> bool {
    error matches Error::InvalidEnvVar { name: named, cause: given } && named@ == name && given@
        == cause
}

/// Why the period of a session's life could not be read from `text`.
pub open spec fn period_cause(text: Seq<char>, message: Seq<char>) -> Seq<char> {
    "Failed to parse duration "@ + text + ": "@ + message
}

/// The first of the settings that cannot be used, with the reason, in the
/// order `BASE_URL`, `SENDER_EMAIL`, `MAILGUN_DOMAIN`, `MAILGUN_API_KEY`,
/// `CLEANUP_PERIOD`; `None` where all of them can.
///
/// A setting that could not be read cannot be used. `SENDER_EMAIL` must be an
/// e-mail address and `CLEANUP_PERIOD` a span of time; that the address is
/// none is found before the settings after it are looked at.
pub open spec fn first_fault(
    base_url: Result<String, String>,
    sender_email: Result<String, String>,
    mailgun_domain: Result<String, String>,
    mailgun_api_key: Result<String, String>,
    cleanup_period: Result<String, String>,
) -> Option<(Seq<char>, Seq<char>)> {
    if base_url is Err {
        Some(("BASE_URL"@, base_url->Err_0@))
    } else if sender_email is Err {
        Some(("SENDER_EMAIL"@, sender_email->Err_0@))
    } else if email_address_refusal(sender_email->Ok_0@) is Some {
        Some(("SENDER_EMAIL"@, email_address_refusal(sender_email->Ok_0@)->Some_0))
    } else if mailgun_domain is Err {
        Some(("MAILGUN_DOMAIN"@, mailgun_domain->Err_0@))
    } else if mailgun_api_key is Err {
        Some(("MAILGUN_API_KEY"@, mailgun_api_key->Err_0@))
    } else if cleanup_period is Err {
        Some(("CLEANUP_PERIOD"@, cleanup_period->Err_0@))
    } else if duration_str_parsed(cleanup_period->Ok_0@) is Err {
        Some(
            (
                "CLEANUP_PERIOD"@,
                period_cause(
                    cleanup_period->Ok_0@,
                    duration_str_parsed(cleanup_period->Ok_0@)->Err_0,
                ),
            ),
        )
    } else {
        None
    }
}

/// The error that names a setting and says why it cannot be used.
fn invalid(name: &str, cause: String) -> (error: Error)
    ensures
        invalid_setting(error, name@, cause@),
{
    Error::InvalidEnvVar { name: String::from_str(name), cause }
}

impl ServerState {
    /// The server's state from its five settings, each given as it was read
    /// from the environment: the value, or the reason why there is none.
    ///
    /// With every setting usable the state holds them, and a registry without
    /// sessions. Else the error is `InvalidEnvVar` for the first setting at
    /// fault, as `first_fault` has it.
    pub fn try_from_env(
        base_url: Result<String, String>,
        sender_email: Result<String, String>,
        mailgun_domain: Result<String, String>,
        mailgun_api_key: Result<String, String>,
        cleanup_period: Result<String, String>,
    ) -> (state: Result<ServerState, Error>)
        ensures
            match first_fault(
                base_url,
                sender_email,
                mailgun_domain,
                mailgun_api_key,
                cleanup_period,
            ) {
                Some((name, cause)) => state matches Err(error) && invalid_setting(
                    error,
                    name,
                    cause,
                ),
                None => {
                    &&& state matches Ok(server)
                    &&& server.sessions@ == Map::<u128, Session>::empty()
                    &&& server.base_url == base_url->Ok_0
                    &&& server.sender_email@ == sender_email->Ok_0@
                    &&& server.mailgun_domain == mailgun_domain->Ok_0
                    &&& server.mailgun_api_key == mailgun_api_key->Ok_0
                    &&& Ok::<(u64, u32), Seq<char>>(
                        (server.cleanup_period.secs, server.cleanup_period.nanos),
                    ) == duration_str_parsed(cleanup_period->Ok_0@)
                },
            },
    {
        let base_url = match base_url {
            Ok(value) => value,
            Err(cause) => { return Err(invalid("BASE_URL", cause)); },
        };
        let sender_email = match sender_email {
            Ok(value) => value,
            Err(cause) => { return Err(invalid("SENDER_EMAIL", cause)); },
        };
        let sender_email = match EmailAddress::parse(sender_email.as_str()) {
            Ok(address) => address,
            Err(cause) => { return Err(invalid("SENDER_EMAIL", cause)); },
        };
        let mailgun_domain = match mailgun_domain {
            Ok(value) => value,
            Err(cause) => { return Err(invalid("MAILGUN_DOMAIN", cause)); },
        };
        let mailgun_api_key = match mailgun_api_key {
            Ok(value) => value,
            Err(cause) => { return Err(invalid("MAILGUN_API_KEY", cause)); },
        };
        let cleanup_period = match cleanup_period {
            Ok(value) => value,
            Err(cause) => { return Err(invalid("CLEANUP_PERIOD", cause)); },
        };
        let cleanup_period = match parse_duration(cleanup_period.as_str()) {
            Ok(period) => period,
            Err(message) => {
                let mut cause = String::from_str("Failed to parse duration ");
                cause.append(cleanup_period.as_str());
                cause.append(": ");
                cause.append(message.as_str());
                return Err(invalid("CLEANUP_PERIOD", cause));
            },
        };
        Ok(
            ServerState {
                sessions: Sessions::new(),
                base_url,
                sender_email,
                mailgun_domain,
                mailgun_api_key,
                cleanup_period,
            },
        )
    }

    /// Files a session that has just started under a new random identifier,
    /// and hands the identifier back. The caller sees to it that the session
    /// is removed once `cleanup_period` has passed.
    pub fn create_session(&mut self, email_to_notify: EmailAddress) -> (id: u128)
        ensures
            is_version_4(id),
            final(self).sessions@.dom() == old(self).sessions@.dom().insert(id),
            final(self).sessions@.remove(id) == old(self).sessions@.remove(id),
            final(self).sessions@[id].id == id,
            final(self).sessions@[id].email_to_notify == email_to_notify,
            is_started(final(self).sessions@[id].state),
            final(self).base_url == old(self).base_url,
            final(self).sender_email == old(self).sender_email,
            final(self).mailgun_domain == old(self).mailgun_domain,
            final(self).mailgun_api_key == old(self).mailgun_api_key,
            final(self).cleanup_period == old(self).cleanup_period,
    {
        self.sessions.create(email_to_notify)
    }
}

/// An answer to a browser: a status, the kind of content, and the content.
#[derive(Debug, PartialEq)]
pub struct Page {
    pub status: u16,
    pub content_type: &'static str,
    pub body: Vec<u8>,
}

/// The answer to a request for a session's chart, as far as it is known
/// without drawing.
#[derive(Debug)]
pub enum GraphReply {
    /// The answer.
    Page(Page),
    /// The answer is the chart of the data so far, which is yet to be drawn.
    Draw(crate::graph::GraphData),
}

/// What is said where a chart is asked for before the first sample.
pub open spec fn no_data_text() -> Seq<char> {
    "No data has been received for this test yet. Please refresh the page when you expect there to be data."@
}

/// What is said where a chart is asked for under an identifier without a
/// session.
pub open spec fn unknown_test_text() -> Seq<char> {
    "This test ID was not recognised. Either it has not been registered, or the test has already finished."@
}

/// What is said where a chart could not be made.
pub open spec fn chart_failed_text() -> Seq<char> {
    "Sorry, an error occurred"@
}

/// What is said to a browser that opens the address meant for webhooks.
pub open spec fn webhook_only_text() -> Seq<char> {
    "This link is only intended to be used as a webhook. In the virus.sucks app, open 'Settings' and put it in the 'Webhook URL' field."@
}

/// `page` is a plain text with the given status.
pub open spec fn is_text_page(page: Page, status: u16, text: Seq<char>) -> bool {
    page.status == status && page.content_type@ == "text/plain"@ && page.body@
        == vstd::utf8::encode_utf8(text)
}

/// `page` is a PNG file, sent with status 200.
pub open spec fn is_png_page(page: Page, file: Seq<u8>) -> bool {
    page.status == 200 && page.content_type@ == "image/png"@ && page.body@ == file
}

impl Page {
    /// A plain text with the given status.
    pub fn text(status: u16, text: &str) -> (page: Page)
        ensures
            is_text_page(page, status, text@),
    {
        Page { status, content_type: "text/plain", body: text.as_bytes_vec() }
    }

    /// A PNG file, sent with status 200.
    pub fn png(file: Vec<u8>) -> (page: Page)
        ensures
            is_png_page(page, file@),
    {
        Page { status: 200, content_type: "image/png", body: file }
    }

    /// The answer to a request for a chart that had to be drawn, from what the
    /// drawing backend made of it: the canvas as a PNG file, or status 500 and
    /// `chart_failed_text` where it could not draw.
    pub fn drawn(drawing: Result<Canvas, String>) -> (page: Page)
        ensures
            match drawing {
                Ok(canvas) => is_png_page(page, png_rgb8(WIDTH, HEIGHT, canvas@)),
                Err(_) => is_text_page(page, 500, chart_failed_text()),
            },
    {
        match crate::graph::GraphData::plot_to_buffer(drawing) {
            Ok(file) => Page::png(file),
            Err(_) => Page::text(500, "Sorry, an error occurred"),
        }
    }
}

impl Sessions {
    /// The answer to a browser that asks for the chart of the session under
    /// `id`.
    ///
    /// Without a session: status 404 and `unknown_test_text`. For a completed
    /// test: its chart. For a test in progress: status 404 and `no_data_text`
    /// before the first sample; after that the chart to draw, or status 500 and
    /// `chart_failed_text` where a sample is on a channel without a line.
    pub fn graph_data(&self, id: &u128) -> (reply: GraphReply)
        ensures
            !self@.contains_key(*id) ==> (reply matches GraphReply::Page(page) && is_text_page(
                page,
                404,
                unknown_test_text(),
            )),
            self@.contains_key(*id) ==> match self@[*id].state {
                State::CompletedTest(test) => reply matches GraphReply::Page(page) && is_png_page(
                    page,
                    test.graph_png@,
                ),
                State::IncompleteTest(test) => if test.data.samples@.len() == 0 {
                    reply matches GraphReply::Page(page) && is_text_page(page, 404, no_data_text())
                } else if crate::graph::stray_channel(test.data.samples@) is Some {
                    reply matches GraphReply::Page(page) && is_text_page(
                        page,
                        500,
                        chart_failed_text(),
                    )
                } else {
                    reply matches GraphReply::Draw(graph) && graph@ == crate::graph::chart_of(
                        test.data.samples@,
                    )
                },
            },
    {
        match self.get(id) {
            Some(session) => match session.state.current_graph_png() {
                Ok(crate::state::Chart::Png(file)) => GraphReply::Page(Page::png(file)),
                Ok(crate::state::Chart::NoData) => GraphReply::Page(
                    Page::text(
                        404,
                        "No data has been received for this test yet. Please refresh the page when you expect there to be data.",
                    ),
                ),
                Ok(crate::state::Chart::Draw(graph)) => GraphReply::Draw(graph),
                Err(_) => GraphReply::Page(Page::text(500, "Sorry, an error occurred")),
            },
            None => GraphReply::Page(
                Page::text(
                    404,
                    "This test ID was not recognised. Either it has not been registered, or the test has already finished.",
                ),
            ),
        }
    }

    /// The answer to a browser that opens the address meant for webhooks:
    /// status 200 and `webhook_only_text` where there is a session under `id`,
    /// else status 404 and `Unknown ID`.
    pub fn get_data_dummy(&self, id: &u128) -> (answer: (u16, &'static str))
        ensures
            self@.contains_key(*id) ==> answer.0 == 200 && answer.1@ == webhook_only_text(),
            !self@.contains_key(*id) ==> answer.0 == 404 && answer.1@ == "Unknown ID"@,
    {
        if self.get(id).is_some() {
            (
                200,
                "This link is only intended to be used as a webhook. In the virus.sucks app, open 'Settings' and put it in the 'Webhook URL' field.",
            )
        } else {
            (404, "Unknown ID")
        }
    }
}

} // verus!
