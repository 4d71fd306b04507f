//! The WebSocket protocol with the BozoChat server.
//!
//! Server to client: `connected`, `notification`, `ping`, `server-shutdown`.
//! Client to server: `auth` (when a user id is configured) and `pong`.
//!
//! The client connects, announces the connection to the interface, reads the
//! server's messages until the connection ends, announces the disconnection,
//! and connects again after 5000 ms. It stops for good only on
//! `server-shutdown`, or when the interface no longer listens.
use vstd::prelude::*;

use crate::config::Config;
use crate::json::{json_string_value, json_text_of_str, lemma_json_text_of_str_reads_back, quote};

verus! {

/// The payload of a `notification` message. The media fields are absent for a
/// text-only notification.
#[derive(Debug, Clone)]
pub struct NotificationPayload {
    pub sender: String,
    pub message: String,
    /// For instance `image/png` or `video/mp4`.
    pub media_type: Option<String>,
    /// The name of the uploaded file, for instance `chat.gif`.
    pub media_filename: Option<String>,
    /// The media, encoded in base64.
    pub media_data: Option<String>,
    /// How long to display it, in milliseconds; the configured default applies when absent.
    pub duration: Option<u64>,
}

/// A notification payload as plain values.
pub struct NotificationPayloadView {
    pub sender: Seq<char>,
    pub message: Seq<char>,
    pub media_type: Option<Seq<char>>,
    pub media_filename: Option<Seq<char>>,
    pub media_data: Option<Seq<char>>,
    pub duration: Option<u64>,
}

impl View for NotificationPayload {
    type V = NotificationPayloadView;

    open spec fn view(&self) -> NotificationPayloadView {
        NotificationPayloadView {
            sender: self.sender@,
            message: self.message@,
            media_type: self.media_type.deep_view(),
            media_filename: self.media_filename.deep_view(),
            media_data: self.media_data.deep_view(),
            duration: self.duration,
        }
    }
}

/// A message from the server, told apart by its `type` field.
#[derive(Debug, Clone)]
pub enum ServerMessage {
    Connected { message: String, client_id: String },
    Notification { data: NotificationPayload },
    Ping,
    ServerShutdown,
    /// Any type this client does not know.
    Unknown,
}

/// What the connection reports to the interface.
#[derive(Debug, Clone)]
pub enum WsEvent {
    /// A notification ready to display.
    Notification(NotificationPayload),
    Connected,
    Disconnected,
}

/// The text of the `auth` message for `user_id`.
pub open spec fn auth_text(user_id: Seq<char>) -> Seq<char> {
    "{\"type\":\"auth\",\"userId\":"@ + json_text_of_str(user_id) + "}"@
}

/// The text of the `pong` message.
pub open spec fn pong_text() -> Seq<char> {
    "{\"type\":\"pong\"}"@
}

/// The `auth` message holds the user id as a JSON string that reads back to
/// it, between the fixed opening `{"type":"auth","userId":` and the closing `}`.
pub proof fn lemma_auth_message_reads_back(user_id: Seq<char>)
    ensures
        ({
            let t = auth_text(user_id);
            let head = "{\"type\":\"auth\",\"userId\":"@;
            &&& t.subrange(0, head.len() as int) == head
            &&& t[t.len() - 1] == '}'
            &&& json_string_value(t.subrange(head.len() as int, t.len() - 1)) == Some(user_id)
        }),
{
    let t = auth_text(user_id);
    let head = "{\"type\":\"auth\",\"userId\":"@;
    reveal_strlit("}");
    lemma_json_text_of_str_reads_back(user_id);
    assert(t.subrange(0, head.len() as int) =~= head);
    assert(t.subrange(head.len() as int, t.len() - 1) =~= json_text_of_str(user_id));
}

/// The `auth` message that identifies the client as `user_id`.
pub fn auth_message(user_id: &str) -> (m: String)
    ensures
        m@ == auth_text(user_id@),
{
    let mut m = String::from_str("{\"type\":\"auth\",\"userId\":");
    match quote(user_id) {
        Ok(q) => m.append(q.as_str()),
        Err(_) => {},
    }
    m.append("}");
    m
}

/// The `pong` message that answers a `ping`.
pub fn pong_message() -> (m: String)
    ensures
        m@ == pong_text(),
{
    String::from_str("{\"type\":\"pong\"}")
}

/// The first message of a connection: the `auth` message when a user id is
/// configured, nothing otherwise.
pub fn opening_message(config: &Config) -> (m: Option<String>)
    ensures
        m is Some <==> config.user_id@.len() > 0,
        m matches Some(t) ==> t@ == auth_text(config.user_id@),
{
    if config.user_id.as_str().unicode_len() == 0 {
        None
    } else {
        Some(auth_message(config.user_id.as_str()))
    }
}

/// What a connection meets while it runs.
#[derive(Debug, Clone)]
pub enum SessionInput {
    /// A text frame that holds a server message.
    Message(ServerMessage),
    /// A text frame that is not a server message.
    Unreadable,
    /// The server closed the connection.
    Closed,
    /// A binary, ping or pong frame.
    OtherFrame,
    /// Reading from the connection failed.
    ReadFailed,
    /// The connection has no more frames.
    Ended,
    /// Sending the `auth` message failed.
    AuthNotSent,
    /// Sending the `pong` message failed.
    PongNotSent,
    /// The interface no longer takes notifications.
    ForwardRefused,
}

/// What the connection does next.
#[derive(Debug, Clone)]
pub enum SessionStep {
    /// Keep reading.
    Continue,
    /// Hand the notification to the interface, then keep reading.
    Forward(NotificationPayload),
    /// Send this text to the server, then keep reading.
    Reply(String),
    /// Leave the connection; connect again when `reconnect` holds.
    End { reconnect: bool },
}

/// What a server message calls for.
pub fn dispatch(msg: ServerMessage) -> (step: SessionStep)
    ensures
        msg is ServerShutdown <==> step == (SessionStep::End { reconnect: false }),
        msg matches ServerMessage::Notification { data } ==> step == SessionStep::Forward(data),
        msg is Ping <==> step is Reply,
        step matches SessionStep::Reply(t) ==> t@ == pong_text(),
        (msg is Connected || msg is Unknown) <==> step is Continue,
        !(step matches SessionStep::End { reconnect: true }),
{
    match msg {
        ServerMessage::Connected { .. } => SessionStep::Continue,
        ServerMessage::Notification { data } => SessionStep::Forward(data),
        ServerMessage::Ping => SessionStep::Reply(pong_message()),
        ServerMessage::ServerShutdown => SessionStep::End { reconnect: false },
        ServerMessage::Unknown => SessionStep::Continue,
    }
}

/// What the connection does after `input`. A connection ends without
/// reconnecting only on `server-shutdown` or when the interface no longer
/// takes notifications; a close, a read error, the end of the stream or a
/// failed `auth` lead to a new connection; anything else keeps it open.
pub fn session_step(input: SessionInput) -> (step: SessionStep)
    ensures
        input matches SessionInput::Message(msg) ==> ({
            &&& msg is ServerShutdown <==> step == (SessionStep::End { reconnect: false })
            &&& msg matches ServerMessage::Notification { data } ==> step == SessionStep::Forward(
                data,
            )
            &&& msg is Ping <==> step is Reply
            &&& (msg is Connected || msg is Unknown) <==> step is Continue
        }),
        step matches SessionStep::Reply(t) ==> t@ == pong_text(),
        (input is Closed || input is ReadFailed || input is Ended || input is AuthNotSent) <==> step
            == (SessionStep::End { reconnect: true }),
        (input is Unreadable || input is OtherFrame || input is PongNotSent) ==> step is Continue,
        input is ForwardRefused ==> step == (SessionStep::End { reconnect: false }),
        step matches SessionStep::End { reconnect } ==> (!reconnect <==> (input is ForwardRefused
            || input matches SessionInput::Message(ServerMessage::ServerShutdown))),
{
    match input {
        SessionInput::Message(msg) => dispatch(msg),
        SessionInput::Unreadable => SessionStep::Continue,
        SessionInput::Closed => SessionStep::End { reconnect: true },
        SessionInput::OtherFrame => SessionStep::Continue,
        SessionInput::ReadFailed => SessionStep::End { reconnect: true },
        SessionInput::Ended => SessionStep::End { reconnect: true },
        SessionInput::AuthNotSent => SessionStep::End { reconnect: true },
        SessionInput::PongNotSent => SessionStep::Continue,
        SessionInput::ForwardRefused => SessionStep::End { reconnect: false },
    }
}

/// The delay before connecting again, in milliseconds.
pub open spec fn reconnect_delay() -> u64 {
    5000
}

/// The delay before connecting again: 5000 ms.
pub fn reconnect_delay_ms() -> (ms: u64)
    ensures
        ms == reconnect_delay(),
{
    5000
}

/// Where the connection loop stands.
#[derive(Debug, Clone, Copy, PartialEq, Eq, Structural)]
pub enum LinkPhase {
    /// Waiting for the outcome of a connection attempt.
    Connecting,
    /// Telling the interface that the client is connected.
    Announcing,
    /// Running a connection.
    InSession,
    /// Telling the interface that the client is disconnected; then connect
    /// again when `reconnect` holds.
    Leaving { reconnect: bool },
    /// Waiting before the next attempt.
    Waiting,
    /// The loop is over.
    Stopped,
}

/// What the connection loop learns.
#[derive(Debug, Clone, Copy, PartialEq, Eq, Structural)]
pub enum LinkEvent {
    /// The connection attempt succeeded or failed.
    Connection(bool),
    /// The interface took the announcement, or no longer listens.
    Announced(bool),
    /// The connection ended; connect again when the flag holds.
    SessionOver(bool),
    /// The delay has passed.
    Waited,
}

/// What the connection loop does next.
#[derive(Debug, Clone)]
pub enum LinkAction {
    /// Try to connect to the configured server.
    Connect,
    /// Tell the interface.
    Announce(WsEvent),
    /// Run the connection with `session_step`.
    RunSession,
    /// Wait this many milliseconds.
    Wait(u64),
    /// Stop: the interface will hear from the connection no more.
    Stop,
}

/// Whether `event` is one that the loop can meet in `phase`.
pub open spec fn link_expects(phase: LinkPhase, event: LinkEvent) -> bool {
    match phase {
        LinkPhase::Connecting => event is Connection,
        LinkPhase::Announcing => event is Announced,
        LinkPhase::InSession => event is SessionOver,
        LinkPhase::Leaving { .. } => event is Announced,
        LinkPhase::Waiting => event is Waited,
        LinkPhase::Stopped => false,
    }
}

/// The phase that follows `phase` on `event`.
pub open spec fn link_next(phase: LinkPhase, event: LinkEvent) -> LinkPhase {
    match (phase, event) {
        (LinkPhase::Connecting, LinkEvent::Connection(true)) => LinkPhase::Announcing,
        (LinkPhase::Connecting, LinkEvent::Connection(false)) => LinkPhase::Waiting,
        (LinkPhase::Announcing, LinkEvent::Announced(true)) => LinkPhase::InSession,
        (LinkPhase::Announcing, LinkEvent::Announced(false)) => LinkPhase::Stopped,
        (LinkPhase::InSession, LinkEvent::SessionOver(r)) => LinkPhase::Leaving { reconnect: r },
        (LinkPhase::Leaving { reconnect: true }, LinkEvent::Announced(_)) => LinkPhase::Waiting,
        (LinkPhase::Leaving { reconnect: false }, LinkEvent::Announced(_)) => LinkPhase::Stopped,
        (LinkPhase::Waiting, LinkEvent::Waited) => LinkPhase::Connecting,
        _ => phase,
    }
}

/// The action that entering `phase` calls for.
pub open spec fn link_action_of(phase: LinkPhase) -> LinkAction {
    match phase {
        LinkPhase::Connecting => LinkAction::Connect,
        LinkPhase::Announcing => LinkAction::Announce(WsEvent::Connected),
        LinkPhase::InSession => LinkAction::RunSession,
        LinkPhase::Leaving { .. } => LinkAction::Announce(WsEvent::Disconnected),
        LinkPhase::Waiting => LinkAction::Wait(reconnect_delay()),
        LinkPhase::Stopped => LinkAction::Stop,
    }
}

/// The connection loop: connect, announce, run the connection, announce the
/// end, wait, connect again.
#[derive(Debug, Clone, Copy)]
pub struct Link {
    phase: LinkPhase,
}

impl Link {
    /// The phase the loop stands in.
    pub closed spec fn phase_of(&self) -> LinkPhase {
        self.phase
    }

    /// A loop about to connect, and its first action.
    pub fn new() -> (r: (Link, LinkAction))
        ensures
            r.0.phase_of() == LinkPhase::Connecting,
            r.1 == LinkAction::Connect,
    {
        (Link { phase: LinkPhase::Connecting }, LinkAction::Connect)
    }

    /// The phase the loop stands in.
    pub fn phase(&self) -> (p: LinkPhase)
        ensures
            p == self.phase_of(),
    {
        self.phase
    }

    /// Takes in what the loop learned and says what it does next.
    pub fn step(&mut self, event: LinkEvent) -> (a: LinkAction)
        requires
            link_expects(old(self).phase_of(), event),
        ensures
            final(self).phase_of() == link_next(old(self).phase_of(), event),
            a == link_action_of(final(self).phase_of()),
    {
        let next = match (self.phase, event) {
            (LinkPhase::Connecting, LinkEvent::Connection(true)) => LinkPhase::Announcing,
            (LinkPhase::Connecting, LinkEvent::Connection(false)) => LinkPhase::Waiting,
            (LinkPhase::Announcing, LinkEvent::Announced(true)) => LinkPhase::InSession,
            (LinkPhase::Announcing, LinkEvent::Announced(false)) => LinkPhase::Stopped,
            (LinkPhase::InSession, LinkEvent::SessionOver(r)) => LinkPhase::Leaving { reconnect: r },
            (LinkPhase::Leaving { reconnect: true }, LinkEvent::Announced(_)) => LinkPhase::Waiting,
            (LinkPhase::Leaving { reconnect: false }, LinkEvent::Announced(_)) => LinkPhase::Stopped,
            (LinkPhase::Waiting, LinkEvent::Waited) => LinkPhase::Connecting,
            (p, _) => p,
        };
        self.phase = next;
        match next {
            LinkPhase::Connecting => LinkAction::Connect,
            LinkPhase::Announcing => LinkAction::Announce(WsEvent::Connected),
            LinkPhase::InSession => LinkAction::RunSession,
            LinkPhase::Leaving { .. } => LinkAction::Announce(WsEvent::Disconnected),
            LinkPhase::Waiting => LinkAction::Wait(reconnect_delay_ms()),
            LinkPhase::Stopped => LinkAction::Stop,
        }
    }
}

/// The loop stops only when the interface did not take the `Connected`
/// announcement, or after a connection that ended without reconnecting; in
/// every other case it goes on, and a failed attempt or a connection that
/// ended with a reconnect is followed by a wait of 5000 ms and a new attempt.
pub proof fn lemma_link_stops_only_when_told(phase: LinkPhase, event: LinkEvent)
    requires
        link_expects(phase, event),
    ensures
        link_next(phase, event) == LinkPhase::Stopped <==> ((phase == LinkPhase::Announcing
            && event == LinkEvent::Announced(false)) || phase == (LinkPhase::Leaving {
            reconnect: false,
        })),
        (phase == LinkPhase::Connecting && event == LinkEvent::Connection(false)) ==> link_action_of(
            link_next(phase, event),
        ) == LinkAction::Wait(reconnect_delay()),
        phase == (LinkPhase::Leaving { reconnect: true }) ==> link_action_of(
            link_next(phase, event),
        ) == LinkAction::Wait(reconnect_delay()),
        link_next(phase, event) == LinkPhase::Waiting ==> link_next(
            link_next(phase, event),
            LinkEvent::Waited,
        ) == LinkPhase::Connecting,
{
}

/// A connection runs only right after the interface took the `Connected`
/// announcement, and every connection that ends is followed by the
/// `Disconnected` announcement.
pub proof fn lemma_link_announces_both_ends(phase: LinkPhase, event: LinkEvent)
    requires
        link_expects(phase, event),
    ensures
        link_next(phase, event) == LinkPhase::InSession <==> (phase == LinkPhase::Announcing
            && event == LinkEvent::Announced(true)),
        phase == LinkPhase::InSession ==> link_action_of(link_next(phase, event))
            == LinkAction::Announce(WsEvent::Disconnected),
{
}

/// The phase the loop stands in after `events`, starting from a new loop.
pub open spec fn link_phase_after(events: Seq<LinkEvent>) -> LinkPhase
    decreases events.len(),
{
    if events.len() == 0 {
        LinkPhase::Connecting
    } else {
        link_next(link_phase_after(events.drop_last()), events.last())
    }
}

/// Whether a new loop can meet `events`, each in the phase the earlier ones
/// led to.
pub open spec fn link_run_valid(events: Seq<LinkEvent>) -> bool {
    forall|i: int|
        0 <= i < events.len() ==> link_expects(
            #[trigger] link_phase_after(events.take(i)),
            events[i],
        )
}

/// What entering `phase` announces to the interface: one event, or nothing.
pub open spec fn link_announced(phase: LinkPhase) -> Seq<WsEvent> {
    match link_action_of(phase) {
        LinkAction::Announce(e) => seq![e],
        _ => Seq::empty(),
    }
}

/// The announcements a new loop makes over `events`, in order.
pub open spec fn link_announcements(events: Seq<LinkEvent>) -> Seq<WsEvent>
    decreases events.len(),
{
    if events.len() == 0 {
        Seq::empty()
    } else {
        link_announcements(events.drop_last()) + link_announced(link_phase_after(events))
    }
}

/// Over any run of the loop, the announcements alternate, starting with
/// `Connected`: each successful connection is announced once, its end is
/// announced once before the next connection, and a failed attempt announces
/// nothing. A connection runs only while the last announcement is `Connected`.
pub proof fn lemma_link_announcements_alternate(events: Seq<LinkEvent>)
    requires
        link_run_valid(events),
    ensures
        forall|i: int|
            0 <= i < link_announcements(events).len() ==> #[trigger] link_announcements(events)[i]
                == (if i % 2 == 0 {
                WsEvent::Connected
            } else {
                WsEvent::Disconnected
            }),
        (link_phase_after(events) is Announcing || link_phase_after(events) is InSession)
            ==> link_announcements(events).len() % 2 == 1,
        (link_phase_after(events) is Connecting || link_phase_after(events) is Leaving
            || link_phase_after(events) is Waiting) ==> link_announcements(events).len() % 2 == 0,
    decreases events.len(),
{
    if events.len() > 0 {
        let prev = events.drop_last();
        let last_i: int = events.len() - 1;
        assert forall|i: int| 0 <= i < prev.len() implies link_expects(
            #[trigger] link_phase_after(prev.take(i)),
            prev[i],
        ) by {
            assert(prev.take(i) =~= events.take(i));
            assert(link_expects(link_phase_after(events.take(i)), events[i]));
        }
        lemma_link_announcements_alternate(prev);
        assert(events.take(last_i) =~= prev);
        assert(link_expects(link_phase_after(events.take(last_i)), events[last_i]));
        let before = link_announcements(prev);
        let added = link_announced(link_phase_after(events));
        assert(link_announcements(events) == before + added);
        assert forall|i: int|
            0 <= i < link_announcements(events).len() implies #[trigger] link_announcements(
                events,
            )[i] == (if i % 2 == 0 {
                WsEvent::Connected
            } else {
                WsEvent::Disconnected
            }) by {
            if i < before.len() {
                assert(link_announcements(events)[i] == before[i]);
            }
        }
    }
}

} // verus!
