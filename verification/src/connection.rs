//! The session actor of one connection, as a state machine.
//!
//! A connection starts as `Connecting`, becomes `Authenticating` when the
//! transport is upgraded, `Active` when its first frame handed over a valid
//! credential, `Closing` when either side ends it, and `Closed` when its
//! entry has left the client registry. Nothing leads out of `Closed`.
//!
//! Each transition takes what arrived and says what is to be sent. Reading
//! from the transport and writing to it is the caller's work.
use vstd::prelude::*;
use vstd::string::StringExecFns;
use crate::auth::{
    frame_validated, refusal_for_error, refusal_for_fault, secret_view, token_of_frame, AuthError,
    Claims, ClaimsView, Rejection, RejectionView, WsAuth,
};
use crate::json::{json_reading, parse_json, Json, JsonError, JsonTree};
use crate::model::text_of;
use crate::payloads::{
    control_request, domain_request, domain_view, CommunicationRequest, CommunicationRequestView,
    ConnectionRequest, ConnectionRequestView, Frame, FrameView,
};
use crate::registry::{knows, registered, unregistered, Outbox, WsBroadcaster};
use crate::responses::{responses_view, CommunicationResponse, ResponseView};
use crate::session_index::AuthSession;
use crate::time::Timestamp;

verus! {

/// Where a connection stands.
#[derive(Clone, Copy, Debug, PartialEq, Eq, Structural)]
pub enum Phase {
    Connecting,
    Authenticating,
    Active,
    Closing,
    Closed,
}

/// One connection: its id, where it stands, and, once it is active, whose
/// it is and which session it continues.
#[derive(Debug)]
pub struct Connection {
    pub connection_id: u128,
    pub phase: Phase,
    pub identity: Option<Claims>,
    pub session_id: Option<String>,
}

/// A connection as plain values.
pub struct ConnectionView {
    pub connection_id: u128,
    pub phase: Phase,
    pub identity: Option<ClaimsView>,
    pub session_id: Option<Seq<char>>,
}

impl View for Connection {
    type V = ConnectionView;

    open spec fn view(&self) -> ConnectionView {
        ConnectionView {
            connection_id: self.connection_id,
            phase: self.phase,
            identity: match self.identity {
                Some(claims) => Some(claims@),
                None => None,
            },
            session_id: text_of(self.session_id),
        }
    }
}

/// `conn` in another phase.
pub open spec fn in_phase(conn: ConnectionView, phase: Phase) -> ConnectionView {
    ConnectionView {
        connection_id: conn.connection_id,
        phase,
        identity: conn.identity,
        session_id: conn.session_id,
    }
}

/// How the handshake of a connection ended.
#[derive(Debug)]
pub enum Handshake {
    /// The first frame handed over a credential that is valid.
    Accepted(Claims),
    /// The first frame handed over no credential, or one that is refused.
    Rejected(Rejection),
    /// The first frame could not be read.
    ReadFailed(String),
    /// The peer hung up before it sent a frame.
    NoFrame,
}

/// A handshake as plain values.
pub enum HandshakeView {
    Accepted(ClaimsView),
    Rejected(RejectionView),
    ReadFailed(Seq<char>),
    NoFrame,
}

impl View for Handshake {
    type V = HandshakeView;

    open spec fn view(&self) -> HandshakeView {
        match self {
            Handshake::Accepted(claims) => HandshakeView::Accepted(claims@),
            Handshake::Rejected(r) => HandshakeView::Rejected(r@),
            Handshake::ReadFailed(reason) => HandshakeView::ReadFailed(reason@),
            Handshake::NoFrame => HandshakeView::NoFrame,
        }
    }
}

/// What arrived first on a connection, as plain values: nothing, a
/// failure to read, or a frame.
pub open spec fn first_view(first: Option<Result<Frame, String>>) -> Option<
    Result<FrameView, Seq<char>>,
> {
    match first {
        None => None,
        Some(Err(reason)) => Some(Err(reason@)),
        Some(Ok(frame)) => Some(Ok(frame@)),
    }
}

/// How the handshake of a connection ends at `now`, given what arrived
/// first: without a frame it ends as such; a frame is accepted with the
/// identity that it authenticates, or rejected with its refusal.
pub open spec fn judged(
    first: Option<Result<FrameView, Seq<char>>>,
    secret: Option<Seq<u8>>,
    now: Timestamp,
) -> HandshakeView {
    match first {
        None => HandshakeView::NoFrame,
        Some(Err(reason)) => HandshakeView::ReadFailed(reason),
        Some(Ok(frame)) => match frame_validated(frame, secret, now) {
            Ok(identity) => HandshakeView::Accepted(identity),
            Err(refusal) => HandshakeView::Rejected(refusal),
        },
    }
}

/// The user id that an identity stands for: its subject, as an unsigned
/// number of 64 bits.
pub open spec fn user_of(sub: i64) -> u64 {
    if sub >= 0 {
        sub as u64
    } else {
        (sub + 0x1_0000_0000_0000_0000) as u64
    }
}

/// Computes `user_of`.
pub fn user_id_of(sub: i64) -> (user_id: u64)
    ensures
        user_id == user_of(sub),
{
    if sub >= 0 {
        sub as u64
    } else {
        u64::MAX - ((-(sub + 1)) as u64)
    }
}

/// The envelope that refuses a handshake.
pub open spec fn refusal(outcome: HandshakeView) -> ResponseView {
    match outcome {
        HandshakeView::Rejected(r) => ResponseView::Refused {
            status: "authentication_failed"@,
            error: r.message,
            code: r.status,
            reason: r.code,
        },
        HandshakeView::ReadFailed(reason) => ResponseView::Refused {
            status: "connection_error"@,
            error: "Failed to read message: "@ + reason,
            code: 400,
            reason: AuthError::Missing.code_text(),
        },
        _ => ResponseView::Refused {
            status: "no_message"@,
            error: "No initial message received"@,
            code: 400,
            reason: AuthError::Missing.code_text(),
        },
    }
}

/// The envelope that tells an active connection of its session.
pub open spec fn welcome(session_id: Seq<char>, user_id: u64) -> ResponseView {
    ResponseView::SessionCreated { status: "session_created"@, session_id, user_id }
}

/// The connection after its handshake, and what it is sent: accepted, it
/// is active in the session `session_id` and is told so; refused, it is
/// closed and is told why. A connection that is not authenticating stays
/// as it is and is sent nothing.
pub open spec fn after_handshake(conn: ConnectionView, outcome: HandshakeView, session_id: Seq<char>)
    -> (ConnectionView, Seq<ResponseView>) {
    if conn.phase != Phase::Authenticating {
        (conn, Seq::empty())
    } else {
        match outcome {
            HandshakeView::Accepted(claims) => (
                ConnectionView {
                    connection_id: conn.connection_id,
                    phase: Phase::Active,
                    identity: Some(claims),
                    session_id: Some(session_id),
                },
                seq![welcome(session_id, user_of(claims.sub))],
            ),
            _ => (in_phase(conn, Phase::Closed), seq![refusal(outcome)]),
        }
    }
}

/// The session of a connection whose handshake ended with `outcome`: the
/// one that the index names for the user, else `fresh`.
pub open spec fn session_for(index: AuthSession, outcome: HandshakeView, fresh: Seq<char>) -> Seq<
    char,
> {
    match outcome {
        HandshakeView::Accepted(claims) => match index.session_of(user_of(claims.sub)) {
            Some(known) => known,
            None => fresh,
        },
        _ => fresh,
    }
}

/// An accepted connection is told of a session that is not empty, where
/// the index names no empty session and the fresh id is not empty.
pub proof fn law_welcome_names_a_session(
    conn: ConnectionView,
    claims: ClaimsView,
    index: AuthSession,
    fresh: Seq<char>,
)
    requires
        conn.phase == Phase::Authenticating,
        fresh.len() > 0,
        index.session_of(user_of(claims.sub)) matches Some(known) ==> known.len() > 0,
    ensures
        ({
            let session = session_for(index, HandshakeView::Accepted(claims), fresh);
            let after = after_handshake(conn, HandshakeView::Accepted(claims), session);
            &&& session.len() > 0
            &&& after.0.phase == Phase::Active
            &&& after.1 == seq![welcome(session, user_of(claims.sub))]
        }),
{
}

/// What a frame leads to.
#[derive(Debug)]
pub struct Step {
    /// What is to be sent to the client.
    pub replies: Vec<CommunicationResponse>,
    /// The domain request that is to be carried out.
    pub run: Option<CommunicationRequest>,
}

/// The envelope for a request that is none.
pub open spec fn unknown_request() -> ResponseView {
    ResponseView::Error { status: "invalid_request"@, error: "Unknown request type"@ }
}

/// The envelope for a second handshake on an active connection.
pub open spec fn already_connected() -> ResponseView {
    ResponseView::Error { status: "invalid_request"@, error: "Already connected"@ }
}

/// The envelope that confirms a disconnect.
pub open spec fn goodbye() -> ResponseView {
    ResponseView::Disconnected { status: "disconnected"@ }
}

/// The connection after a control request, and what it is sent: a
/// disconnect for the session of the connection closes it, one for another
/// session is ignored; a handshake is refused.
pub open spec fn after_control(conn: ConnectionView, request: ConnectionRequestView) -> (
    ConnectionView,
    Seq<ResponseView>,
) {
    match request {
        ConnectionRequestView::Disconnect { session_id, user_id } => if conn.session_id == Some(
            session_id,
        ) {
            (in_phase(conn, Phase::Closing), seq![goodbye()])
        } else {
            (conn, Seq::empty())
        },
        ConnectionRequestView::StartConnection { token } => (conn, seq![already_connected()]),
    }
}

/// The active connection after a text frame whose text was parsed: what it
/// is sent, and the domain request to carry out. The text is read as a
/// control request first, as a domain request second, and is answered as
/// an unknown request where it is neither.
pub open spec fn after_text(conn: ConnectionView, parsed: Result<JsonTree, JsonError>) -> (
    ConnectionView,
    Seq<ResponseView>,
    Option<CommunicationRequestView>,
) {
    if conn.phase != Phase::Active {
        (conn, Seq::empty(), None)
    } else {
        match parsed {
            Ok(value) => match control_request(value) {
                Some(request) => (
                    after_control(conn, request).0,
                    after_control(conn, request).1,
                    None,
                ),
                None => match domain_request(value) {
                    Some(request) => (conn, Seq::empty(), Some(request)),
                    None => (conn, seq![unknown_request()], None),
                },
            },
            Err(_) => (conn, seq![unknown_request()], None),
        }
    }
}

/// The active connection after a frame. A close frame closes it; a frame
/// that is neither text nor close is ignored.
pub open spec fn after_frame(conn: ConnectionView, frame: FrameView) -> (
    ConnectionView,
    Seq<ResponseView>,
    Option<CommunicationRequestView>,
) {
    if conn.phase != Phase::Active {
        (conn, Seq::empty(), None)
    } else {
        match frame {
            FrameView::Text(text) => after_text(conn, json_reading(text)),
            FrameView::Close => (in_phase(conn, Phase::Closing), Seq::empty(), None),
            _ => (conn, Seq::empty(), None),
        }
    }
}

/// A disconnect for another session than that of the connection leaves an
/// active connection active and is not answered; a disconnect for its
/// session is confirmed and leaves it closing.
pub proof fn law_disconnect(conn: ConnectionView, session_id: Seq<char>, user_id: u64)
    requires
        conn.phase == Phase::Active,
    ensures
        ({
            let after = after_control(
                conn,
                ConnectionRequestView::Disconnect { session_id, user_id },
            );
            if conn.session_id == Some(session_id) {
                after.0.phase == Phase::Closing && after.1 == seq![goodbye()]
            } else {
                after.0 == conn && after.1 == Seq::<ResponseView>::empty()
            }
        }),
{
}

impl Connection {
    /// A connection that was accepted and is not upgraded yet.
    pub fn accept(connection_id: u128) -> (conn: Connection)
        ensures
            conn@ == (ConnectionView {
                connection_id,
                phase: Phase::Connecting,
                identity: None,
                session_id: None,
            }),
    {
        Connection { connection_id, phase: Phase::Connecting, identity: None, session_id: None }
    }

    /// The upgrade of the transport ended: a connecting connection is
    /// authenticating after a success and closed after a failure.
    pub fn upgraded(&mut self, success: bool)
        ensures
            final(self)@ == if old(self).phase == Phase::Connecting {
                in_phase(
                    old(self)@,
                    if success {
                        Phase::Authenticating
                    } else {
                        Phase::Closed
                    },
                )
            } else {
                old(self)@
            },
    {
        if self.phase == Phase::Connecting {
            self.phase = if success {
                Phase::Authenticating
            } else {
                Phase::Closed
            };
        }
    }

    /// Judges the first frame of a connection at `now`: `None` where the
    /// peer hung up, `Err` where reading failed.
    pub fn handshake_at(first: Option<Result<Frame, String>>, secret: Option<&[u8]>, now: Timestamp) -> (outcome:
        Handshake)
        ensures
            outcome@ == judged(first_view(first), secret_view(secret), now),
    {
        match first {
            None => Handshake::NoFrame,
            Some(Err(reason)) => Handshake::ReadFailed(reason),
            Some(Ok(frame)) => match WsAuth::from_first_message_at(&frame, secret, now) {
                Ok(WsAuth(claims)) => Handshake::Accepted(claims),
                Err(rejection) => Handshake::Rejected(rejection),
            },
        }
    }

    /// Judges the first frame of a connection at the time of the call:
    /// `None` where the peer hung up, `Err` where reading failed. A frame
    /// that hands over no token is rejected for that fault, and only such a
    /// frame is; a token is rejected for an error of the token, or for the
    /// internal error where the service has no secret, and only there.
    pub fn handshake(first: Option<Result<Frame, String>>, secret: Option<&[u8]>) -> (outcome: Handshake)
        ensures
            exists|now: Timestamp|
                outcome@ == #[trigger] judged(first_view(first), secret_view(secret), now),
            match first {
                None => outcome@ == HandshakeView::NoFrame,
                Some(Err(reason)) => outcome@ == HandshakeView::ReadFailed(reason@),
                Some(Ok(frame)) => match token_of_frame(frame@) {
                    Err(fault) => outcome@ == HandshakeView::Rejected(refusal_for_fault(fault)),
                    Ok(token) => outcome is Accepted || (outcome matches Handshake::Rejected(r)
                        && exists|e: AuthError|
                        e != AuthError::Missing && (e == AuthError::Internal <==> secret is None)
                            && r@ == #[trigger] refusal_for_error(e)),
                },
            },
    {
        let at = crate::time::now();
        let ghost arrived = first_view(first);
        let outcome = Connection::handshake_at(first, secret, at);
        proof {
            match arrived {
                Some(Ok(frame)) => {
                    if token_of_frame(frame) is Ok {
                        crate::auth::lemma_refusal(
                            token_of_frame(frame)->Ok_0,
                            secret_view(secret),
                            at,
                        );
                    }
                },
                _ => {},
            }
        }
        outcome
    }

    /// Ends the handshake. An accepted connection continues the session
    /// that the index names for its user, or starts the session `fresh`,
    /// which is then recorded as opened at `now`; it is registered with
    /// `outbox` and told of its session. A refused connection is told why
    /// and closed.
    pub fn conclude(
        &mut self,
        outcome: Handshake,
        index: &mut AuthSession,
        registry: &mut WsBroadcaster,
        outbox: Outbox,
        fresh: String,
        now: Timestamp,
    ) -> (replies: Vec<CommunicationResponse>)
        ensures
            old(self).phase == Phase::Authenticating && outcome is Accepted ==> {
                let user_id = user_of(outcome->Accepted_0.sub);
                let session_id = match old(index).session_of(user_id) {
                    Some(known) => known,
                    None => fresh@,
                };
                &&& (final(self)@, responses_view(replies@)) == after_handshake(
                    old(self)@,
                    outcome@,
                    session_id,
                )
                &&& final(index).session_of(user_id) == Some(session_id)
                &&& final(registry).clients@ == registered(
                    old(registry).clients@,
                    old(self).connection_id,
                    outbox,
                )
                &&& knows(final(registry).clients@, old(self).connection_id)
            },
            !(old(self).phase == Phase::Authenticating && outcome is Accepted) ==> {
                &&& (final(self)@, responses_view(replies@)) == after_handshake(
                    old(self)@,
                    outcome@,
                    fresh@,
                )
                &&& *final(index) == *old(index)
                &&& *final(registry) == *old(registry)
            },
    {
        let mut replies: Vec<CommunicationResponse> = Vec::new();
        if self.phase != Phase::Authenticating {
            assert(responses_view(replies@) =~= Seq::<ResponseView>::empty());
            return replies;
        }
        match outcome {
            Handshake::Accepted(claims) => {
                let user_id = user_id_of(claims.sub);
                let (session_id, _) = index.resume_or_open(user_id, fresh, now);
                registry.add_client(self.connection_id, outbox);
                let reply = CommunicationResponse::SessionCreated {
                    status: "session_created".to_owned(),
                    session_id: session_id.clone(),
                    user_id,
                };
                replies.push(reply);
                assert(responses_view(replies@) =~= seq![welcome(session_id@, user_id)]);
                self.phase = Phase::Active;
                self.identity = Some(claims);
                self.session_id = Some(session_id);
            },
            Handshake::Rejected(r) => {
                let reply = CommunicationResponse::Refused {
                    status: "authentication_failed".to_owned(),
                    error: r.message,
                    code: r.status,
                    reason: r.code,
                };
                replies.push(reply);
                assert(responses_view(replies@) =~= seq![refusal(outcome@)]);
                self.phase = Phase::Closed;
            },
            Handshake::ReadFailed(reason) => {
                let mut error = "Failed to read message: ".to_owned();
                error.append(reason.as_str());
                let reply = CommunicationResponse::Refused {
                    status: "connection_error".to_owned(),
                    error,
                    code: 400,
                    reason: AuthError::Missing.code().to_owned(),
                };
                replies.push(reply);
                assert(responses_view(replies@) =~= seq![refusal(outcome@)]);
                self.phase = Phase::Closed;
            },
            Handshake::NoFrame => {
                let reply = CommunicationResponse::Refused {
                    status: "no_message".to_owned(),
                    error: "No initial message received".to_owned(),
                    code: 400,
                    reason: AuthError::Missing.code().to_owned(),
                };
                replies.push(reply);
                assert(responses_view(replies@) =~= seq![refusal(outcome@)]);
                self.phase = Phase::Closed;
            },
        }
        replies
    }

    /// Ends the handshake at the time of the call, with a session id that
    /// is drawn at random where the user has no session yet: an
    /// identifier of 36 characters.
    pub fn conclude_now(
        &mut self,
        outcome: Handshake,
        index: &mut AuthSession,
        registry: &mut WsBroadcaster,
        outbox: Outbox,
    ) -> (replies: Vec<CommunicationResponse>)
        ensures
            exists|fresh: Seq<char>|
                fresh.len() == crate::ids::UUID_LENGTH && (final(self)@, responses_view(replies@))
                    == after_handshake(
                    old(self)@,
                    outcome@,
                    #[trigger] session_for(*old(index), outcome@, fresh),
                ),
            old(self).phase == Phase::Authenticating && outcome is Accepted ==> {
                &&& final(registry).clients@ == registered(
                    old(registry).clients@,
                    old(self).connection_id,
                    outbox,
                )
                &&& final(index).session_of(user_of(outcome->Accepted_0.sub)) is Some
            },
            !(old(self).phase == Phase::Authenticating && outcome is Accepted) ==> *final(index)
                == *old(index) && *final(registry) == *old(registry),
    {
        let fresh = crate::ids::fresh_uuid();
        let at = crate::time::now();
        let ghost minted = fresh@;
        let replies = self.conclude(outcome, index, registry, outbox, fresh, at);
        assert((self@, responses_view(replies@)) == after_handshake(
            old(self)@,
            outcome@,
            session_for(*old(index), outcome@, minted),
        ));
        replies
    }

    /// Tests whether `session_id` is the session of the connection.
    pub fn is_session(&self, session_id: &str) -> (yes: bool)
        ensures
            yes == (self@.session_id == Some(session_id@)),
    {
        match &self.session_id {
            Some(own) => crate::text::same_text(own.as_str(), session_id),
            None => false,
        }
    }

    /// Takes the parsed text of a frame.
    pub fn on_parsed(&mut self, parsed: &Result<Json, JsonError>) -> (step: Step)
        ensures
            (final(self)@, responses_view(step.replies@), domain_view(step.run)) == after_text(
                old(self)@,
                match parsed {
                    Ok(value) => Ok(value@),
                    Err(e) => Err(*e),
                },
            ),
    {
        let mut replies: Vec<CommunicationResponse> = Vec::new();
        assert(responses_view(replies@) =~= Seq::<ResponseView>::empty());
        if self.phase != Phase::Active {
            return Step { replies, run: None };
        }
        let value = match parsed {
            Ok(value) => value,
            Err(_) => {
                replies.push(CommunicationResponse::error("invalid_request", "Unknown request type"));
                assert(responses_view(replies@) =~= seq![unknown_request()]);
                return Step { replies, run: None };
            },
        };
        match ConnectionRequest::from_json(value) {
            Some(ConnectionRequest::Disconnect { session_id, user_id }) => {
                if self.is_session(session_id.as_str()) {
                    replies.push(
                        CommunicationResponse::Disconnected { status: "disconnected".to_owned() },
                    );
                    assert(responses_view(replies@) =~= seq![goodbye()]);
                    self.phase = Phase::Closing;
                }
                Step { replies, run: None }
            },
            Some(ConnectionRequest::StartConnection { token }) => {
                replies.push(CommunicationResponse::error("invalid_request", "Already connected"));
                assert(responses_view(replies@) =~= seq![already_connected()]);
                Step { replies, run: None }
            },
            None => match CommunicationRequest::from_json(value) {
                Some(request) => Step { replies, run: Some(request) },
                None => {
                    replies.push(
                        CommunicationResponse::error("invalid_request", "Unknown request type"),
                    );
                    assert(responses_view(replies@) =~= seq![unknown_request()]);
                    Step { replies, run: None }
                },
            },
        }
    }

    /// Takes a frame.
    pub fn on_frame(&mut self, frame: &Frame) -> (step: Step)
        ensures
            (final(self)@, responses_view(step.replies@), domain_view(step.run)) == after_frame(
                old(self)@,
                frame@,
            ),
    {
        let replies: Vec<CommunicationResponse> = Vec::new();
        assert(responses_view(replies@) =~= Seq::<ResponseView>::empty());
        if self.phase != Phase::Active {
            return Step { replies, run: None };
        }
        match frame {
            Frame::Text(text) => {
                let parsed = parse_json(text.as_str());
                self.on_parsed(&parsed)
            },
            Frame::Close => {
                self.phase = Phase::Closing;
                Step { replies, run: None }
            },
            _ => Step { replies, run: None },
        }
    }

    /// The transport fell silent: the peer is gone, or the outbound channel
    /// is closed. An active connection is closing after it.
    pub fn on_silence(&mut self)
        ensures
            final(self)@ == if old(self).phase == Phase::Active {
                in_phase(old(self)@, Phase::Closing)
            } else {
                old(self)@
            },
    {
        if self.phase == Phase::Active {
            self.phase = Phase::Closing;
        }
    }

    /// Closes the connection: its entry leaves the registry.
    pub fn close(&mut self, registry: &mut WsBroadcaster)
        ensures
            final(self)@ == in_phase(old(self)@, Phase::Closed),
            final(registry).clients@ == unregistered(old(registry).clients@, old(self).connection_id),
            !knows(final(registry).clients@, old(self).connection_id),
    {
        registry.remove_client(&self.connection_id);
        self.phase = Phase::Closed;
    }
}

/// Nothing leads out of `Closed`: a closed connection stays as it is
/// whatever arrives, and is sent nothing.
pub proof fn law_closed_is_final(conn: ConnectionView, frame: FrameView, outcome: HandshakeView, session_id: Seq<char>)
    requires
        conn.phase == Phase::Closed,
    ensures
        after_frame(conn, frame) == (conn, Seq::<ResponseView>::empty(), None::<CommunicationRequestView>),
        after_handshake(conn, outcome, session_id) == (conn, Seq::<ResponseView>::empty()),
{
}

} // verus!
