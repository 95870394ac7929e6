//! Signalling protocol state machine.
//!
//! One `Signaller` manages the lifecycle of a session with the signalling
//! server: connect, identify, negotiate offers and answers, exchange ICE
//! candidates, tear down. The machine is pure decision logic: every step
//! takes a typed event and returns the actions the host must perform —
//! queueing a wire message, spawning or joining a task, raising an event to
//! the media layer. The host's websocket, JSON and task plumbing stay
//! outside.

use vstd::prelude::*;

use crate::protocol::{
    Answer, DisconnectPlayer, EndpointId, IceCandidate, IceCandidateData, Message, Offer,
};

verus! {

/// Lifecycle of the connection to the signalling server. `Negotiating`
/// passes into `Streaming` implicitly once ICE connects (reported by the
/// host through `ice_connected`); `Closing` names the interval inside
/// `stop`, which this synchronous model collapses into one step ending in
/// `Closed`.
#[derive(Clone, Copy, Debug, PartialEq, Eq, Structural)]
pub enum SignallerStatus {
    Idle,
    Connecting,
    Connected,
    Identified,
    Negotiating,
    Streaming,
    Closing,
    Closed,
    Error,
}

/// What went wrong, for error events raised to the owning application.
#[derive(Clone, Copy, Debug, PartialEq, Eq, Structural)]
pub enum ErrorReason {
    /// Connecting to the server failed or timed out; not retried here.
    ConnectFailed,
    /// An inbound frame held no recognizable message; the connection stays
    /// open.
    UnknownServerMessage,
    /// An inbound SDP payload did not parse.
    SdpParse,
    /// The websocket transport failed.
    Transport,
}

/// One side effect the host must perform after a machine step, in order.
#[derive(Clone, Debug)]
pub enum SignalAction {
    /// Queue this message onto the websocket sender.
    Send(Message),
    /// Spawn the task that opens the websocket connection.
    SpawnConnect,
    /// Spawn the loop that drains the outbound queue onto the socket.
    SpawnSendLoop,
    /// Spawn the loop that reads and dispatches inbound frames.
    SpawnReceiveLoop,
    /// Abort the connect task and await it.
    AbortConnectTask,
    /// Close the outbound queue, letting the send loop finish and close the
    /// socket.
    CloseSender,
    /// Await the send loop to completion.
    JoinSendTask,
    /// Abort the receive loop and await it.
    AbortReceiveTask,
    /// Tell the media layer a new peer session is requested.
    EmitSessionRequested { player_id: String },
    /// Tell the media layer a peer session ended.
    EmitSessionEnded { player_id: String },
    /// Hand an inbound session description to the media layer.
    EmitSessionDescription { player_id: String, sdp: String, is_offer: bool },
    /// Hand an inbound ICE candidate to the media layer.
    EmitHandleIce { player_id: String, line_index: u32, mid: String, candidate: String },
    /// Report an error upward; the machine itself carries on as its state
    /// says.
    EmitError { reason: ErrorReason, detail: String },
}

/// The peer ids with a live session, as a set of character sequences.
pub open spec fn sessions_set(v: Seq<String>) -> Set<Seq<char>> {
    Set::new(|t: Seq<char>| exists|i: int| 0 <= i < v.len() && v[i]@ == t)
}

/// No two entries name the same peer.
pub open spec fn no_dup_views(v: Seq<String>) -> bool {
    forall|i: int, j: int| 0 <= i < j < v.len() ==> v[i]@ != v[j]@
}

/// Whether some entry of `v` reads `t`.
pub open spec fn contains_view(v: Seq<String>, t: Seq<char>) -> bool {
    exists|i: int| 0 <= i < v.len() && v[i]@ == t
}

fn vec_contains_str(v: &Vec<String>, s: &String) -> (r: bool)
    ensures
        r == contains_view(v@, s@),
{
    let n = v.len();
    let mut i: usize = 0;
    while i < n
        invariant
            n == v@.len(),
            i <= n,
            forall|j: int| 0 <= j < i ==> v@[j]@ != s@,
        decreases n - i,
    {
        if v[i] == *s {
            return true;
        }
        i += 1;
    }
    false
}

fn insert_session(v: &mut Vec<String>, s: &String)
    requires
        no_dup_views(old(v)@),
    ensures
        no_dup_views(final(v)@),
        sessions_set(final(v)@) == sessions_set(old(v)@).insert(s@),
{
    let ghost v0 = v@;
    if !vec_contains_str(v, s) {
        v.push(s.clone());
        proof {
            assert forall|t: Seq<char>|
                sessions_set(v@).contains(t) == sessions_set(v0).insert(s@).contains(t) by {
                if sessions_set(v@).contains(t) {
                    let i = choose|i: int| 0 <= i < v@.len() && v@[i]@ == t;
                    if i < v0.len() {
                        assert(v0[i]@ == t);
                        assert(sessions_set(v0).contains(t));
                    } else {
                        assert(t == s@);
                    }
                }
                if sessions_set(v0).contains(t) {
                    let i = choose|i: int| 0 <= i < v0.len() && v0[i]@ == t;
                    assert(v@[i]@ == t);
                    assert(sessions_set(v@).contains(t));
                }
                if t == s@ {
                    assert(v@[v0.len() as int]@ == t);
                    assert(sessions_set(v@).contains(t));
                }
            }
            assert(sessions_set(v@) =~= sessions_set(v0).insert(s@));
        }
    } else {
        proof {
            assert(sessions_set(v0).contains(s@));
            assert(sessions_set(v@) =~= sessions_set(v0).insert(s@));
        }
    }
}

fn remove_session(v: &mut Vec<String>, s: &String)
    requires
        no_dup_views(old(v)@),
    ensures
        no_dup_views(final(v)@),
        sessions_set(final(v)@) == sessions_set(old(v)@).remove(s@),
{
    let ghost v0 = v@;
    let n = v.len();
    let mut i: usize = 0;
    while i < n
        invariant
            v0 == old(v)@,
            v@ == v0,
            n == v@.len(),
            i <= n,
            no_dup_views(v0),
            forall|j: int| 0 <= j < i ==> v@[j]@ != s@,
        decreases n - i,
    {
        if v[i] == *s {
            v.remove(i);
            proof {
                let v1 = v@;
                assert(v1 == v0.remove(i as int));
                assert forall|p: int, q: int| 0 <= p < q < v1.len() implies v1[p]@ != v1[q]@ by {
                    let p0 = if p < i {
                        p
                    } else {
                        p + 1
                    };
                    let q0 = if q < i {
                        q
                    } else {
                        q + 1
                    };
                    assert(v1[p] == v0[p0] && v1[q] == v0[q0]);
                }
                assert forall|t: Seq<char>|
                    sessions_set(v1).contains(t) == sessions_set(v0).remove(s@).contains(t) by {
                    if sessions_set(v1).contains(t) {
                        let w = choose|w: int| 0 <= w < v1.len() && v1[w]@ == t;
                        let w0 = if w < i {
                            w
                        } else {
                            w + 1
                        };
                        assert(v0[w0]@ == t);
                        assert(sessions_set(v0).contains(t));
                        assert(t != s@);
                    }
                    if sessions_set(v0).contains(t) && t != s@ {
                        let w = choose|w: int| 0 <= w < v0.len() && v0[w]@ == t;
                        if w < i {
                            assert(v1[w]@ == t);
                        } else {
                            assert(v0[w]@ != v0[i as int]@);
                            assert(v1[w - 1]@ == t);
                        }
                        assert(sessions_set(v1).contains(t));
                    }
                }
                assert(sessions_set(v1) =~= sessions_set(v0).remove(s@));
            }
            return;
        }
        i += 1;
    }
    proof {
        assert(!sessions_set(v0).contains(s@));
        assert(sessions_set(v@) =~= sessions_set(v0).remove(s@));
    }
}


/// Bound, in seconds, on the websocket connect attempt: a handshake that
/// takes longer fails the connect task, which reports upward and does not
/// retry.
pub const CONNECT_TIMEOUT_SECS: u64 = 20;

/// Error returned by the settings surface.
#[derive(Clone, Copy, Debug, PartialEq, Eq, Structural)]
pub enum SignallerError {
    /// The given URI does not parse as an absolute URL.
    InvalidUri,
}

/// The normalized serialization of `s` as an absolute URL, when `s` parses
/// as one.
pub uninterp spec fn parsed_url(s: Seq<char>) -> Option<Seq<char>>;

/// Relies on url's `Url::parse`: whether a string parses as an absolute URL,
/// and the parsed URL's serialization, are functions of the string alone.
#[verifier::external_body]
fn parse_url(s: &str) -> (r: Option<String>)
    ensures
        match r {
            Some(u) => parsed_url(s@) == Some(u@),
            None => parsed_url(s@) is None,
        },
{
    match url::Url::parse(s) {
        Ok(u) => Some(String::from(u)),
        Err(_) => None,
    }
}

/// The endpoint id the streamer requests: the configured id, or the empty
/// string when none was configured (the server then assigns one).
pub open spec fn spec_id_or_empty(id: Option<String>) -> Seq<char> {
    match id {
        Some(s) => s@,
        None => Seq::empty(),
    }
}

/// The mid attribute value of one media line, or the empty string when the
/// line carries none.
pub open spec fn spec_mid_attr(m: Option<String>) -> Seq<char> {
    match m {
        Some(s) => s@,
        None => Seq::empty(),
    }
}

/// The mid recorded for media line `idx`, falling back to the empty string
/// when the index lies beyond the recorded list.
pub open spec fn spec_mid_lookup(mids: Seq<String>, idx: int) -> Seq<char> {
    if 0 <= idx < mids.len() {
        mids[idx]@
    } else {
        Seq::empty()
    }
}

/// The status after the server confirms the endpoint id: a connected
/// streamer counts as identified; any other state keeps its place.
pub open spec fn spec_confirmed_status(s: SignallerStatus) -> SignallerStatus {
    if s == SignallerStatus::Connected {
        SignallerStatus::Identified
    } else {
        s
    }
}

/// The status after a player connects: an identified streamer starts
/// negotiating; later sessions leave the state where it is.
pub open spec fn spec_player_connected_status(s: SignallerStatus) -> SignallerStatus {
    if s == SignallerStatus::Identified {
        SignallerStatus::Negotiating
    } else {
        s
    }
}

/// The teardown actions `stop` performs, in order: abort a live connect
/// task; then, when the outbound queue is open, close it, await a live send
/// loop to completion, and abort a live receive loop. Without an open queue
/// the loop handles were already dropped.
pub open spec fn spec_stop_actions(s: Signaller) -> Seq<SignalAction> {
    let connect_part: Seq<SignalAction> = if s.spec_connect_task() {
        seq![SignalAction::AbortConnectTask]
    } else {
        Seq::empty()
    };
    let sender_part: Seq<SignalAction> = if s.spec_sender_open() {
        seq![SignalAction::CloseSender] + (if s.spec_send_task() {
            seq![SignalAction::JoinSendTask]
        } else {
            Seq::empty()
        }) + (if s.spec_receive_task() {
            seq![SignalAction::AbortReceiveTask]
        } else {
            Seq::empty()
        })
    } else {
        Seq::empty()
    };
    connect_part + sender_part
}

/// Law: stopping while a send is in flight completes only after the send
/// task has been awaited — the teardown action sequence contains
/// `JoinSendTask` whenever the outbound queue was open with a live send
/// loop, so no task outlives `stop`.
pub proof fn lemma_stop_awaits_inflight_send(s: Signaller)
    requires
        s.spec_sender_open(),
        s.spec_send_task(),
    ensures
        spec_stop_actions(s).contains(SignalAction::JoinSendTask),
{
    let a = spec_stop_actions(s);
    let at: int = if s.spec_connect_task() {
        2
    } else {
        1
    };
    assert(a[at] == SignalAction::JoinSendTask);
}

fn queue_send(sender_open: bool, out: &mut Vec<SignalAction>, m: Message)
    ensures
        final(out)@ == if sender_open {
            old(out)@.push(SignalAction::Send(m))
        } else {
            old(out)@
        },
{
    if sender_open {
        out.push(SignalAction::Send(m));
    }
}

/// The signalling state machine: connection status, configured settings,
/// committed identity, recorded media line ids, live peer sessions, and
/// which background tasks are live. All transitions are synchronous
/// decisions; the host performs the returned actions in order.
pub struct Signaller {
    status: SignallerStatus,
    uri: String,
    requested_streamer_id: Option<String>,
    cafile: Option<String>,
    insecure_tls: bool,
    committed_streamer_id: Option<String>,
    mids: Vec<String>,
    sessions: Vec<String>,
    connect_task: bool,
    send_task: bool,
    receive_task: bool,
    sender_open: bool,
}

impl Signaller {
    pub closed spec fn spec_status(&self) -> SignallerStatus {
        self.status
    }

    pub closed spec fn spec_uri(&self) -> Seq<char> {
        self.uri@
    }

    pub closed spec fn spec_requested_streamer_id(&self) -> Option<String> {
        self.requested_streamer_id
    }

    pub closed spec fn spec_cafile(&self) -> Option<String> {
        self.cafile
    }

    pub closed spec fn spec_insecure_tls(&self) -> bool {
        self.insecure_tls
    }

    /// The committed endpoint id, by its characters.
    pub closed spec fn spec_committed_view(&self) -> Option<Seq<char>> {
        match self.committed_streamer_id {
            Some(s) => Some(s@),
            None => None,
        }
    }

    pub closed spec fn spec_mids(&self) -> Seq<String> {
        self.mids@
    }

    pub closed spec fn spec_sessions(&self) -> Seq<String> {
        self.sessions@
    }

    pub closed spec fn spec_connect_task(&self) -> bool {
        self.connect_task
    }

    pub closed spec fn spec_send_task(&self) -> bool {
        self.send_task
    }

    pub closed spec fn spec_receive_task(&self) -> bool {
        self.receive_task
    }

    pub closed spec fn spec_sender_open(&self) -> bool {
        self.sender_open
    }

    pub open spec fn wf(&self) -> bool {
        no_dup_views(self.spec_sessions())
    }

    /// The configured settings, which message handling never changes.
    pub open spec fn settings_eq(&self, o: &Signaller) -> bool {
        &&& self.spec_uri() == o.spec_uri()
        &&& self.spec_requested_streamer_id() == o.spec_requested_streamer_id()
        &&& self.spec_cafile() == o.spec_cafile()
        &&& self.spec_insecure_tls() == o.spec_insecure_tls()
    }

    /// The task and queue flags, which message handling never changes.
    pub open spec fn tasks_eq(&self, o: &Signaller) -> bool {
        &&& self.spec_connect_task() == o.spec_connect_task()
        &&& self.spec_send_task() == o.spec_send_task()
        &&& self.spec_receive_task() == o.spec_receive_task()
        &&& self.spec_sender_open() == o.spec_sender_open()
    }

    /// Status, identity, sessions and recorded mids, for steps that change
    /// none of them.
    pub open spec fn core_eq(&self, o: &Signaller) -> bool {
        &&& self.spec_status() == o.spec_status()
        &&& self.spec_committed_view() == o.spec_committed_view()
        &&& self.spec_sessions() == o.spec_sessions()
        &&& self.spec_mids() == o.spec_mids()
    }

    /// The current lifecycle status.
    pub fn status(&self) -> (r: SignallerStatus)
        ensures
            r == self.spec_status(),
    {
        self.status
    }

    /// The configured signalling server URI.
    pub fn uri(&self) -> (r: String)
        ensures
            r@ == self.spec_uri(),
    {
        self.uri.clone()
    }

    /// Stores the signalling server URI after checking that it parses as an
    /// absolute URL; a string that does not parse is rejected and nothing
    /// changes.
    pub fn set_uri(&mut self, uri: &str) -> (r: Result<(), SignallerError>)
        ensures
            final(self).core_eq(old(self)),
            final(self).tasks_eq(old(self)),
            final(self).spec_requested_streamer_id() == old(self).spec_requested_streamer_id(),
            final(self).spec_cafile() == old(self).spec_cafile(),
            final(self).spec_insecure_tls() == old(self).spec_insecure_tls(),
            final(self).wf() == old(self).wf(),
            match r {
                Ok(()) => parsed_url(uri@) is Some && final(self).spec_uri() == uri@,
                Err(e) => e == SignallerError::InvalidUri && parsed_url(uri@) is None
                    && final(self).spec_uri() == old(self).spec_uri(),
            },
    {
        match parse_url(uri) {
            Some(_) => {
                self.uri = uri.to_owned();
                Ok(())
            },
            None => Err(SignallerError::InvalidUri),
        }
    }

    /// The configured streamer id, if any.
    pub fn streamer_id(&self) -> (r: Option<String>)
        ensures
            r == self.spec_requested_streamer_id(),
    {
        match &self.requested_streamer_id {
            Some(s) => Some(s.clone()),
            None => None,
        }
    }

    /// Configures the streamer id requested at identification.
    pub fn set_streamer_id(&mut self, streamer_id: Option<String>)
        ensures
            final(self).spec_requested_streamer_id() == streamer_id,
            final(self).core_eq(old(self)),
            final(self).tasks_eq(old(self)),
            final(self).spec_uri() == old(self).spec_uri(),
            final(self).spec_cafile() == old(self).spec_cafile(),
            final(self).spec_insecure_tls() == old(self).spec_insecure_tls(),
            final(self).wf() == old(self).wf(),
    {
        self.requested_streamer_id = streamer_id;
    }

    /// Configures the certificate authority file used for TLS sessions.
    pub fn set_cafile(&mut self, cafile: Option<String>)
        ensures
            final(self).spec_cafile() == cafile,
            final(self).core_eq(old(self)),
            final(self).tasks_eq(old(self)),
            final(self).spec_uri() == old(self).spec_uri(),
            final(self).spec_requested_streamer_id() == old(self).spec_requested_streamer_id(),
            final(self).spec_insecure_tls() == old(self).spec_insecure_tls(),
            final(self).wf() == old(self).wf(),
    {
        self.cafile = cafile;
    }

    /// Configures whether insecure TLS connections are allowed.
    pub fn set_insecure_tls(&mut self, insecure_tls: bool)
        ensures
            final(self).spec_insecure_tls() == insecure_tls,
            final(self).core_eq(old(self)),
            final(self).tasks_eq(old(self)),
            final(self).spec_uri() == old(self).spec_uri(),
            final(self).spec_requested_streamer_id() == old(self).spec_requested_streamer_id(),
            final(self).spec_cafile() == old(self).spec_cafile(),
            final(self).wf() == old(self).wf(),
    {
        self.insecure_tls = insecure_tls;
    }

    /// The endpoint id the server committed, once `EndpointIdConfirm`
    /// arrived.
    pub fn committed_streamer_id(&self) -> (r: Option<String>)
        ensures
            match r {
                Some(s) => self.spec_committed_view() == Some(s@),
                None => self.spec_committed_view() is None,
            },
    {
        match &self.committed_streamer_id {
            Some(s) => Some(s.clone()),
            None => None,
        }
    }

    /// Whether a session with the given peer is live.
    pub fn has_session(&self, player_id: &String) -> (r: bool)
        ensures
            r == sessions_set(self.spec_sessions()).contains(player_id@),
    {
        let r = vec_contains_str(&self.sessions, player_id);
        proof {
            assert(contains_view(self.spec_sessions(), player_id@) == sessions_set(
                self.spec_sessions(),
            ).contains(player_id@));
        }
        r
    }

    /// The mid recorded for media line `index`, or the empty string when the
    /// index lies beyond the recorded list.
    pub fn mid_for_line(&self, index: usize) -> (r: String)
        ensures
            r@ == spec_mid_lookup(self.spec_mids(), index as int),
    {
        if index < self.mids.len() {
            self.mids[index].clone()
        } else {
            String::new()
        }
    }

    /// Starts the connection: spawn the connect task, which opens the
    /// websocket to the configured URI within `CONNECT_TIMEOUT_SECS`.
    pub fn start(&mut self) -> (r: Vec<SignalAction>)
        ensures
            final(self).spec_status() == SignallerStatus::Connecting,
            final(self).spec_connect_task(),
            final(self).spec_send_task() == old(self).spec_send_task(),
            final(self).spec_receive_task() == old(self).spec_receive_task(),
            final(self).spec_sender_open() == old(self).spec_sender_open(),
            final(self).settings_eq(old(self)),
            final(self).spec_committed_view() == old(self).spec_committed_view(),
            final(self).spec_sessions() == old(self).spec_sessions(),
            final(self).spec_mids() == old(self).spec_mids(),
            final(self).wf() == old(self).wf(),
            r@ == seq![SignalAction::SpawnConnect],
    {
        self.status = SignallerStatus::Connecting;
        self.connect_task = true;
        let mut out: Vec<SignalAction> = Vec::new();
        out.push(SignalAction::SpawnConnect);
        proof {
            assert(out@ =~= seq![SignalAction::SpawnConnect]);
        }
        out
    }

    /// The socket handshake succeeded: the machine is connected, the
    /// outbound queue is open, and the host spawns the send and receive
    /// loops.
    pub fn connect_established(&mut self) -> (r: Vec<SignalAction>)
        ensures
            final(self).spec_status() == SignallerStatus::Connected,
            final(self).spec_sender_open(),
            final(self).spec_send_task(),
            final(self).spec_receive_task(),
            final(self).spec_connect_task() == old(self).spec_connect_task(),
            final(self).settings_eq(old(self)),
            final(self).spec_committed_view() == old(self).spec_committed_view(),
            final(self).spec_sessions() == old(self).spec_sessions(),
            final(self).spec_mids() == old(self).spec_mids(),
            final(self).wf() == old(self).wf(),
            r@ == seq![SignalAction::SpawnSendLoop, SignalAction::SpawnReceiveLoop],
    {
        self.status = SignallerStatus::Connected;
        self.sender_open = true;
        self.send_task = true;
        self.receive_task = true;
        let mut out: Vec<SignalAction> = Vec::new();
        out.push(SignalAction::SpawnSendLoop);
        out.push(SignalAction::SpawnReceiveLoop);
        proof {
            assert(out@ =~= seq![SignalAction::SpawnSendLoop, SignalAction::SpawnReceiveLoop]);
        }
        out
    }

    /// The socket handshake failed or timed out: the failure is reported
    /// upward and the machine enters the error state; nothing retries
    /// automatically.
    pub fn connect_failed(&mut self, detail: String) -> (r: Vec<SignalAction>)
        ensures
            final(self).spec_status() == SignallerStatus::Error,
            final(self).tasks_eq(old(self)),
            final(self).settings_eq(old(self)),
            final(self).spec_committed_view() == old(self).spec_committed_view(),
            final(self).spec_sessions() == old(self).spec_sessions(),
            final(self).spec_mids() == old(self).spec_mids(),
            final(self).wf() == old(self).wf(),
            r@ == seq![
                SignalAction::EmitError { reason: ErrorReason::ConnectFailed, detail },
            ],
    {
        self.status = SignallerStatus::Error;
        let mut out: Vec<SignalAction> = Vec::new();
        out.push(SignalAction::EmitError { reason: ErrorReason::ConnectFailed, detail });
        proof {
            assert(out@ =~= seq![
                SignalAction::EmitError { reason: ErrorReason::ConnectFailed, detail },
            ]);
        }
        out
    }

    /// ICE connected for the negotiated session: media flows. No external
    /// signal is required beyond the host's notification; relaying simply
    /// continues for the life of the session.
    pub fn ice_connected(&mut self)
        ensures
            final(self).spec_status() == (if old(self).spec_status()
                == SignallerStatus::Negotiating {
                SignallerStatus::Streaming
            } else {
                old(self).spec_status()
            }),
            final(self).tasks_eq(old(self)),
            final(self).settings_eq(old(self)),
            final(self).spec_committed_view() == old(self).spec_committed_view(),
            final(self).spec_sessions() == old(self).spec_sessions(),
            final(self).spec_mids() == old(self).spec_mids(),
            final(self).wf() == old(self).wf(),
    {
        if matches!(self.status, SignallerStatus::Negotiating) {
            self.status = SignallerStatus::Streaming;
        }
    }

    /// Dispatches one parsed inbound message. An `Identify` request is
    /// answered with the configured endpoint id (or the empty string);
    /// `EndpointIdConfirm` stores the committed id exactly as sent, whatever
    /// id was requested; `PlayerConnected` raises a session request and
    /// records the session; `PlayerDisconnected` ends and removes it; SDP
    /// and ICE payloads are handed to the media layer; everything else is
    /// noted and ignored. Outbound replies are queued only while the
    /// outbound queue is open.
    pub fn handle_message(&mut self, msg: Message) -> (r: Vec<SignalAction>)
        requires
            old(self).wf(),
        ensures
            final(self).wf(),
            final(self).settings_eq(old(self)),
            final(self).tasks_eq(old(self)),
            final(self).spec_mids() == old(self).spec_mids(),
            match msg {
                Message::Identify(_) => {
                    &&& final(self).core_eq(old(self))
                    &&& if old(self).spec_sender_open() {
                        &&& r@.len() == 1
                        &&& r@[0] matches SignalAction::Send(m2) && m2 matches Message::EndpointId(
                            e,
                        ) && e.id@ == spec_id_or_empty(old(self).spec_requested_streamer_id())
                            && e.protocol_version is None
                    } else {
                        r@.len() == 0
                    }
                },
                Message::EndpointIdConfirm(c) => {
                    &&& final(self).spec_committed_view() == Some(c.committed_id@)
                    &&& final(self).spec_status() == spec_confirmed_status(old(self).spec_status())
                    &&& final(self).spec_sessions() == old(self).spec_sessions()
                    &&& r@.len() == 0
                },
                Message::PlayerConnected(pc) => {
                    &&& sessions_set(final(self).spec_sessions()) == sessions_set(
                        old(self).spec_sessions(),
                    ).insert(pc.player_id@)
                    &&& final(self).spec_status() == spec_player_connected_status(
                        old(self).spec_status(),
                    )
                    &&& final(self).spec_committed_view() == old(self).spec_committed_view()
                    &&& r@.len() == 1
                    &&& r@[0] matches SignalAction::EmitSessionRequested { player_id }
                        && player_id@ == pc.player_id@
                },
                Message::PlayerDisconnected(pd) => {
                    &&& sessions_set(final(self).spec_sessions()) == sessions_set(
                        old(self).spec_sessions(),
                    ).remove(pd.player_id@)
                    &&& final(self).spec_status() == old(self).spec_status()
                    &&& final(self).spec_committed_view() == old(self).spec_committed_view()
                    &&& r@.len() == 1
                    &&& r@[0] matches SignalAction::EmitSessionEnded { player_id } && player_id@
                        == pd.player_id@
                },
                Message::Offer(o) => {
                    &&& final(self).core_eq(old(self))
                    &&& match o.player_id {
                        Some(pid) => r@.len() == 1 && (r@[0]
                            matches SignalAction::EmitSessionDescription {
                            player_id,
                            sdp,
                            is_offer,
                        } && player_id@ == pid@ && sdp@ == o.sdp@ && is_offer),
                        None => r@.len() == 0,
                    }
                },
                Message::Answer(a) => {
                    &&& final(self).core_eq(old(self))
                    &&& match a.player_id {
                        Some(pid) => r@.len() == 1 && (r@[0]
                            matches SignalAction::EmitSessionDescription {
                            player_id,
                            sdp,
                            is_offer,
                        } && player_id@ == pid@ && sdp@ == a.sdp@ && !is_offer),
                        None => r@.len() == 0,
                    }
                },
                Message::IceCandidate(ic) => {
                    &&& final(self).core_eq(old(self))
                    &&& match (ic.player_id, ic.candidate) {
                        (Some(pid), Some(cand)) => if 0 <= cand.sdp_m_line_index {
                            r@.len() == 1 && (r@[0] matches SignalAction::EmitHandleIce {
                                player_id,
                                line_index,
                                mid,
                                candidate,
                            } && player_id@ == pid@ && line_index == cand.sdp_m_line_index as u32
                                && mid@ == cand.sdp_mid@ && candidate@ == cand.candidate@)
                        } else {
                            r@.len() == 0
                        },
                        _ => r@.len() == 0,
                    }
                },
                _ => final(self).core_eq(old(self)) && r@.len() == 0,
            },
    {
        let mut out: Vec<SignalAction> = Vec::new();
        match msg {
            Message::Identify(_) => {
                let id: String = match &self.requested_streamer_id {
                    Some(s) => s.clone(),
                    None => String::new(),
                };
                queue_send(
                    self.sender_open,
                    &mut out,
                    Message::EndpointId(EndpointId { id, protocol_version: None }),
                );
            },
            Message::EndpointIdConfirm(c) => {
                self.committed_streamer_id = Some(c.committed_id);
                if matches!(self.status, SignallerStatus::Connected) {
                    self.status = SignallerStatus::Identified;
                }
            },
            Message::PlayerConnected(pc) => {
                insert_session(&mut self.sessions, &pc.player_id);
                if matches!(self.status, SignallerStatus::Identified) {
                    self.status = SignallerStatus::Negotiating;
                }
                out.push(SignalAction::EmitSessionRequested { player_id: pc.player_id });
            },
            Message::PlayerDisconnected(pd) => {
                remove_session(&mut self.sessions, &pd.player_id);
                out.push(SignalAction::EmitSessionEnded { player_id: pd.player_id });
            },
            Message::Offer(o) => {
                match o.player_id {
                    Some(pid) => {
                        out.push(
                            SignalAction::EmitSessionDescription {
                                player_id: pid,
                                sdp: o.sdp,
                                is_offer: true,
                            },
                        );
                    },
                    None => {},
                }
            },
            Message::Answer(a) => {
                match a.player_id {
                    Some(pid) => {
                        out.push(
                            SignalAction::EmitSessionDescription {
                                player_id: pid,
                                sdp: a.sdp,
                                is_offer: false,
                            },
                        );
                    },
                    None => {},
                }
            },
            Message::IceCandidate(ic) => {
                match (ic.player_id, ic.candidate) {
                    (Some(pid), Some(cand)) => {
                        if cand.sdp_m_line_index >= 0 {
                            out.push(
                                SignalAction::EmitHandleIce {
                                    player_id: pid,
                                    line_index: cand.sdp_m_line_index as u32,
                                    mid: cand.sdp_mid,
                                    candidate: cand.candidate,
                                },
                            );
                        }
                    },
                    _ => {},
                }
            },
            _ => {},
        }
        out
    }

    /// Sends the local session description for a peer: records each media
    /// line's mid (or the empty string for a line without one) — inbound ICE
    /// candidates name their media line only by numeric index, which must
    /// map back to these mids — then queues the SDP as an offer or answer
    /// tagged with the peer id.
    pub fn send_sdp(
        &mut self,
        session_id: &String,
        is_offer: bool,
        sdp: String,
        media_mids: &Vec<Option<String>>,
    ) -> (r: Vec<SignalAction>)
        ensures
            final(self).spec_status() == old(self).spec_status(),
            final(self).spec_committed_view() == old(self).spec_committed_view(),
            final(self).spec_sessions() == old(self).spec_sessions(),
            final(self).settings_eq(old(self)),
            final(self).tasks_eq(old(self)),
            final(self).wf() == old(self).wf(),
            final(self).spec_mids().len() == media_mids@.len(),
            forall|i: int|
                0 <= i < media_mids@.len() ==> final(self).spec_mids()[i]@ == spec_mid_attr(
                    #[trigger] media_mids@[i],
                ),
            if old(self).spec_sender_open() {
                &&& r@.len() == 1
                &&& if is_offer {
                    r@[0] matches SignalAction::Send(m) && m matches Message::Offer(o) && o.sdp@
                        == sdp@ && (o.player_id matches Some(p) && p@ == session_id@) && o.sfu
                        is None
                } else {
                    r@[0] matches SignalAction::Send(m) && m matches Message::Answer(a) && a.sdp@
                        == sdp@ && (a.player_id matches Some(p) && p@ == session_id@)
                }
            } else {
                r@.len() == 0
            },
    {
        self.mids.clear();
        let n = media_mids.len();
        let mut i: usize = 0;
        while i < n
            invariant
                n == media_mids@.len(),
                i <= n,
                self.mids@.len() == i,
                forall|j: int|
                    0 <= j < i ==> self.mids@[j]@ == spec_mid_attr(#[trigger] media_mids@[j]),
                self.spec_status() == old(self).spec_status(),
                self.spec_committed_view() == old(self).spec_committed_view(),
                self.spec_sessions() == old(self).spec_sessions(),
                self.settings_eq(old(self)),
                self.tasks_eq(old(self)),
            decreases n - i,
        {
            let entry: String = match &media_mids[i] {
                Some(s) => s.clone(),
                None => String::new(),
            };
            self.mids.push(entry);
            i += 1;
        }
        let msg = if is_offer {
            Message::Offer(
                Offer { sdp, player_id: Some(session_id.clone()), sfu: None },
            )
        } else {
            Message::Answer(Answer { sdp, player_id: Some(session_id.clone()) })
        };
        let mut out: Vec<SignalAction> = Vec::new();
        queue_send(self.sender_open, &mut out, msg);
        out
    }

    /// Queues one local ICE candidate for a peer: the media line index is
    /// mapped back to the recorded mid — falling back to the empty string
    /// when the index lies beyond the recorded list — and indexes that do
    /// not fit the wire's signed field are dropped with a report by the
    /// caller.
    pub fn add_ice(&self, session_id: &String, candidate: String, sdp_m_line_index: u32) -> (r:
        Vec<SignalAction>)
        ensures
            if sdp_m_line_index > i32::MAX as u32 || !self.spec_sender_open() {
                r@.len() == 0
            } else {
                &&& r@.len() == 1
                &&& r@[0] matches SignalAction::Send(m) && m matches Message::IceCandidate(ic) && (
                ic.player_id matches Some(p) && p@ == session_id@) && (ic.candidate matches Some(
                    c,
                ) && c.candidate@ == candidate@ && c.sdp_mid@ == spec_mid_lookup(
                    self.spec_mids(),
                    sdp_m_line_index as int,
                ) && c.sdp_m_line_index == sdp_m_line_index as i32 && c.username_fragment is None)
            },
    {
        let mut out: Vec<SignalAction> = Vec::new();
        if sdp_m_line_index > 0x7fff_ffff {
            return out;
        }
        let sdp_mid = self.mid_for_line(sdp_m_line_index as usize);
        queue_send(
            self.sender_open,
            &mut out,
            Message::IceCandidate(
                IceCandidate {
                    player_id: Some(session_id.clone()),
                    candidate: Some(
                        IceCandidateData {
                            candidate,
                            sdp_mid,
                            sdp_m_line_index: sdp_m_line_index as i32,
                            username_fragment: None,
                        },
                    ),
                },
            ),
        );
        out
    }

    /// Ends the session with one peer on local teardown: tells the server to
    /// disconnect the player and removes the session. The top-level
    /// connection persists across sessions.
    pub fn end_session(&mut self, session_id: &String) -> (r: Vec<SignalAction>)
        requires
            old(self).wf(),
        ensures
            final(self).wf(),
            sessions_set(final(self).spec_sessions()) == sessions_set(
                old(self).spec_sessions(),
            ).remove(session_id@),
            final(self).spec_status() == old(self).spec_status(),
            final(self).spec_committed_view() == old(self).spec_committed_view(),
            final(self).spec_mids() == old(self).spec_mids(),
            final(self).settings_eq(old(self)),
            final(self).tasks_eq(old(self)),
            if old(self).spec_sender_open() {
                r@.len() == 1 && (r@[0] matches SignalAction::Send(m) && m
                    matches Message::DisconnectPlayer(d) && d.player_id@ == session_id@ && d.reason
                    is None)
            } else {
                r@.len() == 0
            },
    {
        remove_session(&mut self.sessions, session_id);
        let mut out: Vec<SignalAction> = Vec::new();
        queue_send(
            self.sender_open,
            &mut out,
            Message::DisconnectPlayer(
                DisconnectPlayer { player_id: session_id.clone(), reason: None },
            ),
        );
        out
    }

    /// Idempotent, blocking teardown: abort a live connect task, close the
    /// outbound queue, await the send loop, abort the receive loop, and
    /// forget all sessions. The caller performs the actions in order before
    /// `stop` is considered complete, so no task outlives it.
    pub fn stop(&mut self) -> (r: Vec<SignalAction>)
        ensures
            final(self).spec_status() == SignallerStatus::Closed,
            !final(self).spec_connect_task(),
            !final(self).spec_send_task(),
            !final(self).spec_receive_task(),
            !final(self).spec_sender_open(),
            final(self).spec_sessions().len() == 0,
            final(self).spec_mids() == old(self).spec_mids(),
            final(self).spec_committed_view() == old(self).spec_committed_view(),
            final(self).settings_eq(old(self)),
            final(self).wf(),
            r@ == spec_stop_actions(*old(self)),
            old(self).spec_sender_open() && old(self).spec_send_task() ==> r@.contains(
                SignalAction::JoinSendTask,
            ),
    {
        let mut out: Vec<SignalAction> = Vec::new();
        if self.connect_task {
            out.push(SignalAction::AbortConnectTask);
            self.connect_task = false;
        }
        if self.sender_open {
            out.push(SignalAction::CloseSender);
            if self.send_task {
                out.push(SignalAction::JoinSendTask);
            }
            if self.receive_task {
                out.push(SignalAction::AbortReceiveTask);
            }
        }
        self.sender_open = false;
        self.send_task = false;
        self.receive_task = false;
        self.sessions = Vec::new();
        self.status = SignallerStatus::Closed;
        proof {
            assert(out@ =~= spec_stop_actions(*old(self)));
            if old(self).spec_sender_open() && old(self).spec_send_task() {
                lemma_stop_awaits_inflight_send(*old(self));
            }
        }
        out
    }

    /// An inbound text frame held no recognizable message: the error is
    /// reported upward and the receive loop carries on — a malformed frame
    /// never tears the connection down.
    pub fn unparseable_frame(&self, raw: String) -> (r: (Vec<SignalAction>, bool))
        ensures
            r.0@ == seq![
                SignalAction::EmitError { reason: ErrorReason::UnknownServerMessage, detail: raw },
            ],
            r.1,
    {
        let mut out: Vec<SignalAction> = Vec::new();
        out.push(
            SignalAction::EmitError { reason: ErrorReason::UnknownServerMessage, detail: raw },
        );
        proof {
            assert(out@ =~= seq![
                SignalAction::EmitError { reason: ErrorReason::UnknownServerMessage, detail: raw },
            ]);
        }
        (out, true)
    }

    /// The server closed the websocket: the receive loop finishes quietly.
    pub fn connection_closed(&self) -> (r: (Vec<SignalAction>, bool))
        ensures
            r.0@.len() == 0,
            !r.1,
    {
        (Vec::new(), false)
    }

    /// The websocket transport failed while receiving: the error is reported
    /// and the receive loop finishes.
    pub fn transport_error(&self, detail: String) -> (r: (Vec<SignalAction>, bool))
        ensures
            r.0@ == seq![
                SignalAction::EmitError { reason: ErrorReason::Transport, detail },
            ],
            !r.1,
    {
        let mut out: Vec<SignalAction> = Vec::new();
        out.push(SignalAction::EmitError { reason: ErrorReason::Transport, detail });
        proof {
            assert(out@ =~= seq![SignalAction::EmitError { reason: ErrorReason::Transport, detail }]);
        }
        (out, false)
    }

    /// An inbound session description failed to parse: the error is reported
    /// and the receive loop finishes, leaving the session to be retried by
    /// the peer.
    pub fn sdp_parse_failed(&self, detail: String) -> (r: (Vec<SignalAction>, bool))
        ensures
            r.0@ == seq![
                SignalAction::EmitError { reason: ErrorReason::SdpParse, detail },
            ],
            !r.1,
    {
        let mut out: Vec<SignalAction> = Vec::new();
        out.push(SignalAction::EmitError { reason: ErrorReason::SdpParse, detail });
        proof {
            assert(out@ =~= seq![SignalAction::EmitError { reason: ErrorReason::SdpParse, detail }]);
        }
        (out, false)
    }
}

impl Default for Signaller {
    /// A fresh machine: idle, pointed at the default local signalling
    /// server, with no identity, sessions, recorded mids or live tasks.
    fn default() -> (r: Signaller)
        ensures
            r.spec_status() == SignallerStatus::Idle,
            r.spec_uri() == "ws://127.0.0.1:8888"@,
            r.spec_requested_streamer_id() is None,
            r.spec_cafile() is None,
            !r.spec_insecure_tls(),
            r.spec_committed_view() is None,
            r.spec_mids().len() == 0,
            r.spec_sessions().len() == 0,
            !r.spec_connect_task(),
            !r.spec_send_task(),
            !r.spec_receive_task(),
            !r.spec_sender_open(),
            r.wf(),
    {
        Signaller {
            status: SignallerStatus::Idle,
            uri: "ws://127.0.0.1:8888".to_owned(),
            requested_streamer_id: None,
            cafile: None,
            insecure_tls: false,
            committed_streamer_id: None,
            mids: Vec::new(),
            sessions: Vec::new(),
            connect_task: false,
            send_task: false,
            receive_task: false,
            sender_open: false,
        }
    }
}

} // verus!

