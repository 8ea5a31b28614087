//! The host agent's decisions: chat transcript, connection approval,
//! reconnect backoff, session health, data channel routing, the status line
//! and the tray icon.
use crate::protocol::SignalingEvent;
use crate::wire::{decimal, push_decimal, str_eq, texts};
use vstd::prelude::*;

verus! {

/// One line in the host chat transcript.
#[derive(Clone)]
pub struct ChatLine {
    pub from_me: bool,
    pub text: String,
}

/// Lines the transcript keeps.
pub const MAX_CHAT_LINES: usize = 200;

/// The transcript after appending `line` and dropping the oldest lines
/// beyond the last 200.
pub open spec fn chat_after(log: Seq<ChatLine>, line: ChatLine) -> Seq<ChatLine> {
    let l = log.push(line);
    if l.len() > MAX_CHAT_LINES {
        l.skip(l.len() - MAX_CHAT_LINES)
    } else {
        l
    }
}

/// Appends a chat line, keeping the transcript bounded.
pub fn push_chat(log: &mut Vec<ChatLine>, line: ChatLine)
    ensures
        final(log)@ == chat_after(old(log)@, line),
{
    let ghost l = old(log)@.push(line);
    log.push(line);
    let ghost mut dropped: int = 0;
    while log.len() > MAX_CHAT_LINES
        invariant
            0 <= dropped <= l.len(),
            log@ == l.skip(dropped),
            dropped > 0 ==> l.len() - dropped >= MAX_CHAT_LINES,
        decreases log.len(),
    {
        log.remove(0);
        proof {
            assert(l.skip(dropped).remove(0) =~= l.skip(dropped + 1));
            dropped = dropped + 1;
        }
    }
    proof {
        if l.len() > MAX_CHAT_LINES {
            assert(dropped == l.len() - MAX_CHAT_LINES);
        } else {
            assert(dropped == 0);
            assert(l.skip(0) =~= l);
        }
    }
}

/// Law: the transcript never holds more than 200 lines, its last line is the
/// one just added, and the lines kept are the most recent ones in order.
pub proof fn law_chat_bounded(log: Seq<ChatLine>, line: ChatLine)
    requires
        log.len() <= MAX_CHAT_LINES,
    ensures
        chat_after(log, line).len() <= MAX_CHAT_LINES,
        chat_after(log, line).last() == line,
        chat_after(log, line).len() >= 1,
        forall|i: int|
            0 <= i < chat_after(log, line).len() - 1 ==> #[trigger] chat_after(log, line)[i]
                == log[i + log.len() + 1 - chat_after(log, line).len()],
{
}

/// How long a connection request waits for the host: 30 s.
pub const APPROVAL_TIMEOUT_MS: u64 = 30_000;

/// How often the pending decision is looked at: every 150 ms.
pub const APPROVAL_POLL_MS: u64 = 150;

/// The state of a pending connection request.
#[derive(PartialEq, Eq, Structural)]
pub enum ApprovalStep {
    /// The host allowed it.
    Allow,
    /// The host denied it, or it timed out.
    Deny,
    /// Keep waiting.
    Wait,
}

/// The host's decision (0 undecided, 1 allow, 2 deny) after `waited_ms`.
pub open spec fn approval_spec(decision: u8, waited_ms: u64) -> ApprovalStep {
    if decision == 1 {
        ApprovalStep::Allow
    } else if decision == 2 {
        ApprovalStep::Deny
    } else if waited_ms >= APPROVAL_TIMEOUT_MS {
        ApprovalStep::Deny
    } else {
        ApprovalStep::Wait
    }
}

/// Looks at a pending connection request: allowed, denied, auto-denied after
/// 30 s without an answer, or still waiting.
pub fn approval_step(decision: u8, waited_ms: u64) -> (s: ApprovalStep)
    ensures
        s == approval_spec(decision, waited_ms),
{
    if decision == 1 {
        ApprovalStep::Allow
    } else if decision == 2 {
        ApprovalStep::Deny
    } else if waited_ms >= APPROVAL_TIMEOUT_MS {
        ApprovalStep::Deny
    } else {
        ApprovalStep::Wait
    }
}

/// Law: an unanswered request is denied once 200 polls of 150 ms have
/// passed, and never allowed without the host's answer.
pub proof fn law_unanswered_request_denied(decision: u8, polls: u64)
    requires
        decision != 1,
        decision != 2,
        polls >= 200,
        polls * APPROVAL_POLL_MS <= u64::MAX,
    ensures
        approval_spec(decision, (polls * APPROVAL_POLL_MS) as u64) == ApprovalStep::Deny,
        forall|w: u64| approval_spec(decision, w) != ApprovalStep::Allow,
{
    assert(polls * APPROVAL_POLL_MS >= 30_000) by (nonlinear_arith)
        requires
            polls >= 200,
            APPROVAL_POLL_MS == 150,
    ;
}

/// First reconnect delay: 1 s.
pub const INITIAL_BACKOFF_MS: u64 = 1_000;

/// Longest reconnect delay: 30 s.
pub const MAX_BACKOFF_MS: u64 = 30_000;

/// The delay after `current_ms`: doubled, at most 30 s.
pub open spec fn next_backoff_spec(current_ms: u64) -> u64 {
    if current_ms * 2 < MAX_BACKOFF_MS {
        (current_ms * 2) as u64
    } else {
        MAX_BACKOFF_MS
    }
}

/// The next reconnect delay: doubled, at most 30 s.
pub fn next_backoff(current_ms: u64) -> (next: u64)
    ensures
        next == next_backoff_spec(current_ms),
{
    if current_ms < MAX_BACKOFF_MS / 2 {
        current_ms * 2
    } else {
        MAX_BACKOFF_MS
    }
}

/// The delay after `n` failed attempts in a row.
pub open spec fn backoff_after(n: nat) -> u64
    decreases n,
{
    if n == 0 {
        INITIAL_BACKOFF_MS
    } else {
        next_backoff_spec(backoff_after((n - 1) as nat))
    }
}

/// Law: reconnect delays start at 1 s, never exceed 30 s, never shrink while
/// failures continue, and reach 30 s from the fifth failure on.
pub proof fn law_backoff_bounded(n: nat)
    ensures
        INITIAL_BACKOFF_MS <= backoff_after(n) <= MAX_BACKOFF_MS,
        backoff_after(n) <= backoff_after(n + 1),
        n >= 5 ==> backoff_after(n) == MAX_BACKOFF_MS,
    decreases n,
{
    if n > 0 {
        law_backoff_bounded((n - 1) as nat);
    }
    if n >= 5 {
        if n == 5 {
            reveal_with_fuel(backoff_after, 6);
        }
    }
}

/// The delay after `n` failed attempts in a row, in closed form: 1, 2, 4,
/// 8 and 16 s, then 30 s.
pub open spec fn backoff_closed_form(n: nat) -> u64 {
    if n < 5 {
        (INITIAL_BACKOFF_MS * vstd::arithmetic::power2::pow2(n)) as u64
    } else {
        MAX_BACKOFF_MS
    }
}

/// Law: after `n` failed attempts in a row the delay is
/// `min(2^n, 30)` seconds: 1, 2, 4, 8, 16, 30, 30, ...
pub proof fn law_backoff_closed_form(n: nat)
    ensures
        backoff_after(n) == backoff_closed_form(n),
{
    reveal_with_fuel(backoff_after, 6);
    vstd::arithmetic::power2::lemma2_to64();
    if n >= 5 {
        law_backoff_bounded(n);
    }
}

/// Law: the delays a run of failed connections waits, one after another
/// from a fresh start (`delays[0]` the first delay, each next one what
/// `next_backoff` makes of it), are `min(2^i, 30)` seconds.
pub proof fn law_reconnect_waits(delays: Seq<u64>)
    requires
        delays.len() > 0,
        delays[0] == INITIAL_BACKOFF_MS,
        forall|i: int| 0 <= i < delays.len() - 1 ==> #[trigger] delays[i + 1] == next_backoff_spec(delays[i]),
    ensures
        forall|i: int| 0 <= i < delays.len() ==> #[trigger] delays[i] == backoff_closed_form(i as nat),
    decreases delays.len(),
{
    if delays.len() > 1 {
        let d = delays.drop_last();
        assert forall|i: int| 0 <= i < d.len() - 1 implies #[trigger] d[i + 1] == next_backoff_spec(d[i]) by {
            assert(delays[i + 1] == next_backoff_spec(delays[i]));
        }
        law_reconnect_waits(d);
        assert forall|i: int| 0 <= i < delays.len() implies #[trigger] delays[i] == backoff_closed_form(
            i as nat,
        ) by {
            if i < d.len() {
                assert(d[i] == backoff_closed_form(i as nat));
            } else {
                let k = (i - 1) as nat;
                let j: int = i - 1;
                assert(d[j] == backoff_closed_form(k));
                assert(delays[j + 1] == next_backoff_spec(delays[j]));
                law_backoff_closed_form(k);
                law_backoff_closed_form(i as nat);
                assert(backoff_after(i as nat) == next_backoff_spec(backoff_after(k)));
            }
        }
    } else {
        law_backoff_closed_form(0);
    }
}

/// Connection state of a viewer's peer connection.
#[derive(PartialEq, Eq, Structural, Clone, Copy)]
pub enum PeerState {
    Unspecified,
    New,
    Connecting,
    Connected,
    Disconnected,
    Failed,
    Closed,
}

/// A disconnected session is given up after this long: 60 s.
pub const DISCONNECTED_GRACE_MS: u64 = 60_000;

/// Whether the health check closes a session: failed or closed ones at
/// once, disconnected ones older than 60 s.
pub open spec fn session_dead_spec(state: PeerState, age_ms: u64) -> bool {
    match state {
        PeerState::Failed | PeerState::Closed => true,
        PeerState::Disconnected => age_ms > DISCONNECTED_GRACE_MS,
        _ => false,
    }
}

/// The health check's verdict on one session.
pub fn session_is_dead(state: PeerState, age_ms: u64) -> (dead: bool)
    ensures
        dead == session_dead_spec(state, age_ms),
{
    match state {
        PeerState::Failed | PeerState::Closed => true,
        PeerState::Disconnected => age_ms > DISCONNECTED_GRACE_MS,
        _ => false,
    }
}

/// Whether an SDP offer may start a session: only one viewer at a time.
pub fn should_accept_offer(active_sessions: usize) -> (ok: bool)
    ensures
        ok == (active_sessions == 0),
{
    active_sessions == 0
}

/// The data channels a viewer opens.
#[derive(PartialEq, Eq, Structural, Clone, Copy)]
pub enum ChannelKind {
    Input,
    Chat,
    File,
    Control,
    Other,
}

/// The channel a data channel label names.
pub open spec fn channel_kind_spec(label: Seq<char>) -> ChannelKind {
    if label == "input"@ {
        ChannelKind::Input
    } else if label == "chat"@ {
        ChannelKind::Chat
    } else if label == "file"@ {
        ChannelKind::File
    } else if label == "control"@ {
        ChannelKind::Control
    } else {
        ChannelKind::Other
    }
}

/// Routes a data channel by its label.
pub fn channel_kind(label: &str) -> (k: ChannelKind)
    ensures
        k == channel_kind_spec(label@),
{
    if crate::wire::str_eq(label, "input") {
        ChannelKind::Input
    } else if crate::wire::str_eq(label, "chat") {
        ChannelKind::Chat
    } else if crate::wire::str_eq(label, "file") {
        ChannelKind::File
    } else if crate::wire::str_eq(label, "control") {
        ChannelKind::Control
    } else {
        ChannelKind::Other
    }
}

/// Whether the capture thread must open a new capturer and encoder: the
/// viewer picked another monitor, or none is open.
pub fn needs_new_capturer(want: usize, current: usize, has_capturer: bool) -> (b: bool)
    ensures
        b == (want != current || !has_capturer),
{
    want != current || !has_capturer
}

/// The status line of the host window.
pub open spec fn status_text_spec(count: usize) -> Seq<char> {
    if count == 0 {
        "● Waiting for connection"@
    } else {
        "● "@ + decimal(count as nat) + " connected"@
    }
}

/// The status line of the host window for `count` connected viewers.
pub fn status_text(count: usize) -> (s: String)
    ensures
        s@ == status_text_spec(count),
{
    if count == 0 {
        "● Waiting for connection".to_string()
    } else {
        let mut s = "● ".to_string();
        push_decimal(&mut s, count as u64);
        s.append(" connected");
        s
    }
}

/// Messages from the system tray menu.
#[derive(Debug)]
pub enum TrayMessage {
    Quit,
    DisconnectAll,
}

/// Side of the tray icon, in pixels.
pub const TRAY_ICON_SIDE: usize = 16;

/// The RGBA pixel of the tray icon: opaque blue.
pub open spec fn tray_pixel() -> Seq<u8> {
    seq![0u8, 140u8, 200u8, 255u8]
}

/// The 16x16 tray icon, all pixels opaque blue.
pub fn tray_icon_rgba() -> (rgba: Vec<u8>)
    ensures
        rgba@.len() == 16 * 16 * 4,
        forall|i: int| 0 <= i < rgba@.len() ==> #[trigger] rgba@[i] == tray_pixel()[i % 4],
{
    let mut rgba: Vec<u8> = Vec::new();
    let mut p: usize = 0;
    while p < TRAY_ICON_SIDE * TRAY_ICON_SIDE
        invariant
            p <= 256,
            rgba@.len() == 4 * p,
            forall|i: int| 0 <= i < rgba@.len() ==> #[trigger] rgba@[i] == tray_pixel()[i % 4],
        decreases 256 - p,
    {
        let ghost before = rgba@;
        rgba.push(0u8);
        rgba.push(140u8);
        rgba.push(200u8);
        rgba.push(255u8);
        proof {
            assert forall|i: int| 0 <= i < rgba@.len() implies #[trigger] rgba@[i] == tray_pixel()[i
                % 4] by {
                if i >= 4 * p {
                    assert(i - 4 * p < 4);
                    assert(i % 4 == i - 4 * p) by (nonlinear_arith)
                        requires
                            0 <= i - 4 * p < 4,
                            p >= 0,
                    ;
                } else {
                    assert(rgba@[i] == before[i]);
                }
            }
        }
        p += 1;
    }
    rgba
}


/// What the host agent's main loop reacts to.
pub enum HostEvent {
    /// The connection to the signaling server is up.
    Connected,
    /// Connecting to the signaling server failed.
    ConnectFailed,
    /// An event from the signaling client.
    Signaling(SignalingEvent),
    /// The signaling client's event stream ended.
    EventsClosed,
    /// The host answered the prompt for a viewer's offer.
    ApprovalAnswered { sdp: String, session_token: String, allowed: bool },
    /// The peer connection of a session is up and its offer answered.
    SessionOpened { session_token: String },
    /// The health check's reading of one session: its connection state and
    /// how long ago it was opened.
    Health { session_token: String, state: PeerState, age_ms: u64 },
    /// The keep-alive timer fired at `now_ms`.
    PingTick { now_ms: u64 },
    /// The host asked to disconnect every viewer.
    DisconnectAll,
    /// The agent is shutting down.
    Shutdown,
}

/// What the host agent's main loop does in answer.
pub enum HostAction {
    /// Ask the host to allow a viewer's connection.
    RequestApproval { sdp: String, session_token: String },
    /// Build the session's peer connection and answer the offer.
    OpenSession { sdp: String, session_token: String },
    /// Hand a trickle ICE candidate to the session's peer connection.
    AddIceCandidate { candidate: String, sdp_mid: String, sdp_mline_index: i32, session_token: String },
    /// Close one session.
    CloseSession { session_token: String },
    /// Close every session.
    CloseAll,
    /// Send a keep-alive carrying the time.
    SendPing { timestamp_ms: u64 },
    /// Wait this long, then connect to the signaling server again.
    Reconnect { delay_ms: u64 },
    /// Stop the main loop.
    Stop,
}

/// No token occurs twice.
pub open spec fn no_dup(t: Seq<Seq<char>>) -> bool {
    forall|i: int, j: int| 0 <= i < j < t.len() ==> #[trigger] t[i] != #[trigger] t[j]
}

/// `t1` is `t0` without the token `tok`, which it held once.
pub open spec fn without_token(t0: Seq<Seq<char>>, tok: Seq<char>, t1: Seq<Seq<char>>) -> bool {
    exists|i: int| 0 <= i < t0.len() && #[trigger] t0[i] == tok && t1 == t0.remove(i)
}

/// Losing the signaling connection: every session closes, and the agent
/// reconnects after the current delay, which then doubles up to 30 s.
pub open spec fn lost_step(t1: Seq<Seq<char>>, b0: u64, b1: u64, out: Seq<HostAction>) -> bool {
    &&& t1.len() == 0
    &&& b1 == next_backoff_spec(b0)
    &&& out == seq![HostAction::CloseAll, HostAction::Reconnect { delay_ms: b0 }]
}

/// One step of the host agent from open sessions `t0` and reconnect delay
/// `b0` on event `ev`, to `t1`, `b1` and the actions `out`.
pub open spec fn host_step(
    t0: Seq<Seq<char>>,
    b0: u64,
    ev: HostEvent,
    t1: Seq<Seq<char>>,
    b1: u64,
    out: Seq<HostAction>,
) -> bool {
    match ev {
        HostEvent::Connected => t1 == t0 && b1 == INITIAL_BACKOFF_MS && out.len() == 0,
        HostEvent::ConnectFailed => t1 == t0 && b1 == next_backoff_spec(b0) && out == seq![
            HostAction::Reconnect { delay_ms: b0 },
        ],
        HostEvent::EventsClosed => lost_step(t1, b0, b1, out),
        HostEvent::Signaling(e) => match e {
            SignalingEvent::Disconnected => lost_step(t1, b0, b1, out),
            SignalingEvent::SdpOffer { sdp, session_token } => t1 == t0 && b1 == b0 && out == (if t0.len()
                == 0 {
                seq![HostAction::RequestApproval { sdp, session_token }]
            } else {
                Seq::empty()
            }),
            SignalingEvent::IceCandidate { candidate, sdp_mid, sdp_mline_index, session_token } => t1
                == t0 && b1 == b0 && out == (if t0.contains(session_token@) {
                seq![HostAction::AddIceCandidate { candidate, sdp_mid, sdp_mline_index, session_token }]
            } else {
                Seq::empty()
            }),
            _ => t1 == t0 && b1 == b0 && out.len() == 0,
        },
        HostEvent::ApprovalAnswered { sdp, session_token, allowed } => t1 == t0 && b1 == b0 && out == (
        if allowed && t0.len() == 0 {
            seq![HostAction::OpenSession { sdp, session_token }]
        } else {
            Seq::empty()
        }),
        HostEvent::SessionOpened { session_token } => b1 == b0 && out.len() == 0 && t1 == (if t0.contains(
            session_token@,
        ) {
            t0
        } else {
            t0.push(session_token@)
        }),
        HostEvent::Health { session_token, state, age_ms } => b1 == b0 && if t0.contains(session_token@)
            && session_dead_spec(state, age_ms) {
            without_token(t0, session_token@, t1) && !t1.contains(session_token@) && out == seq![
                HostAction::CloseSession { session_token },
            ]
        } else {
            t1 == t0 && out.len() == 0
        },
        HostEvent::PingTick { now_ms } => t1 == t0 && b1 == b0 && out == seq![
            HostAction::SendPing { timestamp_ms: now_ms },
        ],
        HostEvent::DisconnectAll => t1.len() == 0 && b1 == b0 && out == seq![HostAction::CloseAll],
        HostEvent::Shutdown => t1.len() == 0 && b1 == b0 && out == seq![HostAction::CloseAll, HostAction::Stop],
    }
}

/// The host agent's sessions (by token) and its reconnect delay.
pub struct HostAgent {
    sessions: Vec<String>,
    backoff_ms: u64,
}

/// Where `t` is found in `v`, if anywhere.
fn position(v: &Vec<String>, t: &str) -> (r: Option<usize>)
    ensures
        match r {
            Some(i) => i < v@.len() && v@[i as int]@ == t@,
            None => !texts(v@).contains(t@),
        },
{
    let mut i: usize = 0;
    while i < v.len()
        invariant
            i <= v@.len(),
            forall|j: int| 0 <= j < i ==> #[trigger] v@[j]@ != t@,
        decreases v@.len() - i,
    {
        if str_eq(v[i].as_str(), t) {
            return Some(i);
        }
        i += 1;
    }
    proof {
        let m = texts(v@);
        assert forall|j: int| 0 <= j < m.len() implies m[j] != t@ by {
            assert(m[j] == v@[j]@);
        }
    }
    None
}

/// No action.
fn no_actions() -> (v: Vec<HostAction>)
    ensures
        v@ == Seq::<HostAction>::empty(),
{
    Vec::new()
}

/// One action.
fn one_action(a: HostAction) -> (v: Vec<HostAction>)
    ensures
        v@ == seq![a],
{
    vec![a]
}

/// Two actions, in order.
fn two_actions(a: HostAction, b: HostAction) -> (v: Vec<HostAction>)
    ensures
        v@ == seq![a, b],
{
    vec![a, b]
}

impl HostAgent {
    /// The tokens of the open sessions.
    pub closed spec fn tokens(&self) -> Seq<Seq<char>> {
        texts(self.sessions@)
    }

    /// The current reconnect delay, in milliseconds.
    pub closed spec fn backoff(&self) -> u64 {
        self.backoff_ms
    }

    /// The agent's invariant: each session once, and a delay between 1 s
    /// and 30 s.
    pub closed spec fn wf(&self) -> bool {
        &&& no_dup(self.tokens())
        &&& INITIAL_BACKOFF_MS <= self.backoff_ms <= MAX_BACKOFF_MS
    }

    /// No session, a first reconnect delay of 1 s.
    pub fn new() -> (a: Self)
        ensures
            a.wf(),
            a.tokens().len() == 0,
            a.backoff() == INITIAL_BACKOFF_MS,
    {
        HostAgent { sessions: Vec::new(), backoff_ms: INITIAL_BACKOFF_MS }
    }

    /// Number of connected viewers, for the status line.
    pub fn viewer_count(&self) -> (n: usize)
        ensures
            n == self.tokens().len(),
    {
        self.sessions.len()
    }

    /// Handles one event: updates the sessions and the reconnect delay and
    /// gives the actions to perform, in order.
    pub fn step(&mut self, ev: HostEvent) -> (out: Vec<HostAction>)
        requires
            old(self).wf(),
        ensures
            final(self).wf(),
            no_dup(final(self).tokens()),
            host_step(old(self).tokens(), old(self).backoff(), ev, final(self).tokens(), final(self).backoff(), out@),
    {
        let ghost t0 = self.tokens();
        match ev {
            HostEvent::Connected => {
                self.backoff_ms = INITIAL_BACKOFF_MS;
                no_actions()
            },
            HostEvent::ConnectFailed => {
                let delay = self.backoff_ms;
                self.backoff_ms = next_backoff(delay);
                one_action(HostAction::Reconnect { delay_ms: delay })
            },
            HostEvent::EventsClosed => self.connection_lost(),
            HostEvent::Signaling(se) => match se {
                SignalingEvent::Disconnected => self.connection_lost(),
                SignalingEvent::SdpOffer { sdp, session_token } => {
                    if should_accept_offer(self.sessions.len()) {
                        one_action(HostAction::RequestApproval { sdp, session_token })
                    } else {
                        no_actions()
                    }
                },
                SignalingEvent::IceCandidate { candidate, sdp_mid, sdp_mline_index, session_token } => {
                    match position(&self.sessions, session_token.as_str()) {
                        Some(i) => {
                            proof {
                                assert(t0[i as int] == session_token@);
                            }
                            one_action(
                                HostAction::AddIceCandidate { candidate, sdp_mid, sdp_mline_index, session_token },
                            )
                        },
                        None => no_actions(),
                    }
                },
                _ => no_actions(),
            },
            HostEvent::ApprovalAnswered { sdp, session_token, allowed } => {
                if allowed && should_accept_offer(self.sessions.len()) {
                    one_action(HostAction::OpenSession { sdp, session_token })
                } else {
                    no_actions()
                }
            },
            HostEvent::SessionOpened { session_token } => {
                match position(&self.sessions, session_token.as_str()) {
                    Some(i) => {
                        proof {
                            assert(t0[i as int] == session_token@);
                        }
                    },
                    None => {
                        let ghost tok = session_token@;
                        self.sessions.push(session_token);
                        proof {
                            assert(self.tokens() =~= t0.push(tok));
                            assert forall|i: int, j: int|
                                0 <= i < j < self.tokens().len() implies #[trigger] self.tokens()[i]
                                != #[trigger] self.tokens()[j] by {
                                if j == t0.len() {
                                    assert(t0[i] == self.tokens()[i]);
                                }
                            }
                        }
                    },
                }
                no_actions()
            },
            HostEvent::Health { session_token, state, age_ms } => {
                if session_is_dead(state, age_ms) {
                    match position(&self.sessions, session_token.as_str()) {
                        Some(i) => {
                            self.sessions.remove(i);
                            proof {
                                assert(t0[i as int] == session_token@);
                                assert(self.tokens() =~= t0.remove(i as int));
                                assert forall|j: int| 0 <= j < self.tokens().len() implies self.tokens()[j]
                                    != session_token@ by {
                                    if j < i {
                                        assert(t0[j] != t0[i as int]);
                                    } else {
                                        assert(t0[j + 1] != t0[i as int]);
                                    }
                                }
                            }
                            one_action(HostAction::CloseSession { session_token })
                        },
                        None => no_actions(),
                    }
                } else {
                    no_actions()
                }
            },
            HostEvent::PingTick { now_ms } => one_action(HostAction::SendPing { timestamp_ms: now_ms }),
            HostEvent::DisconnectAll => {
                self.sessions = Vec::new();
                proof {
                    assert(self.tokens() =~= Seq::<Seq<char>>::empty());
                }
                one_action(HostAction::CloseAll)
            },
            HostEvent::Shutdown => {
                self.sessions = Vec::new();
                proof {
                    assert(self.tokens() =~= Seq::<Seq<char>>::empty());
                }
                two_actions(HostAction::CloseAll, HostAction::Stop)
            },
        }
    }

    /// The signaling connection is gone: close every session and reconnect
    /// after the current delay, which then doubles up to 30 s.
    fn connection_lost(&mut self) -> (out: Vec<HostAction>)
        requires
            old(self).wf(),
        ensures
            final(self).wf(),
            lost_step(final(self).tokens(), old(self).backoff(), final(self).backoff(), out@),
    {
        let delay = self.backoff_ms;
        self.sessions = Vec::new();
        self.backoff_ms = next_backoff(delay);
        proof {
            assert(self.tokens() =~= Seq::<Seq<char>>::empty());
        }
        two_actions(HostAction::CloseAll, HostAction::Reconnect { delay_ms: delay })
    }
}

/// Law: one viewer at a time: while a session is open, an offer is not put
/// to the host and an allowed answer opens no second session.
pub proof fn law_one_viewer_at_a_time(
    t0: Seq<Seq<char>>,
    b0: u64,
    ev: HostEvent,
    t1: Seq<Seq<char>>,
    b1: u64,
    out: Seq<HostAction>,
)
    requires
        host_step(t0, b0, ev, t1, b1, out),
        t0.len() > 0,
        (ev matches HostEvent::Signaling(SignalingEvent::SdpOffer { .. })) || ev is ApprovalAnswered,
    ensures
        out.len() == 0,
        t1 == t0,
{
}

/// Law: a session is opened only on the host's consent: `OpenSession` comes
/// from nothing but an allowed answer, given while no session is open.
pub proof fn law_session_needs_consent(
    t0: Seq<Seq<char>>,
    b0: u64,
    ev: HostEvent,
    t1: Seq<Seq<char>>,
    b1: u64,
    out: Seq<HostAction>,
    i: int,
)
    requires
        host_step(t0, b0, ev, t1, b1, out),
        0 <= i < out.len(),
        out[i] is OpenSession,
    ensures
        ev matches HostEvent::ApprovalAnswered { allowed, .. } && allowed,
        t0.len() == 0,
{
}

/// Law: the reconnect delay starts over at 1 s once connected, and each
/// failed or lost connection waits the current delay before the next try.
pub proof fn law_backoff_resets_on_connect(
    t0: Seq<Seq<char>>,
    b0: u64,
    ev: HostEvent,
    t1: Seq<Seq<char>>,
    b1: u64,
    out: Seq<HostAction>,
)
    requires
        host_step(t0, b0, ev, t1, b1, out),
    ensures
        ev is Connected ==> b1 == INITIAL_BACKOFF_MS,
        (ev is ConnectFailed || ev is EventsClosed || (ev matches HostEvent::Signaling(
            SignalingEvent::Disconnected,
        ))) ==> b1 == next_backoff_spec(b0) && out.last() == (HostAction::Reconnect { delay_ms: b0 }),
{
}

} // verus!
