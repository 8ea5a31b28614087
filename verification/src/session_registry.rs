//! The signaling server's registry of connected hosts and viewers, of the
//! sessions that pair them, and of failed password attempts per host.
//!
//! A connection is named by a `ConnId`; the server keeps the channel of each
//! connection under that id.
use crate::clock::{instant_now, millis_or_zero_spec, monotonic_ms};
use std::time::Instant;
use crate::wire::str_eq;
use dashmap::DashMap;
use uuid::Uuid;
use vstd::prelude::*;

verus! {

/// Names one client connection of the server.
pub type ConnId = u64;

/// Session tokens are strings.
pub type SessionToken = String;

#[verifier::external_type_specification]
#[verifier::external_body]
#[verifier::reject_recursive_types(K)]
#[verifier::reject_recursive_types(V)]
#[verifier::reject_recursive_types(S)]
pub struct ExDashMap<K, V, S>(DashMap<K, V, S>);

/// A registered host.
#[derive(Debug, Clone)]
pub struct HostEntry {
    pub host_id: String,
    pub password_hash: String,
    pub client: ConnId,
    pub failed_attempts: u32,
    /// Reading of the registry's monotonic clock (milliseconds since the
    /// registry was made) until which connection requests are refused.
    pub blocked_until: Option<u64>,
}

/// A viewer that asked to connect.
#[derive(Debug, Clone)]
pub struct ViewerEntry {
    pub viewer_session_id: String,
    pub client: ConnId,
}

/// A host and a viewer paired under a session token.
#[derive(Debug, Clone)]
pub struct ActiveSession {
    pub host_id: String,
    pub viewer_session_id: String,
    pub session_token: SessionToken,
}

/// The table of hosts.
pub type HostTable = DashMap<String, HostEntry>;

/// The table of viewers.
pub type ViewerTable = DashMap<String, ViewerEntry>;

/// The table of sessions.
pub type SessionTable = DashMap<String, ActiveSession>;

/// What the host table holds: host id to entry.
pub uninterp spec fn host_table(m: DashMap<String, HostEntry>) -> Map<Seq<char>, HostEntry>;

/// What the viewer table holds: viewer session id to entry.
pub uninterp spec fn viewer_table(m: DashMap<String, ViewerEntry>) -> Map<Seq<char>, ViewerEntry>;

/// What the session table holds: session token to session.
pub uninterp spec fn session_table(m: DashMap<String, ActiveSession>) -> Map<Seq<char>, ActiveSession>;

/// `DashMap::new` for the host table. Trusted: the new map is empty.
#[verifier::external_body]
fn hosts_new() -> (m: HostTable)
    ensures
        host_table(m).dom() == Set::<Seq<char>>::empty(),
{
    DashMap::new()
}

/// `DashMap::insert` on the host table. Trusted: the key now maps to the
/// entry, replacing any earlier one; other keys are unchanged.
#[verifier::external_body]
fn hosts_insert(m: &mut DashMap<String, HostEntry>, key: String, entry: HostEntry)
    ensures
        host_table(*final(m)) == host_table(*old(m)).insert(key@, entry),
{
    m.insert(key, entry);
}

/// `DashMap::get` on the host table, the entry copied out with its derived
/// `Clone`. Trusted: the entry under the key, if any.
#[verifier::external_body]
fn hosts_get(m: &DashMap<String, HostEntry>, key: &str) -> (r: Option<HostEntry>)
    ensures
        r == (if host_table(*m).contains_key(key@) {
            Some(host_table(*m)[key@])
        } else {
            None
        }),
{
    match m.get(key) {
        Some(e) => Some(e.value().clone()),
        None => None,
    }
}

/// `DashMap::remove` on the host table. Trusted: the key no longer maps to
/// anything; other keys are unchanged.
#[verifier::external_body]
fn hosts_remove(m: &mut DashMap<String, HostEntry>, key: &str)
    ensures
        host_table(*final(m)) == host_table(*old(m)).remove(key@),
{
    m.remove(key);
}

/// `DashMap::new` for the viewer table. Trusted: the new map is empty.
#[verifier::external_body]
fn viewers_new() -> (m: ViewerTable)
    ensures
        viewer_table(m).dom() == Set::<Seq<char>>::empty(),
{
    DashMap::new()
}

/// `DashMap::insert` on the viewer table. Trusted as for the host table.
#[verifier::external_body]
fn viewers_insert(m: &mut DashMap<String, ViewerEntry>, key: String, entry: ViewerEntry)
    ensures
        viewer_table(*final(m)) == viewer_table(*old(m)).insert(key@, entry),
{
    m.insert(key, entry);
}

/// `DashMap::get` on the viewer table. Trusted as for the host table.
#[verifier::external_body]
fn viewers_get(m: &DashMap<String, ViewerEntry>, key: &str) -> (r: Option<ViewerEntry>)
    ensures
        r == (if viewer_table(*m).contains_key(key@) {
            Some(viewer_table(*m)[key@])
        } else {
            None
        }),
{
    match m.get(key) {
        Some(e) => Some(e.value().clone()),
        None => None,
    }
}

/// `DashMap::remove` on the viewer table. Trusted as for the host table.
#[verifier::external_body]
fn viewers_remove(m: &mut DashMap<String, ViewerEntry>, key: &str)
    ensures
        viewer_table(*final(m)) == viewer_table(*old(m)).remove(key@),
{
    m.remove(key);
}

/// `DashMap::new` for the session table. Trusted: the new map is empty.
#[verifier::external_body]
fn sessions_new() -> (m: SessionTable)
    ensures
        session_table(m).dom() == Set::<Seq<char>>::empty(),
{
    DashMap::new()
}

/// `DashMap::insert` on the session table. Trusted as for the host table.
#[verifier::external_body]
fn sessions_insert(m: &mut DashMap<String, ActiveSession>, key: String, entry: ActiveSession)
    ensures
        session_table(*final(m)) == session_table(*old(m)).insert(key@, entry),
{
    m.insert(key, entry);
}

/// `DashMap::get` on the session table. Trusted as for the host table.
#[verifier::external_body]
fn sessions_get(m: &DashMap<String, ActiveSession>, key: &str) -> (r: Option<ActiveSession>)
    ensures
        r == (if session_table(*m).contains_key(key@) {
            Some(session_table(*m)[key@])
        } else {
            None
        }),
{
    match m.get(key) {
        Some(e) => Some(e.value().clone()),
        None => None,
    }
}

/// The sessions of `s` that do not belong to the viewer `viewer`.
pub open spec fn sessions_without_viewer(s: Map<Seq<char>, ActiveSession>, viewer: Seq<char>) -> Map<
    Seq<char>,
    ActiveSession,
> {
    s.restrict(s.dom().filter(|k: Seq<char>| s[k].viewer_session_id@ != viewer))
}

/// Whether a session is kept when `viewer` leaves.
fn keeps_session(s: &ActiveSession, viewer: &str) -> (keep: bool)
    ensures
        keep == (s.viewer_session_id@ != viewer@),
{
    !str_eq(s.viewer_session_id.as_str(), viewer)
}

/// `DashMap::retain` on the session table with a predicate that keeps the
/// sessions of other viewers. Trusted: exactly the entries the predicate
/// keeps remain, unchanged.
#[verifier::external_body]
fn sessions_drop_viewer(m: &mut DashMap<String, ActiveSession>, viewer: &str)
    ensures
        session_table(*final(m)) == sessions_without_viewer(session_table(*old(m)), viewer@),
{
    m.retain(|_, s| keeps_session(s, viewer));
}

/// A lower-case hexadecimal digit.
pub open spec fn is_lower_hex_digit(c: char) -> bool {
    ('0' <= c <= '9') || ('a' <= c <= 'f')
}

/// The text of a random (version 4) UUID: five groups of 8, 4, 4, 4 and 12
/// lower-case hexadecimal digits joined by hyphens, the version digit `4`
/// first in the third group and a variant digit among `8`, `9`, `a`, `b`
/// first in the fourth.
pub open spec fn is_uuid_v4_text(s: Seq<char>) -> bool {
    &&& s.len() == 36
    &&& forall|i: int|
        0 <= i < 36 ==> if i == 8 || i == 13 || i == 18 || i == 23 {
            #[trigger] s[i] == '-'
        } else {
            is_lower_hex_digit(s[i])
        }
    &&& s[14] == '4'
    &&& (s[19] == '8' || s[19] == '9' || s[19] == 'a' || s[19] == 'b')
}

/// `Uuid::new_v4().to_string()`. Trusted: the text of a version 4 UUID, in
/// the hyphenated lower-case form of `Uuid`'s `Display`; its random bits are
/// not stated.
#[verifier::external_body]
pub(crate) fn random_uuid() -> (u: String)
    ensures
        is_uuid_v4_text(u@),
{
    Uuid::new_v4().to_string()
}

/// Failed password attempts that block a host.
pub const MAX_FAILED_ATTEMPTS: u32 = 5;

/// How long a host stays blocked: ten minutes, in milliseconds.
pub const BLOCK_MS: u64 = 600_000;

/// A host entry as registered: no failed attempts, not blocked.
pub open spec fn fresh_host(host_id: String, password_hash: String, client: ConnId) -> HostEntry {
    HostEntry { host_id, password_hash, client, failed_attempts: 0, blocked_until: None }
}

/// Whether a host refuses connection requests at time `now`.
pub open spec fn is_blocked(h: HostEntry, now: u64) -> bool {
    match h.blocked_until {
        Some(t) => now < t,
        None => false,
    }
}

/// Whether the host `host_id` is registered and refuses connection
/// requests at time `now`.
pub open spec fn refused_at(hosts: Map<Seq<char>, HostEntry>, host_id: Seq<char>, now: u64) -> bool {
    hosts.contains_key(host_id) && is_blocked(hosts[host_id], now)
}

/// The highest reading of the registry's clock: a block deadline set at any
/// reading fits in 64 bits.
pub const CLOCK_CAP: u64 = u64::MAX - BLOCK_MS;

/// `now + BLOCK_MS`, saturating at `u64::MAX`.
pub open spec fn block_deadline(now: u64) -> u64 {
    if now + BLOCK_MS > u64::MAX {
        u64::MAX
    } else {
        (now + BLOCK_MS) as u64
    }
}

/// A host entry after one more failed attempt at time `now`: the fifth in a
/// row blocks the host for ten minutes and restarts the count.
pub open spec fn after_failure(h: HostEntry, now: u64) -> HostEntry {
    if h.failed_attempts + 1 >= MAX_FAILED_ATTEMPTS {
        HostEntry { failed_attempts: 0, blocked_until: Some(block_deadline(now)), ..h }
    } else {
        HostEntry { failed_attempts: (h.failed_attempts + 1) as u32, ..h }
    }
}

/// A host entry after a successful password check: count and block cleared.
pub open spec fn after_success(h: HostEntry) -> HostEntry {
    HostEntry { failed_attempts: 0, blocked_until: None, ..h }
}

/// Registered hosts, viewers and active sessions.
pub struct SessionRegistry {
    /// The instant the registry's monotonic clock counts from.
    started: Instant,
    /// The reading of the registry's clock at the last message handled; the
    /// clock never reads less.
    clock_floor: u64,
    hosts: DashMap<String, HostEntry>,
    viewers: DashMap<String, ViewerEntry>,
    sessions: DashMap<SessionToken, ActiveSession>,
}

impl SessionRegistry {
    /// Hosts by host id.
    pub closed spec fn hosts(&self) -> Map<Seq<char>, HostEntry> {
        host_table(self.hosts)
    }

    /// Viewers by viewer session id.
    pub closed spec fn viewers(&self) -> Map<Seq<char>, ViewerEntry> {
        viewer_table(self.viewers)
    }

    /// Sessions by token.
    pub closed spec fn sessions(&self) -> Map<Seq<char>, ActiveSession> {
        session_table(self.sessions)
    }

    /// An empty registry.
    pub fn new() -> (r: Self)
        ensures
            r.hosts().dom() == Set::<Seq<char>>::empty(),
            r.viewers().dom() == Set::<Seq<char>>::empty(),
            r.sessions().dom() == Set::<Seq<char>>::empty(),
    {
        SessionRegistry {
            started: instant_now(),
            clock_floor: 0,
            hosts: hosts_new(),
            viewers: viewers_new(),
            sessions: sessions_new(),
        }
    }

    /// The lowest reading the registry's clock can give now: the reading at
    /// the last message handled.
    pub closed spec fn clock_floor(&self) -> u64 {
        if self.clock_floor <= CLOCK_CAP {
            self.clock_floor
        } else {
            CLOCK_CAP
        }
    }

    /// The registry's monotonic clock: milliseconds since it was made, never
    /// less than the reading at the last message handled, and held at
    /// `CLOCK_CAP` (some 584 million years) so that a block deadline always
    /// fits. Which reading the clock gives is not stated.
    pub fn clock_ms(&self) -> (r: u64)
        ensures
            exists|ms: u128| r == #[trigger] millis_or_zero_spec(Some(ms)),
            self.clock_floor() <= r <= CLOCK_CAP,
    {
        let raw = monotonic_ms(&self.started);
        let floor = if self.clock_floor <= CLOCK_CAP {
            self.clock_floor
        } else {
            CLOCK_CAP
        };
        let capped = if raw <= CLOCK_CAP {
            raw
        } else {
            CLOCK_CAP
        };
        let r = if capped < floor {
            floor
        } else {
            capped
        };
        assert(r == millis_or_zero_spec(Some(r as u128)));
        r
    }

    /// Records `now` as the reading at the last message handled.
    pub(crate) fn advance_clock(&mut self, now: u64)
        requires
            now <= CLOCK_CAP,
        ensures
            final(self).clock_floor() == now,
            final(self).hosts() == old(self).hosts(),
            final(self).viewers() == old(self).viewers(),
            final(self).sessions() == old(self).sessions(),
    {
        self.clock_floor = now;
    }

    /// Registers (or re-registers) a host reached through `client`.
    pub fn register_host(&mut self, host_id: String, password_hash: String, client: ConnId)
        ensures
            final(self).hosts() == old(self).hosts().insert(
                host_id@,
                fresh_host(host_id, password_hash, client),
            ),
            final(self).viewers() == old(self).viewers(),
            final(self).sessions() == old(self).sessions(),
    {
        let key = host_id.clone();
        hosts_insert(
            &mut self.hosts,
            key,
            HostEntry { host_id, password_hash, client, failed_attempts: 0, blocked_until: None },
        );
    }

    /// Registers (or re-registers) a viewer reached through `client`.
    pub fn register_viewer(&mut self, viewer_session_id: String, client: ConnId)
        ensures
            final(self).viewers() == old(self).viewers().insert(
                viewer_session_id@,
                ViewerEntry { viewer_session_id, client },
            ),
            final(self).hosts() == old(self).hosts(),
            final(self).sessions() == old(self).sessions(),
    {
        let key = viewer_session_id.clone();
        viewers_insert(&mut self.viewers, key, ViewerEntry { viewer_session_id, client });
    }

    /// The entry of a host, if registered.
    pub fn get_host(&self, host_id: &str) -> (r: Option<HostEntry>)
        ensures
            r == (if self.hosts().contains_key(host_id@) {
                Some(self.hosts()[host_id@])
            } else {
                None
            }),
    {
        hosts_get(&self.hosts, host_id)
    }

    /// The connection of a host, if registered.
    pub fn get_host_tx(&self, host_id: &str) -> (r: Option<ConnId>)
        ensures
            r == (if self.hosts().contains_key(host_id@) {
                Some(self.hosts()[host_id@].client)
            } else {
                None
            }),
    {
        match hosts_get(&self.hosts, host_id) {
            Some(h) => Some(h.client),
            None => None,
        }
    }

    /// The connection of a viewer, if registered.
    pub fn get_viewer_tx(&self, viewer_session_id: &str) -> (r: Option<ConnId>)
        ensures
            r == (if self.viewers().contains_key(viewer_session_id@) {
                Some(self.viewers()[viewer_session_id@].client)
            } else {
                None
            }),
    {
        match viewers_get(&self.viewers, viewer_session_id) {
            Some(v) => Some(v.client),
            None => None,
        }
    }

    /// Forgets a host.
    pub fn remove_host(&mut self, host_id: &str)
        ensures
            final(self).hosts() == old(self).hosts().remove(host_id@),
            final(self).viewers() == old(self).viewers(),
            final(self).sessions() == old(self).sessions(),
    {
        hosts_remove(&mut self.hosts, host_id);
    }

    /// Forgets a viewer and every session it took part in.
    pub fn remove_viewer(&mut self, viewer_session_id: &str)
        ensures
            final(self).viewers() == old(self).viewers().remove(viewer_session_id@),
            final(self).sessions() == sessions_without_viewer(
                old(self).sessions(),
                viewer_session_id@,
            ),
            final(self).hosts() == old(self).hosts(),
    {
        viewers_remove(&mut self.viewers, viewer_session_id);
        sessions_drop_viewer(&mut self.sessions, viewer_session_id);
    }

    /// Pairs a host and a viewer under a fresh random token (the text of a
    /// random UUID), which is returned.
    pub fn create_session(&mut self, host_id: String, viewer_session_id: String) -> (token:
        SessionToken)
        ensures
            is_uuid_v4_text(token@),
            final(self).sessions() == old(self).sessions().insert(
                token@,
                ActiveSession { host_id, viewer_session_id, session_token: token },
            ),
            final(self).hosts() == old(self).hosts(),
            final(self).viewers() == old(self).viewers(),
    {
        let token = random_uuid();
        self.create_session_with_token(host_id, viewer_session_id, token)
    }

    /// Pairs a host and a viewer under the given token, which is returned.
    pub fn create_session_with_token(
        &mut self,
        host_id: String,
        viewer_session_id: String,
        token: SessionToken,
    ) -> (r: SessionToken)
        ensures
            r == token,
            final(self).sessions() == old(self).sessions().insert(
                token@,
                ActiveSession { host_id, viewer_session_id, session_token: token },
            ),
            final(self).hosts() == old(self).hosts(),
            final(self).viewers() == old(self).viewers(),
    {
        let key = token.clone();
        let r = token.clone();
        sessions_insert(
            &mut self.sessions,
            key,
            ActiveSession { host_id, viewer_session_id, session_token: token },
        );
        r
    }

    /// The connection of the other party of a session: the viewer's when the
    /// sender is the host, the host's otherwise.
    pub fn get_session_peer_tx(&self, session_token: &str, sender_is_host: bool) -> (r: Option<
        ConnId,
    >)
        ensures
            r == peer_of(self.hosts(), self.viewers(), self.sessions(), session_token@, sender_is_host),
    {
        match sessions_get(&self.sessions, session_token) {
            None => None,
            Some(session) => {
                if sender_is_host {
                    self.get_viewer_tx(session.viewer_session_id.as_str())
                } else {
                    self.get_host_tx(session.host_id.as_str())
                }
            },
        }
    }

    /// Whether connection requests to the host are refused at time `now`.
    pub fn check_rate_limit_at(&self, host_id: &str, now: u64) -> (blocked: bool)
        ensures
            blocked == (self.hosts().contains_key(host_id@) && is_blocked(
                self.hosts()[host_id@],
                now,
            )),
    {
        match hosts_get(&self.hosts, host_id) {
            Some(h) => match h.blocked_until {
                Some(t) => now < t,
                None => false,
            },
            None => false,
        }
    }

    /// Whether connection requests to the host are refused now: the answer
    /// of `check_rate_limit_at` for the clock reading taken. Only a
    /// registered host with a block deadline can be refused; which way a
    /// blocked host goes depends on the clock alone.
    pub fn check_rate_limit(&self, host_id: &str) -> (blocked: bool)
        ensures
            exists|now: u64| blocked == #[trigger] refused_at(self.hosts(), host_id@, now),
            exists|now: u64|
                self.clock_floor() <= now <= CLOCK_CAP && blocked == #[trigger] refused_at(
                    self.hosts(),
                    host_id@,
                    now,
                ),
            blocked ==> self.hosts().contains_key(host_id@)
                && self.hosts()[host_id@].blocked_until is Some,
    {
        let now = self.clock_ms();
        let blocked = self.check_rate_limit_at(host_id, now);
        assert(blocked == refused_at(self.hosts(), host_id@, now));
        blocked
    }

    /// Counts a failed password attempt against a registered host at time
    /// `now`; the fifth in a row blocks it for ten minutes.
    pub fn record_failed_attempt_at(&mut self, host_id: &str, now: u64)
        ensures
            final(self).hosts() == (if old(self).hosts().contains_key(host_id@) {
                old(self).hosts().insert(host_id@, after_failure(old(self).hosts()[host_id@], now))
            } else {
                old(self).hosts()
            }),
            final(self).viewers() == old(self).viewers(),
            final(self).sessions() == old(self).sessions(),
    {
        match hosts_get(&self.hosts, host_id) {
            Some(h) => {
                let count: u64 = h.failed_attempts as u64 + 1;
                let updated = if count >= MAX_FAILED_ATTEMPTS as u64 {
                    let until = now.saturating_add(BLOCK_MS);
                    HostEntry { failed_attempts: 0, blocked_until: Some(until), ..h }
                } else {
                    HostEntry { failed_attempts: count as u32, ..h }
                };
                hosts_insert(&mut self.hosts, host_id.to_string(), updated);
            },
            None => {},
        }
    }

    /// Counts a failed password attempt against a registered host now.
    pub fn record_failed_attempt(&mut self, host_id: &str)
        ensures
            exists|now: u64|
                final(self).hosts() == (if old(self).hosts().contains_key(host_id@) {
                    old(self).hosts().insert(host_id@, after_failure(old(self).hosts()[host_id@], now))
                } else {
                    old(self).hosts()
                }),
            exists|now: u64|
                old(self).clock_floor() <= now <= CLOCK_CAP && final(self).hosts() == (if old(
                    self,
                ).hosts().contains_key(host_id@) {
                    old(self).hosts().insert(host_id@, #[trigger] after_failure(old(self).hosts()[host_id@], now))
                } else {
                    old(self).hosts()
                }),
            final(self).viewers() == old(self).viewers(),
            final(self).sessions() == old(self).sessions(),
    {
        let now = self.clock_ms();
        self.record_failed_attempt_at(host_id, now);
        proof {
            let h = old(self).hosts()[host_id@];
            let _ = after_failure(h, now);
        }
    }

    /// Clears the failed attempts and the block of a registered host.
    pub fn reset_failed_attempts(&mut self, host_id: &str)
        ensures
            final(self).hosts() == (if old(self).hosts().contains_key(host_id@) {
                old(self).hosts().insert(host_id@, after_success(old(self).hosts()[host_id@]))
            } else {
                old(self).hosts()
            }),
            final(self).viewers() == old(self).viewers(),
            final(self).sessions() == old(self).sessions(),
    {
        match hosts_get(&self.hosts, host_id) {
            Some(h) => {
                let updated = HostEntry { failed_attempts: 0, blocked_until: None, ..h };
                hosts_insert(&mut self.hosts, host_id.to_string(), updated);
            },
            None => {},
        }
    }
}

/// The connection of the other party of the session `token`, if the session
/// and that party are both known.
pub open spec fn peer_of(
    hosts: Map<Seq<char>, HostEntry>,
    viewers: Map<Seq<char>, ViewerEntry>,
    sessions: Map<Seq<char>, ActiveSession>,
    token: Seq<char>,
    sender_is_host: bool,
) -> Option<ConnId> {
    if !sessions.contains_key(token) {
        None
    } else if sender_is_host {
        let v = sessions[token].viewer_session_id@;
        if viewers.contains_key(v) {
            Some(viewers[v].client)
        } else {
            None
        }
    } else {
        let h = sessions[token].host_id@;
        if hosts.contains_key(h) {
            Some(hosts[h].client)
        } else {
            None
        }
    }
}

/// Law: from a host with no failed attempts and no block, four failed
/// attempts leave it unblocked with a count of four; the fifth blocks it for
/// ten minutes from that attempt and starts the count over.
pub proof fn law_fifth_failure_blocks(h: HostEntry, t1: u64, t2: u64, t3: u64, t4: u64, t5: u64)
    requires
        h.failed_attempts == 0,
        h.blocked_until is None,
    ensures
        ({
            let h4 = after_failure(after_failure(after_failure(after_failure(h, t1), t2), t3), t4);
            let h5 = after_failure(h4, t5);
            &&& h4.blocked_until is None
            &&& h4.failed_attempts == 4
            &&& h5.blocked_until == Some(block_deadline(t5))
            &&& h5.failed_attempts == 0
            &&& forall|t: u64| t5 <= t < block_deadline(t5) ==> #[trigger] is_blocked(h5, t)
            &&& forall|t: u64| t >= block_deadline(t5) ==> !#[trigger] is_blocked(h5, t)
        }),
{
}

/// Law: the block lasts ten minutes from the attempt that caused it (unless
/// the clock is within ten minutes of its largest value).
pub proof fn law_block_lasts_ten_minutes(now: u64)
    requires
        now + BLOCK_MS <= u64::MAX,
    ensures
        block_deadline(now) == now + 600_000,
{
}

/// Law: a successful password check clears the count and the block.
pub proof fn law_success_clears_block(h: HostEntry, now: u64)
    ensures
        after_success(h).failed_attempts == 0,
        !is_blocked(after_success(h), now),
        after_success(h).host_id == h.host_id,
        after_success(h).password_hash == h.password_hash,
        after_success(h).client == h.client,
{
}

/// Law: once a viewer is removed, none of the remaining sessions is its,
/// and every session of another viewer is kept as it was.
pub proof fn law_removed_viewer_has_no_sessions(s: Map<Seq<char>, ActiveSession>, viewer: Seq<char>)
    ensures
        forall|k: Seq<char>| #[trigger]
            sessions_without_viewer(s, viewer).contains_key(k) ==> sessions_without_viewer(s, viewer)[k].viewer_session_id@ != viewer,
        forall|k: Seq<char>|
            s.contains_key(k) && s[k].viewer_session_id@ != viewer ==> #[trigger] sessions_without_viewer(s, viewer).contains_key(k)
                && sessions_without_viewer(s, viewer)[k] == s[k],
{
}

/// Law: a host registered on a connection is found at that connection
/// until it registers again or is removed.
pub proof fn law_registered_host_is_reachable(
    hosts: Map<Seq<char>, HostEntry>,
    host_id: String,
    password_hash: String,
    client: ConnId,
)
    ensures
        hosts.insert(host_id@, fresh_host(host_id, password_hash, client))[host_id@].client == client,
        !is_blocked(hosts.insert(host_id@, fresh_host(host_id, password_hash, client))[host_id@], 0),
{
}

} // verus!
