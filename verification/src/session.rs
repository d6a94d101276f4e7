use vstd::prelude::*;
use crate::codec::RpcMethod;
use crate::codec::RpcOutcome;
use crate::codec::InboundMessage;
use crate::codec::spec_decode_text;
use crate::codec::decode_line;
use crate::codec::spec_request_line;
use crate::fanout::PointsPayload;
use crate::json::JsonValue;
use crate::points::PointState;
use crate::router::SuperchatEventData;
use crate::router::spec_superchat;
use crate::router::parse_superchat;
use crate::router::spec_init_authenticated;
use crate::router::parse_init_authenticated;
use crate::router::spec_count;
use crate::router::parse_count;
use crate::router::spec_live_info;
use crate::router::parse_live_info;
use crate::rpc::Correlator;
use crate::rpc::PendingCall;
use crate::rpc::DEFAULT_CALL_TIMEOUT;
use crate::store::MetricsStore;
use crate::store::after_tip;
use crate::store::after_poll;
use crate::store::after_reset;
use crate::store::store_fits;
use crate::store::tip_fits;
use crate::store::session_start_metrics;
use crate::video::extract_video_id;
use crate::video::spec_extract;
use crate::config::PointsConfig;

verus! {

broadcast use vstd::string::group_string_axioms;

// ------------------------------------------------------------------------
// Errors and effects
// ------------------------------------------------------------------------

/// The session-level error taxonomy.
#[derive(Clone, Copy, Debug, PartialEq, Eq, Structural)]
pub enum SessionError {
    /// A session is already running.
    AlreadyActive,
    /// No session is running.
    NotActive,
    /// A malformed video reference, or the video is not a live stream.
    InvalidInput,
    /// The worker could not be spawned, replied with an error during
    /// startup, or sent a reply the protocol does not know.
    WorkerUnavailable,
    /// A call's deadline passed without a reply.
    Timeout,
    /// The worker process went away while calls were in flight.
    WorkerGone,
}

impl SessionError {
    pub open spec fn spec_message(self) -> Seq<char> {
        match self {
            SessionError::AlreadyActive => "Already monitoring"@,
            SessionError::NotActive => "Not monitoring"@,
            SessionError::InvalidInput => "Invalid YouTube URL or video ID"@,
            SessionError::WorkerUnavailable => "Sidecar not running"@,
            SessionError::Timeout => "Request timeout"@,
            SessionError::WorkerGone => "Response channel closed"@,
        }
    }

    /// A human-readable description of the error.
    pub fn message(&self) -> (r: &str)
        ensures
            r@ == self.spec_message(),
    {
        match self {
            SessionError::AlreadyActive => "Already monitoring",
            SessionError::NotActive => "Not monitoring",
            SessionError::InvalidInput => "Invalid YouTube URL or video ID",
            SessionError::WorkerUnavailable => "Sidecar not running",
            SessionError::Timeout => "Request timeout",
            SessionError::WorkerGone => "Response channel closed",
        }
    }
}

/// What the controller asks its surroundings to do.  The library decides;
/// the caller performs.
#[derive(Debug, PartialEq)]
pub enum Effect {
    /// Write this line (plus a newline) to the worker's standard input.
    Send(String),
    /// Fan this snapshot out to every consumer.
    Publish(PointsPayload),
    /// Surface a tip event to the embedded UI layer.
    Tip(SuperchatEventData),
    /// Terminate the worker process.
    KillWorker,
    /// The session reached its running state.
    SessionStarted,
    /// Starting failed, or the session was torn down, for this reason.
    SessionFailed(SessionError),
}

/// Whether `e` sends exactly this line.
pub open spec fn is_send(e: Effect, line: Seq<char>) -> bool {
    e matches Effect::Send(s) && s@ == line
}

// ------------------------------------------------------------------------
// Phases
// ------------------------------------------------------------------------

/// Which startup reply the controller is waiting for.
#[derive(Clone, Copy, Debug, PartialEq, Eq, Structural)]
pub enum StartStep {
    AwaitCookies,
    AwaitInit,
    AwaitLiveInfo,
    AwaitExactCount,
    AwaitFallbackCount,
    AwaitChatStart,
}

/// Where a poll round stands.  A round that has fetched live info stashes
/// the viewer and like counts while the subscriber count is fetched.
#[derive(Clone, Copy, Debug, PartialEq, Eq, Structural)]
pub enum PollStep {
    Rest,
    AwaitLiveInfo,
    AwaitCount { viewers: i64, likes: i64 },
    AwaitFallback { viewers: i64, likes: i64 },
}

/// The session lifecycle.
#[derive(Clone, Copy, Debug, PartialEq, Eq, Structural)]
pub enum Phase {
    /// No session.
    Idle,
    /// A start was accepted; the worker process is being spawned.
    Spawning,
    /// The startup conversation with the worker is under way.
    Starting(StartStep),
    /// The session is running; polling proceeds in rounds.
    Active(PollStep),
    /// A stop was accepted; the graceful shutdown call is in flight.
    Stopping,
}

// ------------------------------------------------------------------------
// The controller
// ------------------------------------------------------------------------

/// The session controller: one monitoring session's state machine.  It
/// owns the metrics store and the request correlator; every inbound line,
/// timeout, tick and user call is a step of the machine, and each step
/// returns the effects the caller must perform.
pub struct Session {
    phase: Phase,
    authenticated: bool,
    video_id: Option<String>,
    channel_id: Option<String>,
    start_viewers: i64,
    start_likes: i64,
    store: MetricsStore,
    correlator: Correlator,
}

impl Session {
    pub closed spec fn phase(self) -> Phase {
        self.phase
    }

    pub closed spec fn authenticated(self) -> bool {
        self.authenticated
    }

    pub closed spec fn video_id_val(self) -> Option<String> {
        self.video_id
    }

    pub open spec fn video_id_view(self) -> Option<Seq<char>> {
        match self.video_id_val() {
            Some(s) => Some(s@),
            None => None,
        }
    }

    pub closed spec fn channel_id_val(self) -> Option<String> {
        self.channel_id
    }

    pub open spec fn channel_id_view(self) -> Option<Seq<char>> {
        match self.channel_id_val() {
            Some(s) => Some(s@),
            None => None,
        }
    }

    pub closed spec fn start_viewers(self) -> i64 {
        self.start_viewers
    }

    pub closed spec fn start_likes(self) -> i64 {
        self.start_likes
    }

    pub closed spec fn store(self) -> MetricsStore {
        self.store
    }

    pub closed spec fn correlator(self) -> Correlator {
        self.correlator
    }

    /// Phases whose steps read the channel identifier.
    pub open spec fn phase_needs_channel(p: Phase) -> bool {
        match p {
            Phase::Starting(StartStep::AwaitExactCount) => true,
            Phase::Starting(StartStep::AwaitFallbackCount) => true,
            Phase::Starting(StartStep::AwaitChatStart) => true,
            Phase::Active(_) => true,
            _ => false,
        }
    }

    /// Phases whose steps read the video identifier.
    pub open spec fn phase_needs_video(p: Phase) -> bool {
        !(p is Idle)
    }

    pub open spec fn wf(self) -> bool {
        &&& self.store().wf()
        &&& self.correlator().wf()
        &&& Self::phase_needs_video(self.phase()) ==> self.video_id_val() is Some
        &&& Self::phase_needs_channel(self.phase()) ==> self.channel_id_val() is Some
    }

    /// The store's current snapshot.
    pub open spec fn snapshot_view(self) -> PointsPayload {
        PointsPayload { points: self.store().points(), metrics: self.store().metrics() }
    }

    pub fn new(config: PointsConfig) -> (r: Session)
        requires
            config.valid(),
        ensures
            r.wf(),
            r.phase() is Idle,
            r.authenticated() == false,
            r.store().config() == config,
            r.store().points() == PointState::zero(),
            r.correlator().pending().len() == 0,
            r.correlator().next_id() == 0,
    {
        Session {
            phase: Phase::Idle,
            authenticated: false,
            video_id: None,
            channel_id: None,
            start_viewers: 0,
            start_likes: 0,
            store: MetricsStore::new(config),
            correlator: Correlator::new(),
        }
    }

    /// Whether the machine can issue another call at `now`: the request
    /// identifier space and the deadline arithmetic have room.  Callers
    /// test this before handing the controller an event that may issue a
    /// call.
    pub fn can_issue(&self, now: u64) -> (r: bool)
        ensures
            r == (self.correlator().next_id() < u64::MAX && now + DEFAULT_CALL_TIMEOUT
                <= u64::MAX),
    {
        self.correlator.last_issued_id() < u64::MAX && now <= u64::MAX - DEFAULT_CALL_TIMEOUT
    }

    /// Whether a session is running.
    pub fn is_active(&self) -> (r: bool)
        ensures
            r == (self.phase() is Active),
    {
        match self.phase {
            Phase::Active(_) => true,
            _ => false,
        }
    }

    // --------------------------------------------------------------------
    // User calls
    // --------------------------------------------------------------------

    /// Accepts a start request: only one session may run at a time, and
    /// the video reference must resolve.  On success the caller spawns
    /// the worker and reports back with `worker_spawned` or
    /// `spawn_failed`.
    pub fn start(&mut self, input: &str) -> (r: Result<(), SessionError>)
        requires
            old(self).wf(),
        ensures
            final(self).wf(),
            final(self).store() == old(self).store(),
            final(self).correlator() == old(self).correlator(),
            r is Ok <==> (old(self).phase() is Idle && spec_extract(input@) is Some),
            match r {
                Ok(_) => {
                    &&& final(self).phase() is Spawning
                    &&& final(self).video_id_view() == spec_extract(input@)
                    &&& final(self).authenticated() == false
                },
                Err(e) => {
                    &&& *final(self) == *old(self)
                    &&& (if old(self).phase() is Idle {
                        e == SessionError::InvalidInput
                    } else {
                        e == SessionError::AlreadyActive
                    })
                },
            },
    {
        match self.phase {
            Phase::Idle => {},
            _ => {
                return Err(SessionError::AlreadyActive);
            },
        }
        match extract_video_id(input) {
            Ok(id) => {
                self.video_id = Some(id);
                self.channel_id = None;
                self.authenticated = false;
                self.phase = Phase::Spawning;
                Ok(())
            },
            Err(_) => Err(SessionError::InvalidInput),
        }
    }

    /// The worker could not be spawned: the start is abandoned.
    pub fn spawn_failed(&mut self) -> (r: SessionError)
        requires
            old(self).wf(),
            old(self).phase() is Spawning,
        ensures
            final(self).wf(),
            final(self).phase() is Idle,
            final(self).store() == old(self).store(),
            final(self).correlator() == old(self).correlator(),
            r == SessionError::WorkerUnavailable,
    {
        self.phase = Phase::Idle;
        SessionError::WorkerUnavailable
    }

    /// The worker is up: the startup conversation begins.  With a cookie
    /// header at hand the controller sends it first; otherwise it goes
    /// straight to `init`.
    pub fn worker_spawned(&mut self, cookies: Option<String>, now: u64) -> (r: Vec<Effect>)
        requires
            old(self).wf(),
            old(self).phase() is Spawning,
            old(self).correlator().next_id() < u64::MAX,
            now + DEFAULT_CALL_TIMEOUT <= u64::MAX,
        ensures
            final(self).wf(),
            same_data(*old(self), *final(self)),
            issued_call(*old(self), *final(self), now),
            r@.len() == 1,
            match cookies {
                Some(c) => {
                    &&& final(self).phase() == Phase::Starting(StartStep::AwaitCookies)
                    &&& (final(self).correlator().pending().last().method
                        matches RpcMethod::SetCookies(s2) && s2 == c)
                    &&& is_send(
                        r@[0],
                        spec_request_line(
                            (old(self).correlator().next_id() + 1) as nat,
                            RpcMethod::SetCookies(c),
                        ),
                    )
                },
                None => {
                    &&& final(self).phase() == Phase::Starting(StartStep::AwaitInit)
                    &&& final(self).correlator().pending().last().method == RpcMethod::Init
                    &&& is_send(
                        r@[0],
                        spec_request_line(
                            (old(self).correlator().next_id() + 1) as nat,
                            RpcMethod::Init,
                        ),
                    )
                },
            },
    {
        let mut effects: Vec<Effect> = Vec::new();
        match cookies {
            Some(c) => {
                let (_, line) = self.correlator.begin_call(
                    RpcMethod::SetCookies(c),
                    now,
                    DEFAULT_CALL_TIMEOUT,
                );
                effects.push(Effect::Send(line));
                self.phase = Phase::Starting(StartStep::AwaitCookies);
            },
            None => {
                let (_, line) = self.correlator.begin_call(
                    RpcMethod::Init,
                    now,
                    DEFAULT_CALL_TIMEOUT,
                );
                effects.push(Effect::Send(line));
                self.phase = Phase::Starting(StartStep::AwaitInit);
            },
        }
        effects
    }

    /// Adds manual points and publishes the new snapshot; an amount that
    /// would overflow the 64-bit totals is rejected.
    pub fn add_manual_points(&mut self, amount: i64) -> (r: Result<Vec<Effect>, SessionError>)
        requires
            old(self).wf(),
        ensures
            final(self).wf(),
            final(self).phase() == old(self).phase(),
            final(self).correlator() == old(self).correlator(),
            r is Ok <==> (i64::MIN <= old(self).store().points().manual + amount <= i64::MAX
                && i64::MIN <= old(self).store().points().total + amount <= i64::MAX),
            match r {
                Ok(effects) => {
                    &&& final(self).store().metrics() == old(self).store().metrics()
                    &&& final(self).store().points() == old(self).store().points().spec_add_manual(
                        amount as int,
                    )
                    &&& effects@.len() == 1
                    &&& effects@[0] == Effect::Publish(final(self).snapshot_view())
                },
                Err(e) => {
                    &&& *final(self) == *old(self)
                    &&& e == SessionError::InvalidInput
                },
            },
    {
        let manual_ok = self.store.manual_points().checked_add(amount).is_some();
        let total_ok = self.store.total_points().checked_add(amount).is_some();
        if manual_ok && total_ok {
            self.store.add_manual(amount);
            let snap = self.store.snapshot();
            let mut effects: Vec<Effect> = Vec::new();
            effects.push(Effect::Publish(snap));
            Ok(effects)
        } else {
            Err(SessionError::InvalidInput)
        }
    }

    /// Resets the points: zeroes the counters while keeping the session's
    /// subscriber baseline, clears the manual component, and publishes
    /// the zeroed snapshot.
    pub fn reset_points(&mut self) -> (r: Vec<Effect>)
        requires
            old(self).wf(),
        ensures
            final(self).wf(),
            final(self).phase() == old(self).phase(),
            final(self).correlator() == old(self).correlator(),
            final(self).store().metrics() == after_reset(old(self).store().metrics(), true),
            final(self).store().points() == PointState::zero(),
            r@.len() == 1,
            r@[0] == Effect::Publish(final(self).snapshot_view()),
    {
        self.store.reset(true);
        let snap = self.store.snapshot();
        let mut effects: Vec<Effect> = Vec::new();
        effects.push(Effect::Publish(snap));
        effects
    }

    /// The current paired counters and breakdown.
    pub fn get_current_state(&self) -> (r: PointsPayload)
        ensures
            r == self.snapshot_view(),
    {
        self.store.snapshot()
    }

    /// Accepts a stop request: the controller asks the worker to stop the
    /// live chat first; the forced termination follows when that call
    /// resolves, times out, or the worker dies.  Stopping an idle session
    /// is an error.
    pub fn stop(&mut self, now: u64) -> (r: Result<Vec<Effect>, SessionError>)
        requires
            old(self).wf(),
            old(self).correlator().next_id() < u64::MAX,
            now + DEFAULT_CALL_TIMEOUT <= u64::MAX,
        ensures
            final(self).wf(),
            final(self).store() == old(self).store(),
            r is Ok <==> (old(self).phase() is Starting || old(self).phase() is Active),
            match r {
                Ok(effects) => {
                    &&& final(self).phase() is Stopping
                    &&& same_data(*old(self), *final(self))
                    &&& issued_call(*old(self), *final(self), now)
                    &&& final(self).correlator().pending().last().method == RpcMethod::StopLiveChat
                    &&& effects@.len() == 1
                    &&& is_send(
                        effects@[0],
                        spec_request_line(
                            (old(self).correlator().next_id() + 1) as nat,
                            RpcMethod::StopLiveChat,
                        ),
                    )
                },
                Err(e) => {
                    &&& *final(self) == *old(self)
                    &&& e == SessionError::NotActive
                },
            },
    {
        let in_session = match self.phase {
            Phase::Starting(_) => true,
            Phase::Active(_) => true,
            _ => false,
        };
        if !in_session {
            return Err(SessionError::NotActive);
        }
        let (_, line) = self.correlator.begin_call(
            RpcMethod::StopLiveChat,
            now,
            DEFAULT_CALL_TIMEOUT,
        );
        self.phase = Phase::Stopping;
        let mut effects: Vec<Effect> = Vec::new();
        effects.push(Effect::Send(line));
        Ok(effects)
    }

    /// One tick of the polling loop.  In a resting active session it asks
    /// the worker for fresh live info; during any other phase, or while a
    /// poll round is still under way, the tick does nothing.
    pub fn poll_tick(&mut self, now: u64) -> (r: Vec<Effect>)
        requires
            old(self).wf(),
            old(self).correlator().next_id() < u64::MAX,
            now + DEFAULT_CALL_TIMEOUT <= u64::MAX,
        ensures
            final(self).wf(),
            final(self).store() == old(self).store(),
            if old(self).phase() == Phase::Active(PollStep::Rest) {
                &&& final(self).phase() == Phase::Active(PollStep::AwaitLiveInfo)
                &&& same_data(*old(self), *final(self))
                &&& issued_call(*old(self), *final(self), now)
                &&& (final(self).correlator().pending().last().method
                    matches RpcMethod::GetLiveInfo(v) && Some(v@) == old(self).video_id_view())
                &&& r@.len() == 1
                &&& exists|m: RpcMethod|
                    (#[trigger] is_send(
                        r@[0],
                        spec_request_line((old(self).correlator().next_id() + 1) as nat, m),
                    )) && (m matches RpcMethod::GetLiveInfo(v) && Some(v@) == old(
                        self,
                    ).video_id_view())
            } else {
                *final(self) == *old(self) && r@.len() == 0
            },
    {
        let resting = match self.phase {
            Phase::Active(PollStep::Rest) => true,
            _ => false,
        };
        if !resting {
            return Vec::new();
        }
        let vid = match &self.video_id {
            Some(v) => v.clone(),
            None => {
                proof {
                    assert(false);
                }
                String::new()
            },
        };
        let method = RpcMethod::GetLiveInfo(vid);
        let (_, line) = self.correlator.begin_call(method, now, DEFAULT_CALL_TIMEOUT);
        self.phase = Phase::Active(PollStep::AwaitLiveInfo);
        let mut effects: Vec<Effect> = Vec::new();
        effects.push(Effect::Send(line));
        proof {
            let m = self.correlator().pending().last().method;
            assert(is_send(effects@[0], spec_request_line(
                (old(self).correlator().next_id() + 1) as nat,
                m,
            )));
        }
        effects
    }

    /// The worker process terminated.  Every in-flight call fails at
    /// once; a session that was starting or running is torn down.
    pub fn worker_gone(&mut self) -> (r: Vec<Effect>)
        requires
            old(self).wf(),
        ensures
            final(self).wf(),
            final(self).store() == old(self).store(),
            final(self).correlator().pending().len() == 0,
            final(self).correlator().next_id() == old(self).correlator().next_id(),
            final(self).phase() is Idle,
            if old(self).phase() is Idle {
                r@.len() == 0
            } else {
                r@.len() == 1 && r@[0] == Effect::SessionFailed(SessionError::WorkerGone)
            },
    {
        let _failed = self.correlator.fail_all();
        let was_idle = match self.phase {
            Phase::Idle => true,
            _ => false,
        };
        self.phase = Phase::Idle;
        let mut effects: Vec<Effect> = Vec::new();
        if !was_idle {
            effects.push(Effect::SessionFailed(SessionError::WorkerGone));
        }
        effects
    }

    // --------------------------------------------------------------------
    // Inbound lines and timeouts
    // --------------------------------------------------------------------

    fn video_id_clone(&self) -> (r: String)
        requires
            self.video_id_val() is Some,
        ensures
            Some(r@) == self.video_id_view(),
    {
        match &self.video_id {
            Some(v) => v.clone(),
            None => {
                proof {
                    assert(false);
                }
                String::new()
            },
        }
    }

    fn channel_id_clone(&self) -> (r: String)
        requires
            self.channel_id_val() is Some,
        ensures
            Some(r@) == self.channel_id_view(),
    {
        match &self.channel_id {
            Some(v) => v.clone(),
            None => {
                proof {
                    assert(false);
                }
                String::new()
            },
        }
    }

    /// Issues one call: registers it with the correlator and returns the
    /// effect that sends its line.
    fn issue_call(&mut self, m: RpcMethod, now: u64) -> (e: Effect)
        requires
            old(self).correlator().wf(),
            old(self).correlator().next_id() < u64::MAX,
            now + DEFAULT_CALL_TIMEOUT <= u64::MAX,
        ensures
            final(self).correlator().wf(),
            same_data(*old(self), *final(self)),
            final(self).phase() == old(self).phase(),
            final(self).correlator().next_id() == old(self).correlator().next_id() + 1,
            final(self).correlator().pending() == old(self).correlator().pending().push(
                PendingCall {
                    id: (old(self).correlator().next_id() + 1) as u64,
                    method: m,
                    deadline: (now + DEFAULT_CALL_TIMEOUT) as u64,
                },
            ),
            final(self).correlator().pending().last() == (PendingCall {
                id: (old(self).correlator().next_id() + 1) as u64,
                method: m,
                deadline: (now + DEFAULT_CALL_TIMEOUT) as u64,
            }),
            is_send(e, spec_request_line((old(self).correlator().next_id() + 1) as nat, m)),
    {
        let (_, line) = self.correlator.begin_call(m, now, DEFAULT_CALL_TIMEOUT);
        Effect::Send(line)
    }

    /// Abandons a start: back to idle, report the reason, terminate the
    /// worker.
    fn fail_start(&mut self, e: SessionError) -> (r: Vec<Effect>)
        ensures
            same_data(*old(self), *final(self)),
            final(self).correlator() == old(self).correlator(),
            final(self).phase() is Idle,
            r@.len() == 2,
            r@[0] == Effect::SessionFailed(e),
            r@[1] == Effect::KillWorker,
    {
        self.phase = Phase::Idle;
        let mut v: Vec<Effect> = Vec::new();
        v.push(Effect::SessionFailed(e));
        v.push(Effect::KillWorker);
        v
    }

    /// Initializes the session counters with the fetched baseline and
    /// asks the worker to start the live chat; counters that would not
    /// fit 64-bit arithmetic abandon the start.
    fn start_counters(&mut self, count: i64, now: u64) -> (r: Vec<Effect>)
        requires
            old(self).wf(),
            old(self).video_id_val() is Some,
            old(self).channel_id_val() is Some,
            old(self).correlator().next_id() < u64::MAX,
            now + DEFAULT_CALL_TIMEOUT <= u64::MAX,
        ensures
            final(self).wf(),
            if store_fits(
                session_start_metrics(old(self).start_viewers(), old(self).start_likes(), count),
                old(self).store().config(),
                old(self).store().points().manual as int,
            ) {
                &&& final(self).store().config() == old(self).store().config()
                &&& final(self).store().metrics() == session_start_metrics(
                    old(self).start_viewers(),
                    old(self).start_likes(),
                    count,
                )
                &&& final(self).store().points().manual == old(self).store().points().manual
                &&& final(self).authenticated() == old(self).authenticated()
                &&& final(self).video_id_val() == old(self).video_id_val()
                &&& final(self).channel_id_val() == old(self).channel_id_val()
                &&& final(self).start_viewers() == old(self).start_viewers()
                &&& final(self).start_likes() == old(self).start_likes()
                &&& final(self).phase() == Phase::Starting(StartStep::AwaitChatStart)
                &&& final(self).correlator().next_id() == old(self).correlator().next_id() + 1
                &&& final(self).correlator().pending() == old(self).correlator().pending().push(
                    final(self).correlator().pending().last(),
                )
                &&& final(self).correlator().pending().last().id == old(
                    self,
                ).correlator().next_id() + 1
                &&& final(self).correlator().pending().last().deadline == now
                    + DEFAULT_CALL_TIMEOUT
                &&& (final(self).correlator().pending().last().method
                    matches RpcMethod::StartLiveChat(v) && Some(v@) == old(self).video_id_view())
                &&& r@.len() == 1
                &&& sent_for_last(*final(self), old(self).correlator().next_id(), r@[0])
            } else {
                &&& same_data(*old(self), *final(self))
                &&& final(self).correlator() == old(self).correlator()
                &&& final(self).phase() is Idle
                &&& r@.len() == 2
                &&& r@[0] == Effect::SessionFailed(SessionError::WorkerUnavailable)
                &&& r@[1] == Effect::KillWorker
            },
    {
        let sv = self.start_viewers;
        let sl = self.start_likes;
        if self.store.can_begin_session(sv, sl, count) {
            self.store.begin_session(sv, sl, count);
            let vid = self.video_id_clone();
            let e = self.issue_call(RpcMethod::StartLiveChat(vid), now);
            self.phase = Phase::Starting(StartStep::AwaitChatStart);
            let mut v: Vec<Effect> = Vec::new();
            v.push(e);
            v
        } else {
            self.fail_start(SessionError::WorkerUnavailable)
        }
    }

    /// Finishes a poll round: applies the polled counters and publishes,
    /// or abandons the round where they would not fit.
    fn finish_poll(&mut self, viewers: i64, likes: i64, count: i64) -> (r: Vec<Effect>)
        requires
            old(self).wf(),
            old(self).phase() is Active,
        ensures
            final(self).wf(),
            final(self).correlator() == old(self).correlator(),
            final(self).authenticated() == old(self).authenticated(),
            final(self).video_id_val() == old(self).video_id_val(),
            final(self).channel_id_val() == old(self).channel_id_val(),
            final(self).start_viewers() == old(self).start_viewers(),
            final(self).start_likes() == old(self).start_likes(),
            final(self).phase() == Phase::Active(PollStep::Rest),
            if store_fits(
                after_poll(old(self).store().metrics(), viewers, likes, count),
                old(self).store().config(),
                old(self).store().points().manual as int,
            ) {
                &&& final(self).store().config() == old(self).store().config()
                &&& final(self).store().metrics() == after_poll(
                    old(self).store().metrics(),
                    viewers,
                    likes,
                    count,
                )
                &&& final(self).store().points().manual == old(self).store().points().manual
                &&& r@.len() == 1
                &&& r@[0] == Effect::Publish(final(self).snapshot_view())
            } else {
                final(self).store() == old(self).store() && r@.len() == 0
            },
    {
        if self.store.can_apply_poll(viewers, likes, count) {
            self.store.apply_poll(viewers, likes, count);
            self.phase = Phase::Active(PollStep::Rest);
            let snap = self.store.snapshot();
            let mut v: Vec<Effect> = Vec::new();
            v.push(Effect::Publish(snap));
            v
        } else {
            self.phase = Phase::Active(PollStep::Rest);
            Vec::new()
        }
    }

    /// Applies the step a resolved call causes.  `pre` and `k` name the
    /// controller before the entry was taken and the entry's index
    /// there.
    fn step_reply(
        &mut self,
        entry: PendingCall,
        pay: Option<JsonValue>,
        fe: SessionError,
        now: u64,
        Ghost(pre): Ghost<Session>,
        Ghost(k): Ghost<int>,
    ) -> (r: Vec<Effect>)
        requires
            old(self).wf(),
            0 <= k < pre.correlator().pending().len(),
            entry == pre.correlator().pending()[k],
            same_data(pre, *old(self)),
            old(self).phase() == pre.phase(),
            old(self).correlator().pending() == pre.correlator().pending().remove(k),
            old(self).correlator().next_id() == pre.correlator().next_id(),
            old(self).correlator().next_id() < u64::MAX,
            now + DEFAULT_CALL_TIMEOUT <= u64::MAX,
        ensures
            final(self).wf(),
            reply_step(pre, k, entry, pay, fe, *final(self), r@, now),
    {
        match entry.method {
            RpcMethod::SetCookies(_) => {
                if self.phase == Phase::Starting(StartStep::AwaitCookies) {
                    let e = self.issue_call(RpcMethod::Init, now);
                    self.phase = Phase::Starting(StartStep::AwaitInit);
                    let mut v: Vec<Effect> = Vec::new();
                    v.push(e);
                    v
                } else {
                    Vec::new()
                }
            },
            RpcMethod::Init => {
                if self.phase == Phase::Starting(StartStep::AwaitInit) {
                    match pay {
                        Some(p) => {
                            let auth = parse_init_authenticated(&p);
                            self.authenticated = auth;
                            let vid = self.video_id_clone();
                            let e = self.issue_call(RpcMethod::GetLiveInfo(vid), now);
                            self.phase = Phase::Starting(StartStep::AwaitLiveInfo);
                            let mut v: Vec<Effect> = Vec::new();
                            v.push(e);
                            v
                        },
                        None => self.fail_start(fe),
                    }
                } else {
                    Vec::new()
                }
            },
            RpcMethod::GetLiveInfo(_) => {
                if self.phase == Phase::Starting(StartStep::AwaitLiveInfo) {
                    match pay {
                        Some(p) => match parse_live_info(p) {
                            Some(info) => {
                                if !info.is_live {
                                    self.fail_start(SessionError::InvalidInput)
                                } else {
                                    let likes = match info.like_count {
                                        Some(x) => x,
                                        None => 0,
                                    };
                                    self.start_viewers = info.concurrent_viewers;
                                    self.start_likes = likes;
                                    if self.authenticated {
                                        self.channel_id = Some(info.channel_id);
                                        let e = self.issue_call(
                                            RpcMethod::GetExactSubscriberCount,
                                            now,
                                        );
                                        self.phase = Phase::Starting(StartStep::AwaitExactCount);
                                        let mut v: Vec<Effect> = Vec::new();
                                        v.push(e);
                                        v
                                    } else {
                                        let chan = info.channel_id;
                                        self.channel_id = Some(chan.clone());
                                        let e = self.issue_call(
                                            RpcMethod::GetSubscriberCount(chan),
                                            now,
                                        );
                                        self.phase = Phase::Starting(
                                            StartStep::AwaitFallbackCount,
                                        );
                                        let mut v: Vec<Effect> = Vec::new();
                                        v.push(e);
                                        v
                                    }
                                }
                            },
                            None => self.fail_start(fe),
                        },
                        None => self.fail_start(fe),
                    }
                } else if self.phase == Phase::Active(PollStep::AwaitLiveInfo) {
                    match pay {
                        Some(p) => match parse_live_info(p) {
                            Some(info) => {
                                let likes = match info.like_count {
                                    Some(x) => x,
                                    None => 0,
                                };
                                if self.authenticated {
                                    let e = self.issue_call(
                                        RpcMethod::GetExactSubscriberCount,
                                        now,
                                    );
                                    self.phase = Phase::Active(
                                        PollStep::AwaitCount {
                                            viewers: info.concurrent_viewers,
                                            likes,
                                        },
                                    );
                                    let mut v: Vec<Effect> = Vec::new();
                                    v.push(e);
                                    v
                                } else {
                                    let chan = self.channel_id_clone();
                                    let e = self.issue_call(
                                        RpcMethod::GetSubscriberCount(chan),
                                        now,
                                    );
                                    self.phase = Phase::Active(
                                        PollStep::AwaitFallback {
                                            viewers: info.concurrent_viewers,
                                            likes,
                                        },
                                    );
                                    let mut v: Vec<Effect> = Vec::new();
                                    v.push(e);
                                    v
                                }
                            },
                            None => {
                                self.phase = Phase::Active(PollStep::Rest);
                                Vec::new()
                            },
                        },
                        None => {
                            self.phase = Phase::Active(PollStep::Rest);
                            Vec::new()
                        },
                    }
                } else {
                    Vec::new()
                }
            },
            RpcMethod::GetExactSubscriberCount => {
                if self.phase == Phase::Starting(StartStep::AwaitExactCount) {
                    let count_opt = match &pay {
                        Some(p) => parse_count(p),
                        None => None,
                    };
                    match count_opt {
                        Some(c) => self.start_counters(c, now),
                        None => {
                            let chan = self.channel_id_clone();
                            let e = self.issue_call(RpcMethod::GetSubscriberCount(chan), now);
                            self.phase = Phase::Starting(StartStep::AwaitFallbackCount);
                            let mut v: Vec<Effect> = Vec::new();
                            v.push(e);
                            v
                        },
                    }
                } else {
                    let args = match self.phase {
                        Phase::Active(PollStep::AwaitCount { viewers, likes }) => Some(
                            (viewers, likes),
                        ),
                        _ => None,
                    };
                    match args {
                        Some((viewers, likes)) => {
                            let count_opt = match &pay {
                                Some(p) => parse_count(p),
                                None => None,
                            };
                            match count_opt {
                                Some(c) => self.finish_poll(viewers, likes, c),
                                None => {
                                    let chan = self.channel_id_clone();
                                    let e = self.issue_call(
                                        RpcMethod::GetSubscriberCount(chan),
                                        now,
                                    );
                                    self.phase = Phase::Active(
                                        PollStep::AwaitFallback { viewers, likes },
                                    );
                                    let mut v: Vec<Effect> = Vec::new();
                                    v.push(e);
                                    v
                                },
                            }
                        },
                        None => Vec::new(),
                    }
                }
            },
            RpcMethod::GetSubscriberCount(_) => {
                if self.phase == Phase::Starting(StartStep::AwaitFallbackCount) {
                    let count_opt = match &pay {
                        Some(p) => parse_count(p),
                        None => None,
                    };
                    match count_opt {
                        Some(c) => self.start_counters(c, now),
                        None => self.fail_start(fe),
                    }
                } else {
                    let args = match self.phase {
                        Phase::Active(PollStep::AwaitFallback { viewers, likes }) => Some(
                            (viewers, likes),
                        ),
                        _ => None,
                    };
                    match args {
                        Some((viewers, likes)) => {
                            let count_opt = match &pay {
                                Some(p) => parse_count(p),
                                None => None,
                            };
                            match count_opt {
                                Some(c) => self.finish_poll(viewers, likes, c),
                                None => {
                                    self.phase = Phase::Active(PollStep::Rest);
                                    Vec::new()
                                },
                            }
                        },
                        None => Vec::new(),
                    }
                }
            },
            RpcMethod::StartLiveChat(_) => {
                if self.phase == Phase::Starting(StartStep::AwaitChatStart) {
                    match pay {
                        Some(_) => {
                            self.phase = Phase::Active(PollStep::Rest);
                            let snap = self.store.snapshot();
                            let mut v: Vec<Effect> = Vec::new();
                            v.push(Effect::SessionStarted);
                            v.push(Effect::Publish(snap));
                            v
                        },
                        None => self.fail_start(fe),
                    }
                } else {
                    Vec::new()
                }
            },
            RpcMethod::StopLiveChat => {
                let stopping = match self.phase {
                    Phase::Stopping => true,
                    _ => false,
                };
                if stopping {
                    self.phase = Phase::Idle;
                    let mut v: Vec<Effect> = Vec::new();
                    v.push(Effect::KillWorker);
                    v
                } else {
                    Vec::new()
                }
            },
        }
    }

    /// Applies the step an unsolicited push event causes: a tip in a
    /// running session feeds the counters; unknown kinds, malformed
    /// payloads and tips outside a running session are dropped.
    fn handle_push(&mut self, kind: String, payload: JsonValue) -> (r: Vec<Effect>)
        requires
            old(self).wf(),
        ensures
            final(self).wf(),
            push_step(*old(self), kind, payload, *final(self), r@),
    {
        if !crate::json::string_eq_str(&kind, "superchat") {
            return Vec::new();
        }
        match parse_superchat(payload) {
            None => Vec::new(),
            Some(ev) => {
                let active = match self.phase {
                    Phase::Active(_) => true,
                    _ => false,
                };
                if !active {
                    return Vec::new();
                }
                if self.store.can_apply_tip(ev.amount) {
                    self.store.apply_tip(ev.amount);
                    let snap = self.store.snapshot();
                    let mut v: Vec<Effect> = Vec::new();
                    v.push(Effect::Tip(ev));
                    v.push(Effect::Publish(snap));
                    v
                } else {
                    Vec::new()
                }
            },
        }
    }

    /// Handles one line from the worker's standard output.  A line that
    /// decodes as a push event is routed by kind; a response resolves
    /// exactly the call that issued its identifier, and a response whose
    /// identifier is no longer in flight — resolved, timed out or never
    /// issued — is a no-op.  A line that decodes as neither is logged by
    /// the caller and skipped.
    pub fn handle_line(&mut self, line: &str, now: u64) -> (r: Vec<Effect>)
        requires
            old(self).wf(),
            old(self).correlator().next_id() < u64::MAX,
            now + DEFAULT_CALL_TIMEOUT <= u64::MAX,
        ensures
            final(self).wf(),
            match spec_decode_text(line@) {
                Result::Err(_) => *final(self) == *old(self) && r@.len() == 0,
                Result::Ok(msg) => match msg {
                    InboundMessage::Push { kind, payload } => push_step(
                        *old(self),
                        kind,
                        payload,
                        *final(self),
                        r@,
                    ),
                    InboundMessage::Response { id, outcome } => if !old(
                        self,
                    ).correlator().has_pending(id) {
                        *final(self) == *old(self) && r@.len() == 0
                    } else {
                        forall|k: int|
                            0 <= k < old(self).correlator().pending().len() && #[trigger] old(
                                self,
                            ).correlator().pending()[k].id == id ==> reply_step(
                                *old(self),
                                k,
                                old(self).correlator().pending()[k],
                                match outcome {
                                    RpcOutcome::Success(p) => Some(p),
                                    RpcOutcome::Failure(_) => None::<JsonValue>,
                                },
                                reply_failure_kind(old(self).correlator().pending()[k].method),
                                *final(self),
                                r@,
                                now,
                            )
                    },
                },
            },
    {
        match decode_line(line) {
            Err(_) => Vec::new(),
            Ok(msg) => match msg {
                InboundMessage::Push { kind, payload } => self.handle_push(kind, payload),
                InboundMessage::Response { id, outcome } => {
                    match self.correlator.take(id) {
                        None => Vec::new(),
                        Some(entry) => {
                            let ghost pre = *old(self);
                            let ghost kk = choose|k: int|
                                0 <= k < pre.correlator().pending().len()
                                    && pre.correlator().pending()[k] == entry
                                    && self.correlator().pending()
                                    == pre.correlator().pending().remove(k);
                            let fe = match &entry.method {
                                RpcMethod::GetLiveInfo(_) => SessionError::InvalidInput,
                                _ => SessionError::WorkerUnavailable,
                            };
                            proof {
                                assert(fe == reply_failure_kind(entry.method));
                            }
                            let pay = match outcome {
                                RpcOutcome::Success(p) => Some(p),
                                RpcOutcome::Failure(_) => None,
                            };
                            let ghost gid = id;
                            let out = self.step_reply(entry, pay, fe, now, Ghost(pre), Ghost(kk));
                            proof {
                                assert forall|k2: int|
                                    0 <= k2 < pre.correlator().pending().len()
                                        && #[trigger] pre.correlator().pending()[k2].id
                                        == gid implies k2 == kk by {
                                    crate::rpc::lemma_one_entry_per_id(pre.correlator(), k2, kk);
                                }
                            }
                            out
                        },
                    }
                },
            },
        }
    }

    /// The identifiers of the in-flight calls whose deadline has passed.
    /// The caller reports each through `call_timed_out`.
    pub fn due_calls(&self, now: u64) -> (r: Vec<u64>)
        ensures
            r@ == crate::rpc::due_of(self.correlator().pending(), now),
    {
        self.correlator.due_ids(now)
    }

    /// A call's deadline passed.  If its entry is still in flight and
    /// due, the entry is removed — a reply arriving later is then a
    /// no-op — and the step fails with a timeout; otherwise nothing
    /// happens.
    pub fn call_timed_out(&mut self, id: u64, now: u64) -> (r: Vec<Effect>)
        requires
            old(self).wf(),
            old(self).correlator().next_id() < u64::MAX,
            now + DEFAULT_CALL_TIMEOUT <= u64::MAX,
        ensures
            final(self).wf(),
            !old(self).correlator().has_pending(id) ==> *final(self) == *old(self) && r@.len()
                == 0,
            forall|k: int|
                0 <= k < old(self).correlator().pending().len() && #[trigger] old(
                    self,
                ).correlator().pending()[k].id == id ==> (if old(
                    self,
                ).correlator().pending()[k].deadline <= now {
                    reply_step(
                        *old(self),
                        k,
                        old(self).correlator().pending()[k],
                        None::<JsonValue>,
                        SessionError::Timeout,
                        *final(self),
                        r@,
                        now,
                    )
                } else {
                    *final(self) == *old(self) && r@.len() == 0
                }),
    {
        match self.correlator.expire(id, now) {
            None => Vec::new(),
            Some(entry) => {
                let ghost pre = *old(self);
                let ghost kk = choose|k: int|
                    0 <= k < pre.correlator().pending().len() && pre.correlator().pending()[k]
                        == entry && self.correlator().pending() == pre.correlator().pending().remove(
                        k,
                    );
                let ghost gid = id;
                let out = self.step_reply(
                    entry,
                    None,
                    SessionError::Timeout,
                    now,
                    Ghost(pre),
                    Ghost(kk),
                );
                proof {
                    assert forall|k2: int|
                        0 <= k2 < pre.correlator().pending().len() && #[trigger] pre.correlator().pending()[k2].id
                            == gid implies k2 == kk by {
                        crate::rpc::lemma_one_entry_per_id(pre.correlator(), k2, kk);
                    }
                }
                out
            },
        }
    }
}


// ------------------------------------------------------------------------
// The transition relation for replies and timeouts
// ------------------------------------------------------------------------

/// The like count a live-info reply contributes: zero where the worker
/// reported none.
pub open spec fn likes_or_zero(l: Option<i64>) -> i64 {
    match l {
        Some(x) => x,
        None => 0,
    }
}

/// Everything but the phase and the correlator is unchanged.
pub open spec fn same_data(a: Session, b: Session) -> bool {
    &&& b.store() == a.store()
    &&& b.authenticated() == a.authenticated()
    &&& b.video_id_val() == a.video_id_val()
    &&& b.channel_id_val() == a.channel_id_val()
    &&& b.start_viewers() == a.start_viewers()
    &&& b.start_likes() == a.start_likes()
}

/// Exactly one call was issued: it got the next identifier and the
/// default deadline, and sits at the end of the in-flight list.
pub open spec fn issued_call(a: Session, b: Session, now: u64) -> bool {
    &&& b.correlator().next_id() == a.correlator().next_id() + 1
    &&& b.correlator().pending() == a.correlator().pending().push(b.correlator().pending().last())
    &&& b.correlator().pending().last().id == a.correlator().next_id() + 1
    &&& b.correlator().pending().last().deadline == now + DEFAULT_CALL_TIMEOUT
}

/// The resolved entry `k` left the correlator and no call was issued.
pub open spec fn corr_took(a: Session, k: int, b: Session) -> bool {
    &&& b.correlator().pending() == a.correlator().pending().remove(k)
    &&& b.correlator().next_id() == a.correlator().next_id()
}

/// The resolved entry `k` left the correlator and exactly one new call
/// was issued: it got the next identifier and the default deadline, and
/// sits at the end of the in-flight list.
pub open spec fn corr_took_issued(a: Session, k: int, b: Session, now: u64) -> bool {
    &&& b.correlator().next_id() == a.correlator().next_id() + 1
    &&& b.correlator().pending() == a.correlator().pending().remove(k).push(
        b.correlator().pending().last(),
    )
    &&& b.correlator().pending().last().id == a.correlator().next_id() + 1
    &&& b.correlator().pending().last().deadline == now + DEFAULT_CALL_TIMEOUT
}

/// `e` sends the line of the call that `b` just issued.
pub open spec fn sent_for_last(b: Session, a_next: u64, e: Effect) -> bool {
    is_send(e, spec_request_line((a_next + 1) as nat, b.correlator().pending().last().method))
}

/// A reply that no step of the current phase expects: the entry is
/// resolved and dropped, nothing else happens.
pub open spec fn reply_ignored(pre: Session, k: int, post: Session, eff: Seq<Effect>) -> bool {
    &&& same_data(pre, post)
    &&& post.phase() == pre.phase()
    &&& corr_took(pre, k, post)
    &&& eff.len() == 0
}

/// Starting failed: the session returns to idle, the caller learns the
/// reason, and the worker is terminated.
pub open spec fn start_failed(
    pre: Session,
    k: int,
    post: Session,
    eff: Seq<Effect>,
    e: SessionError,
) -> bool {
    &&& same_data(pre, post)
    &&& post.phase() is Idle
    &&& corr_took(pre, k, post)
    &&& eff.len() == 2
    &&& eff[0] == Effect::SessionFailed(e)
    &&& eff[1] == Effect::KillWorker
}

/// A poll round was abandoned (a failed poll is logged and the loop goes
/// on): back to rest, nothing published.
pub open spec fn poll_abandoned(pre: Session, k: int, post: Session, eff: Seq<Effect>) -> bool {
    &&& same_data(pre, post)
    &&& post.phase() == Phase::Active(PollStep::Rest)
    &&& corr_took(pre, k, post)
    &&& eff.len() == 0
}

/// The fallback subscriber-count call was issued during startup.
pub open spec fn start_fallback(
    pre: Session,
    k: int,
    post: Session,
    eff: Seq<Effect>,
    now: u64,
) -> bool {
    &&& same_data(pre, post)
    &&& post.phase() == Phase::Starting(StartStep::AwaitFallbackCount)
    &&& corr_took_issued(pre, k, post, now)
    &&& (post.correlator().pending().last().method matches RpcMethod::GetSubscriberCount(c)
        && Some(c@) == pre.channel_id_view())
    &&& eff.len() == 1
    &&& sent_for_last(post, pre.correlator().next_id(), eff[0])
}

/// The fallback subscriber-count call was issued during a poll round.
pub open spec fn poll_fallback(
    pre: Session,
    k: int,
    post: Session,
    eff: Seq<Effect>,
    viewers: i64,
    likes: i64,
    now: u64,
) -> bool {
    &&& same_data(pre, post)
    &&& post.phase() == Phase::Active(PollStep::AwaitFallback { viewers, likes })
    &&& corr_took_issued(pre, k, post, now)
    &&& (post.correlator().pending().last().method matches RpcMethod::GetSubscriberCount(c)
        && Some(c@) == pre.channel_id_view())
    &&& eff.len() == 1
    &&& sent_for_last(post, pre.correlator().next_id(), eff[0])
}

/// The session's counters were initialized with the fetched baseline and
/// the chat-start call was issued — or, where the counters would not fit
/// 64-bit arithmetic, starting failed.
pub open spec fn start_counters_or_fail(
    pre: Session,
    k: int,
    post: Session,
    eff: Seq<Effect>,
    count: i64,
    now: u64,
) -> bool {
    if store_fits(
        session_start_metrics(pre.start_viewers(), pre.start_likes(), count),
        pre.store().config(),
        pre.store().points().manual as int,
    ) {
        &&& post.store().wf()
        &&& post.store().config() == pre.store().config()
        &&& post.store().metrics() == session_start_metrics(
            pre.start_viewers(),
            pre.start_likes(),
            count,
        )
        &&& post.store().points().manual == pre.store().points().manual
        &&& post.authenticated() == pre.authenticated()
        &&& post.video_id_val() == pre.video_id_val()
        &&& post.channel_id_val() == pre.channel_id_val()
        &&& post.start_viewers() == pre.start_viewers()
        &&& post.start_likes() == pre.start_likes()
        &&& post.phase() == Phase::Starting(StartStep::AwaitChatStart)
        &&& corr_took_issued(pre, k, post, now)
        &&& (post.correlator().pending().last().method matches RpcMethod::StartLiveChat(v)
            && Some(v@) == pre.video_id_view())
        &&& eff.len() == 1
        &&& sent_for_last(post, pre.correlator().next_id(), eff[0])
    } else {
        start_failed(pre, k, post, eff, SessionError::WorkerUnavailable)
    }
}

/// A poll round finished: the polled counters were applied and the fresh
/// snapshot published — or, where they would not fit 64-bit arithmetic,
/// the round was abandoned.
pub open spec fn poll_finished(
    pre: Session,
    k: int,
    post: Session,
    eff: Seq<Effect>,
    viewers: i64,
    likes: i64,
    count: i64,
) -> bool {
    if store_fits(
        after_poll(pre.store().metrics(), viewers, likes, count),
        pre.store().config(),
        pre.store().points().manual as int,
    ) {
        &&& post.store().wf()
        &&& post.store().config() == pre.store().config()
        &&& post.store().metrics() == after_poll(pre.store().metrics(), viewers, likes, count)
        &&& post.store().points().manual == pre.store().points().manual
        &&& post.authenticated() == pre.authenticated()
        &&& post.video_id_val() == pre.video_id_val()
        &&& post.channel_id_val() == pre.channel_id_val()
        &&& post.start_viewers() == pre.start_viewers()
        &&& post.start_likes() == pre.start_likes()
        &&& post.phase() == Phase::Active(PollStep::Rest)
        &&& corr_took(pre, k, post)
        &&& eff.len() == 1
        &&& eff[0] == Effect::Publish(post.snapshot_view())
    } else {
        poll_abandoned(pre, k, post, eff)
    }
}

/// Which error a failed reply surfaces for each method during startup.
pub open spec fn reply_failure_kind(m: RpcMethod) -> SessionError {
    match m {
        RpcMethod::GetLiveInfo(_) => SessionError::InvalidInput,
        _ => SessionError::WorkerUnavailable,
    }
}

/// The full transition a resolved call causes.  `pre` is the controller
/// before the step, `k` the index of the resolved entry, `pay` the
/// reply's payload (nothing for an error reply or a timeout), and `fe`
/// the error a failure surfaces.  `post` and `eff` are the controller
/// after the step and the effects the caller must perform.
pub open spec fn reply_step(
    pre: Session,
    k: int,
    entry: PendingCall,
    pay: Option<JsonValue>,
    fe: SessionError,
    post: Session,
    eff: Seq<Effect>,
    now: u64,
) -> bool {
    match entry.method {
        RpcMethod::SetCookies(_) => if pre.phase() == Phase::Starting(StartStep::AwaitCookies) {
            // The cookie call is optional: its outcome is logged and
            // ignored, and the conversation proceeds to `init`.
            &&& same_data(pre, post)
            &&& post.phase() == Phase::Starting(StartStep::AwaitInit)
            &&& corr_took_issued(pre, k, post, now)
            &&& post.correlator().pending().last().method == RpcMethod::Init
            &&& eff.len() == 1
            &&& sent_for_last(post, pre.correlator().next_id(), eff[0])
        } else {
            reply_ignored(pre, k, post, eff)
        },
        RpcMethod::Init => if pre.phase() == Phase::Starting(StartStep::AwaitInit) {
            match pay {
                Some(p) => {
                    &&& post.store() == pre.store()
                    &&& post.authenticated() == spec_init_authenticated(p)
                    &&& post.video_id_val() == pre.video_id_val()
                    &&& post.channel_id_val() == pre.channel_id_val()
                    &&& post.start_viewers() == pre.start_viewers()
                    &&& post.start_likes() == pre.start_likes()
                    &&& post.phase() == Phase::Starting(StartStep::AwaitLiveInfo)
                    &&& corr_took_issued(pre, k, post, now)
                    &&& (post.correlator().pending().last().method matches RpcMethod::GetLiveInfo(
                        v,
                    ) && Some(v@) == pre.video_id_view())
                    &&& eff.len() == 1
                    &&& sent_for_last(post, pre.correlator().next_id(), eff[0])
                },
                None => start_failed(pre, k, post, eff, fe),
            }
        } else {
            reply_ignored(pre, k, post, eff)
        },
        RpcMethod::GetLiveInfo(_) => if pre.phase() == Phase::Starting(StartStep::AwaitLiveInfo) {
            match pay {
                Some(p) => match spec_live_info(p) {
                    Some(info) => if !info.is_live {
                        start_failed(pre, k, post, eff, SessionError::InvalidInput)
                    } else {
                        &&& post.store() == pre.store()
                        &&& post.authenticated() == pre.authenticated()
                        &&& post.video_id_val() == pre.video_id_val()
                        &&& post.channel_id_view() == Some(info.channel_id@)
                        &&& post.start_viewers() == info.concurrent_viewers
                        &&& post.start_likes() == likes_or_zero(info.like_count)
                        &&& corr_took_issued(pre, k, post, now)
                        &&& eff.len() == 1
                        &&& sent_for_last(post, pre.correlator().next_id(), eff[0])
                        &&& if pre.authenticated() {
                            &&& post.phase() == Phase::Starting(StartStep::AwaitExactCount)
                            &&& post.correlator().pending().last().method
                                == RpcMethod::GetExactSubscriberCount
                        } else {
                            &&& post.phase() == Phase::Starting(StartStep::AwaitFallbackCount)
                            &&& (post.correlator().pending().last().method
                                matches RpcMethod::GetSubscriberCount(c) && c@ == info.channel_id@)
                        }
                    },
                    None => start_failed(pre, k, post, eff, fe),
                },
                None => start_failed(pre, k, post, eff, fe),
            }
        } else if pre.phase() == Phase::Active(PollStep::AwaitLiveInfo) {
            match pay {
                Some(p) => match spec_live_info(p) {
                    Some(info) => {
                        &&& same_data(pre, post)
                        &&& corr_took_issued(pre, k, post, now)
                        &&& eff.len() == 1
                        &&& sent_for_last(post, pre.correlator().next_id(), eff[0])
                        &&& if pre.authenticated() {
                            &&& post.phase() == Phase::Active(
                                PollStep::AwaitCount {
                                    viewers: info.concurrent_viewers,
                                    likes: likes_or_zero(info.like_count),
                                },
                            )
                            &&& post.correlator().pending().last().method
                                == RpcMethod::GetExactSubscriberCount
                        } else {
                            &&& post.phase() == Phase::Active(
                                PollStep::AwaitFallback {
                                    viewers: info.concurrent_viewers,
                                    likes: likes_or_zero(info.like_count),
                                },
                            )
                            &&& (post.correlator().pending().last().method
                                matches RpcMethod::GetSubscriberCount(c) && Some(c@)
                                == pre.channel_id_view())
                        }
                    },
                    None => poll_abandoned(pre, k, post, eff),
                },
                None => poll_abandoned(pre, k, post, eff),
            }
        } else {
            reply_ignored(pre, k, post, eff)
        },
        RpcMethod::GetExactSubscriberCount => match pre.phase() {
            Phase::Starting(StartStep::AwaitExactCount) => match pay {
                Some(p) => match spec_count(p) {
                    Some(c) => start_counters_or_fail(pre, k, post, eff, c, now),
                    None => start_fallback(pre, k, post, eff, now),
                },
                None => start_fallback(pre, k, post, eff, now),
            },
            Phase::Active(PollStep::AwaitCount { viewers, likes }) => match pay {
                Some(p) => match spec_count(p) {
                    Some(c) => poll_finished(pre, k, post, eff, viewers, likes, c),
                    None => poll_fallback(pre, k, post, eff, viewers, likes, now),
                },
                None => poll_fallback(pre, k, post, eff, viewers, likes, now),
            },
            _ => reply_ignored(pre, k, post, eff),
        },
        RpcMethod::GetSubscriberCount(_) => match pre.phase() {
            Phase::Starting(StartStep::AwaitFallbackCount) => match pay {
                Some(p) => match spec_count(p) {
                    Some(c) => start_counters_or_fail(pre, k, post, eff, c, now),
                    None => start_failed(pre, k, post, eff, fe),
                },
                None => start_failed(pre, k, post, eff, fe),
            },
            Phase::Active(PollStep::AwaitFallback { viewers, likes }) => match pay {
                Some(p) => match spec_count(p) {
                    Some(c) => poll_finished(pre, k, post, eff, viewers, likes, c),
                    None => poll_abandoned(pre, k, post, eff),
                },
                None => poll_abandoned(pre, k, post, eff),
            },
            _ => reply_ignored(pre, k, post, eff),
        },
        RpcMethod::StartLiveChat(_) => if pre.phase() == Phase::Starting(StartStep::AwaitChatStart) {
            match pay {
                Some(_) => {
                    &&& same_data(pre, post)
                    &&& post.phase() == Phase::Active(PollStep::Rest)
                    &&& corr_took(pre, k, post)
                    &&& eff.len() == 2
                    &&& eff[0] == Effect::SessionStarted
                    &&& eff[1] == Effect::Publish(post.snapshot_view())
                },
                None => start_failed(pre, k, post, eff, fe),
            }
        } else {
            reply_ignored(pre, k, post, eff)
        },
        RpcMethod::StopLiveChat => if pre.phase() is Stopping {
            // Whatever the graceful call came back with, the worker is
            // now terminated.
            &&& same_data(pre, post)
            &&& post.phase() is Idle
            &&& corr_took(pre, k, post)
            &&& eff.len() == 1
            &&& eff[0] == Effect::KillWorker
        } else {
            reply_ignored(pre, k, post, eff)
        },
    }
}

/// The transition an unsolicited push event causes: a well-formed tip in
/// a running session is applied to the counters (where it fits 64-bit
/// arithmetic) and the fresh snapshot published together with the tip;
/// everything else is dropped.
pub open spec fn push_step(
    pre: Session,
    kind: String,
    payload: JsonValue,
    post: Session,
    eff: Seq<Effect>,
) -> bool {
    if kind@ == "superchat"@ {
        match spec_superchat(payload) {
            Some(ev) => if pre.phase() is Active {
                if tip_fits(pre.store(), ev.amount) {
                    &&& post.store().wf()
                    &&& post.store().config() == pre.store().config()
                    &&& post.store().metrics() == after_tip(pre.store().metrics(), ev.amount as int)
                    &&& post.store().points().manual == pre.store().points().manual
                    &&& post.authenticated() == pre.authenticated()
                    &&& post.video_id_val() == pre.video_id_val()
                    &&& post.channel_id_val() == pre.channel_id_val()
                    &&& post.start_viewers() == pre.start_viewers()
                    &&& post.start_likes() == pre.start_likes()
                    &&& post.phase() == pre.phase()
                    &&& post.correlator() == pre.correlator()
                    &&& eff.len() == 2
                    &&& eff[0] == Effect::Tip(ev)
                    &&& eff[1] == Effect::Publish(post.snapshot_view())
                } else {
                    post == pre && eff.len() == 0
                }
            } else {
                post == pre && eff.len() == 0
            },
            None => post == pre && eff.len() == 0,
        }
    } else {
        post == pre && eff.len() == 0
    }
}


// ------------------------------------------------------------------------
// Persisted session state
// ------------------------------------------------------------------------

/// The part of a session worth keeping between runs of the program: which
/// video was monitored and the points it had gathered.
#[derive(Debug, PartialEq)]
pub struct SessionState {
    pub video_id: Option<String>,
    pub points: PointState,
}

impl Default for SessionState {
    fn default() -> (r: Self)
        ensures
            r.video_id is None,
            r.points == PointState::zero(),
    {
        SessionState { video_id: None, points: PointState::default() }
    }
}

} // verus!
