//! Policies of the Wayland shell protocols: activation tokens, client pings,
//! dialog floating, presentation requests, layer-surface focus and the idle
//! cursor. Time is counted in nanoseconds on the compositor's monotonic clock.

use vstd::prelude::*;

verus! {

/// How long an activation token stays valid: ten seconds.
pub const TOKEN_MAX_AGE_NS: u64 = 10_000_000_000;

/// How often an idle client is pinged: every thirty seconds.
pub const CLIENT_PING_INTERVAL_NS: u64 = 30_000_000_000;

/// How long a pinged client has to answer: ten seconds.
pub const CLIENT_PING_TIMEOUT_NS: u64 = 10_000_000_000;

/// An activation request is honoured only while its token is younger than
/// the policy limit.
pub fn activation_is_fresh(age_ns: u64) -> (fresh: bool)
    ensures
        fresh == (age_ns < TOKEN_MAX_AGE_NS),
{
    age_ns < TOKEN_MAX_AGE_NS
}

/// How a window is presented.
#[derive(Clone, Copy, Debug, PartialEq, Eq, Structural)]
pub enum Presentation {
    Normal,
    Maximized,
    Fullscreen,
}

/// Clients may ask for fullscreen; maximizing stays a Mio action.
pub fn accept_client_presentation_request(requested: Presentation) -> (accepted: bool)
    ensures
        accepted == (requested == Presentation::Fullscreen),
{
    match requested {
        Presentation::Fullscreen => true,
        _ => false,
    }
}

/// What a client's request to enter or leave a presentation leads to.
#[derive(Clone, Copy, Debug, PartialEq, Eq, Structural)]
pub enum PresentationStep {
    /// Refused: Mio sends its own state again so the client converges back.
    Resend,
    /// The window already is (or already is not) presented that way.
    Nothing,
    ToggleFullscreen,
}

/// The step for a client asking to enter (`enabled`) or leave `requested`
/// while the window is presented as `current`.
pub open spec fn presentation_step_for(requested: Presentation, enabled: bool, current: Presentation) -> PresentationStep {
    if requested != Presentation::Fullscreen {
        PresentationStep::Resend
    } else if enabled == (current == requested) {
        PresentationStep::Nothing
    } else {
        PresentationStep::ToggleFullscreen
    }
}

/// Decides what a client's presentation request leads to. Only fullscreen
/// requests are honoured, and only when they change the presentation.
pub fn presentation_request_step(requested: Presentation, enabled: bool, current: Presentation) -> (step:
    PresentationStep)
    ensures
        step == presentation_step_for(requested, enabled, current),
{
    if !accept_client_presentation_request(requested) {
        return PresentationStep::Resend;
    }
    if enabled == (current == requested) {
        return PresentationStep::Nothing;
    }
    PresentationStep::ToggleFullscreen
}

/// A toplevel floats automatically when any reason says so: it has a parent,
/// it is modal, or its size is fixed.
pub fn dialog_should_float(reasons: [bool; 3]) -> (float: bool)
    ensures
        float == (reasons[0] || reasons[1] || reasons[2]),
{
    reasons[0] || reasons[1] || reasons[2]
}

/// A size is fixed when both axes have equal, non-zero minimum and maximum.
pub fn fixed_size_constraints(min: (i32, i32), max: (i32, i32)) -> (fixed: bool)
    ensures
        fixed == (min.0 > 0 && min.1 > 0 && min.0 == max.0 && min.1 == max.1),
{
    min.0 > 0 && min.1 > 0 && min.0 == max.0 && min.1 == max.1
}

/// What the floating property of a window becomes when its dialog hints change.
#[derive(Clone, Copy, Debug, PartialEq, Eq, Structural)]
pub enum FloatingUpdate {
    /// Set the window's floating property to `true`.
    SetFloating(u64),
    /// Remove the floating property, so rules and defaults decide again.
    ClearFloating(u64),
}

/// The floating action for a window whose dialog hints were re-read.
pub fn dialog_floating_action(id: u64, should_float: bool) -> (action: FloatingUpdate)
    ensures
        action == if should_float {
            FloatingUpdate::SetFloating(id)
        } else {
            FloatingUpdate::ClearFloating(id)
        },
{
    if should_float {
        FloatingUpdate::SetFloating(id)
    } else {
        FloatingUpdate::ClearFloating(id)
    }
}

/// The decoration modes of xdg-decoration.
#[derive(Clone, Copy, Debug, PartialEq, Eq, Structural)]
pub enum DecorationMode {
    ClientSide,
    ServerSide,
}

/// Mio always draws its own minimal decoration.
pub fn mio_decoration_mode() -> (mode: DecorationMode)
    ensures
        mode == DecorationMode::ServerSide,
{
    DecorationMode::ServerSide
}

/// What a client ping schedule calls for now.
#[derive(Clone, Copy, Debug, PartialEq, Eq, Structural)]
pub enum PingDue {
    Nothing,
    Send,
    Timeout,
}

/// The ping decision at time `now`.
pub open spec fn ping_decision(now: u64, next_ping: u64, deadline: Option<u64>, timed_out: bool) -> PingDue {
    if !timed_out && (deadline matches Some(d) && now >= d) {
        PingDue::Timeout
    } else if deadline is None && now >= next_ping {
        PingDue::Send
    } else {
        PingDue::Nothing
    }
}

/// Whether a client must be pinged, has missed its answer, or neither.
pub fn ping_due(now: u64, next_ping: u64, deadline: Option<u64>, timed_out: bool) -> (due: PingDue)
    ensures
        due == ping_decision(now, next_ping, deadline, timed_out),
{
    let expired = match deadline {
        Some(d) => now >= d,
        None => false,
    };
    if !timed_out && expired {
        PingDue::Timeout
    } else if deadline.is_none() && now >= next_ping {
        PingDue::Send
    } else {
        PingDue::Nothing
    }
}

/// The ping schedule of one xdg-shell client.
#[derive(Clone, Copy, Debug, PartialEq, Eq, Structural)]
pub struct PingSchedule {
    /// When the next ping is due, if no answer is pending.
    pub next_ping: u64,
    /// When the pending ping expires, if one was sent.
    pub deadline: Option<u64>,
    /// Whether the pending ping has already been reported as missed.
    pub timed_out: bool,
}

/// What the compositor should do for a client at one poll.
#[derive(Clone, Copy, Debug, PartialEq, Eq, Structural)]
pub enum PingStep {
    /// Nothing to do.
    Wait,
    /// Send a ping now, then report with [`PingSchedule::ping_sent`].
    SendPing,
    /// The client missed its answer; it is kept connected.
    ReportTimeout,
}

impl PingSchedule {
    /// The schedule of a client that connected at `now`.
    pub fn new(now: u64) -> (schedule: PingSchedule)
        requires
            now + CLIENT_PING_INTERVAL_NS <= u64::MAX,
        ensures
            schedule.next_ping == now + CLIENT_PING_INTERVAL_NS,
            schedule.deadline is None,
            !schedule.timed_out,
    {
        PingSchedule { next_ping: now + CLIENT_PING_INTERVAL_NS, deadline: None, timed_out: false }
    }

    /// The client answered at `now`: nothing is pending and the next ping is
    /// one interval away.
    pub fn pong(&mut self, now: u64)
        requires
            now + CLIENT_PING_INTERVAL_NS <= u64::MAX,
        ensures
            final(self).next_ping == now + CLIENT_PING_INTERVAL_NS,
            final(self).deadline is None,
            !final(self).timed_out,
    {
        self.deadline = None;
        self.timed_out = false;
        self.next_ping = now + CLIENT_PING_INTERVAL_NS;
    }

    /// One poll at `now`. A missed answer is recorded here; a due ping is
    /// handed to the caller, which sends it and then calls `ping_sent`.
    pub fn poll(&mut self, now: u64) -> (step: PingStep)
        ensures
            step == match ping_decision(now, old(self).next_ping, old(self).deadline, old(self).timed_out) {
                PingDue::Nothing => PingStep::Wait,
                PingDue::Send => PingStep::SendPing,
                PingDue::Timeout => PingStep::ReportTimeout,
            },
            final(self).next_ping == old(self).next_ping,
            final(self).deadline == old(self).deadline,
            final(self).timed_out == (old(self).timed_out || step == PingStep::ReportTimeout),
    {
        match ping_due(now, self.next_ping, self.deadline, self.timed_out) {
            PingDue::Nothing => PingStep::Wait,
            PingDue::Send => PingStep::SendPing,
            PingDue::Timeout => {
                self.timed_out = true;
                PingStep::ReportTimeout
            },
        }
    }

    /// A ping was attempted at `now`: when it went out the answer is due one
    /// timeout later; either way the next ping is one interval away.
    pub fn ping_sent(&mut self, now: u64, delivered: bool)
        requires
            now + CLIENT_PING_INTERVAL_NS <= u64::MAX,
        ensures
            final(self).next_ping == now + CLIENT_PING_INTERVAL_NS,
            final(self).deadline == if delivered {
                Some((now + CLIENT_PING_TIMEOUT_NS) as u64)
            } else {
                old(self).deadline
            },
            final(self).timed_out == old(self).timed_out,
    {
        if delivered {
            self.deadline = Some(now + CLIENT_PING_TIMEOUT_NS);
        }
        self.next_ping = now + CLIENT_PING_INTERVAL_NS;
    }
}

/// A missed answer is reported once: afterwards the schedule neither pings
/// the client again nor reports it again, at any later time, until it answers.
pub proof fn lemma_timeout_reported_once(now: u64, later: u64, next_ping: u64, deadline: u64)
    requires
        now >= deadline,
        later >= now,
    ensures
        ping_decision(now, next_ping, Some(deadline), false) == PingDue::Timeout,
        ping_decision(later, next_ping, Some(deadline), true) == PingDue::Nothing,
{
}

/// While an answer is pending and not yet overdue, the client is left alone:
/// no second ping is sent before the first is answered.
pub proof fn lemma_no_ping_while_waiting(now: u64, next_ping: u64, deadline: u64, timed_out: bool)
    requires
        now < deadline,
    ensures
        ping_decision(now, next_ping, Some(deadline), timed_out) == PingDue::Nothing,
{
}

/// The keyboard interactivity a layer surface asks for.
#[derive(Clone, Copy, Debug, PartialEq, Eq, Structural)]
pub enum KeyboardInteractivity {
    Disabled,
    Exclusive,
    OnDemand,
}

/// The stacking layers of wlr-layer-shell.
#[derive(Clone, Copy, Debug, PartialEq, Eq, Structural)]
pub enum Layer {
    Background,
    Bottom,
    Top,
    Overlay,
}

/// The part of a layer surface's pending state that decides keyboard focus.
#[derive(Clone, Copy, Debug, PartialEq, Eq, Structural)]
pub struct LayerFocusState {
    pub layer: Layer,
    pub keyboard_interactivity: KeyboardInteractivity,
}

/// An upper layer takes focus when it asks for exclusive keyboard access, or
/// newly asks for on-demand access.
pub open spec fn takes_focus(previous: KeyboardInteractivity, pending: LayerFocusState) -> bool {
    (pending.layer == Layer::Top || pending.layer == Layer::Overlay) && (pending.keyboard_interactivity
        == KeyboardInteractivity::Exclusive || (previous != KeyboardInteractivity::OnDemand
        && pending.keyboard_interactivity == KeyboardInteractivity::OnDemand))
}

/// Whether a committed layer surface should receive keyboard focus.
pub fn should_focus_on_commit(previous: KeyboardInteractivity, pending: LayerFocusState) -> (focus:
    bool)
    ensures
        focus == takes_focus(previous, pending),
{
    let upper = match pending.layer {
        Layer::Top | Layer::Overlay => true,
        _ => false,
    };
    upper && (pending.keyboard_interactivity == KeyboardInteractivity::Exclusive || (previous
        != KeyboardInteractivity::OnDemand && pending.keyboard_interactivity
        == KeyboardInteractivity::OnDemand))
}

/// Whether the pointer is hidden because it has been idle or the keyboard is in use.
#[derive(Clone, Copy, Debug, PartialEq, Eq, Structural)]
pub struct CursorIdle {
    /// When the pointer last moved or clicked.
    pub last_activity: u64,
    /// Whether the cursor is currently hidden.
    pub hidden: bool,
}

impl CursorIdle {
    /// A visible cursor, last active at `now`.
    pub fn new(now: u64) -> (idle: CursorIdle)
        ensures
            idle.last_activity == now,
            !idle.hidden,
    {
        CursorIdle { last_activity: now, hidden: false }
    }

    /// The pointer was used at `now`; returns whether the cursor must be redrawn.
    pub fn note_pointer_activity(&mut self, now: u64) -> (redraw: bool)
        ensures
            final(self).last_activity == now,
            !final(self).hidden,
            redraw == old(self).hidden,
    {
        self.last_activity = now;
        if self.hidden {
            self.hidden = false;
            true
        } else {
            false
        }
    }

    /// The keyboard was used; returns whether the cursor must be redrawn.
    pub fn hide_for_keyboard_input(&mut self) -> (redraw: bool)
        ensures
            final(self).hidden,
            final(self).last_activity == old(self).last_activity,
            redraw == !old(self).hidden,
    {
        if !self.hidden {
            self.hidden = true;
            true
        } else {
            false
        }
    }

    /// One idle check at `now` with the configured delay in milliseconds
    /// (zero disables hiding); returns whether the cursor must be redrawn.
    pub fn poll(&mut self, now: u64, delay_ms: u32) -> (redraw: bool)
        ensures
            final(self).last_activity == old(self).last_activity,
            redraw == (delay_ms != 0 && !old(self).hidden && now >= old(self).last_activity
                && now - old(self).last_activity >= delay_ms as int * 1_000_000),
            final(self).hidden == (old(self).hidden || redraw),
    {
        if delay_ms == 0 || self.hidden {
            return false;
        }
        let idle: u64 = if now >= self.last_activity {
            now - self.last_activity
        } else {
            0
        };
        let delay_ns: u64 = delay_ms as u64 * 1_000_000;
        if now >= self.last_activity && idle >= delay_ns {
            self.hidden = true;
            true
        } else {
            false
        }
    }
}

/// Counts a commit of a new window that is not presented yet, and decides
/// whether to hold back presenting it: only on its first commit, and only
/// when it is neither ready to present nor floated automatically and there
/// are windows that focus would return to.
pub fn should_defer_unclassified_toplevel(
    initial_commit_count: &mut u8,
    ready_to_present: bool,
    auto_floating: bool,
    has_return_focus_candidates: bool,
) -> (defer: bool)
    ensures
        *final(initial_commit_count) == if *old(initial_commit_count) == u8::MAX {
            u8::MAX as int
        } else {
            *old(initial_commit_count) + 1
        },
        defer == (!ready_to_present && !auto_floating && has_return_focus_candidates
            && *final(initial_commit_count) == 1),
{
    if *initial_commit_count < u8::MAX {
        *initial_commit_count = *initial_commit_count + 1;
    }
    !ready_to_present && !auto_floating && has_return_focus_candidates && *initial_commit_count == 1
}

} // verus!
