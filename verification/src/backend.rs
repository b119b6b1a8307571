//! Decisions of the direct DRM backend: which scene to draw, how output
//! hotplug events are handled, event-loop diagnostics, the software cursor,
//! and the configuration-error overlay. Times are nanoseconds on the
//! compositor's monotonic clock.

use vstd::prelude::*;

verus! {

/// The scene the direct backend renders.
#[derive(Clone, Copy, Debug, PartialEq, Eq, Structural)]
pub enum DirectScene {
    Desktop,
    SessionLock,
}

/// While the session is locked only the lock scene is drawn.
pub fn direct_scene(session_locked: bool) -> (scene: DirectScene)
    ensures
        scene == if session_locked {
            DirectScene::SessionLock
        } else {
            DirectScene::Desktop
        },
{
    if session_locked {
        DirectScene::SessionLock
    } else {
        DirectScene::Desktop
    }
}

/// What a connector hotplug event reports.
#[derive(Clone, Copy, Debug, PartialEq, Eq, Structural)]
pub enum HotplugEventKind {
    Connected,
    Disconnected,
    Changed,
}

/// What the backend does about a hotplug event.
#[derive(Clone, Copy, Debug, PartialEq, Eq, Structural)]
pub enum HotplugAction {
    Connect,
    Disconnect,
    Reconnect,
    Ignore,
}

/// The reaction to a hotplug event, given the CRTC driving the single
/// active output (if any) and the CRTC the event concerns (if any).
pub open spec fn hotplug_reaction(active_crtc: Option<u64>, event_crtc: Option<u64>, kind: HotplugEventKind) -> HotplugAction {
    match (kind, active_crtc, event_crtc) {
        (HotplugEventKind::Connected, None, Some(_)) => HotplugAction::Connect,
        (HotplugEventKind::Disconnected, Some(active), Some(event)) if active == event => HotplugAction::Disconnect,
        (HotplugEventKind::Changed, Some(active), Some(event)) if active == event => HotplugAction::Reconnect,
        _ => HotplugAction::Ignore,
    }
}

/// Only the single active output is reconfigured; a new output is taken only
/// when none is active.
pub fn classify_hotplug(
    active_crtc: Option<u64>,
    event_crtc: Option<u64>,
    kind: HotplugEventKind,
) -> (action: HotplugAction)
    ensures
        action == hotplug_reaction(active_crtc, event_crtc, kind),
{
    match kind {
        HotplugEventKind::Connected => match (active_crtc, event_crtc) {
            (None, Some(_)) => HotplugAction::Connect,
            _ => HotplugAction::Ignore,
        },
        HotplugEventKind::Disconnected => match (active_crtc, event_crtc) {
            (Some(active), Some(event)) => if active == event {
                HotplugAction::Disconnect
            } else {
                HotplugAction::Ignore
            },
            _ => HotplugAction::Ignore,
        },
        HotplugEventKind::Changed => match (active_crtc, event_crtc) {
            (Some(active), Some(event)) => if active == event {
                HotplugAction::Reconnect
            } else {
                HotplugAction::Ignore
            },
            _ => HotplugAction::Ignore,
        },
    }
}

/// The watchdog period of the event-loop diagnostics: 100 ms.
pub const WATCHDOG_PERIOD_NS: u64 = 100_000_000;

/// How long one diagnostics window lasts: five seconds.
pub const DIAGNOSTICS_WINDOW_NS: u64 = 5_000_000_000;

/// Counters and worst cases of the direct backend's event loop over one window.
#[derive(Clone, Copy, Debug, PartialEq, Eq, Structural)]
pub struct DirectEventDiagnostics {
    pub started: u64,
    pub last_watchdog: u64,
    pub last_vblank: Option<u64>,
    pub watchdog_ticks: u64,
    pub vblanks: u64,
    pub input_events: u64,
    pub watchdog_late_max: u64,
    pub vblank_gap_max: u64,
    pub vblank_callback_max: u64,
    pub input_callback_max: u64,
}

/// `a - b`, or zero when `b` is later.
pub open spec fn since(a: u64, b: u64) -> u64 {
    if a >= b {
        (a - b) as u64
    } else {
        0
    }
}

/// The larger of two durations.
pub open spec fn longest(a: u64, b: u64) -> u64 {
    if a >= b {
        a
    } else {
        b
    }
}

fn elapsed_between(now: u64, earlier: u64) -> (d: u64)
    ensures
        d == since(now, earlier),
{
    if now >= earlier {
        now - earlier
    } else {
        0
    }
}

fn max_u64(a: u64, b: u64) -> (m: u64)
    ensures
        m == longest(a, b),
{
    if a >= b {
        a
    } else {
        b
    }
}

/// The diagnostics of a window starting at `now`, with nothing counted.
pub open spec fn fresh_diagnostics(now: u64) -> DirectEventDiagnostics {
    DirectEventDiagnostics {
        started: now,
        last_watchdog: now,
        last_vblank: None,
        watchdog_ticks: 0,
        vblanks: 0,
        input_events: 0,
        watchdog_late_max: 0,
        vblank_gap_max: 0,
        vblank_callback_max: 0,
        input_callback_max: 0,
    }
}

impl DirectEventDiagnostics {
    /// Diagnostics that start counting at `now`.
    pub fn new(now: u64) -> (d: DirectEventDiagnostics)
        ensures
            d == fresh_diagnostics(now),
    {
        DirectEventDiagnostics {
            started: now,
            last_watchdog: now,
            last_vblank: None,
            watchdog_ticks: 0,
            vblanks: 0,
            input_events: 0,
            watchdog_late_max: 0,
            vblank_gap_max: 0,
            vblank_callback_max: 0,
            input_callback_max: 0,
        }
    }

    /// A watchdog tick at `now`. It records how late the tick came; once the
    /// window has lasted five seconds the completed window is returned (for
    /// logging) and counting restarts at `now`.
    pub fn watchdog(&mut self, now: u64) -> (report: Option<DirectEventDiagnostics>)
        requires
            old(self).watchdog_ticks < u64::MAX,
        ensures
            ({
                let ticked = DirectEventDiagnostics {
                    last_watchdog: now,
                    watchdog_ticks: (old(self).watchdog_ticks + 1) as u64,
                    watchdog_late_max: longest(
                        old(self).watchdog_late_max,
                        since(since(now, old(self).last_watchdog), WATCHDOG_PERIOD_NS),
                    ),
                    ..*old(self)
                };
                if since(now, old(self).started) >= DIAGNOSTICS_WINDOW_NS {
                    report == Some(ticked) && *final(self) == fresh_diagnostics(now)
                } else {
                    report is None && *final(self) == ticked
                }
            }),
    {
        let elapsed = elapsed_between(now, self.last_watchdog);
        self.last_watchdog = now;
        self.watchdog_ticks = self.watchdog_ticks + 1;
        self.watchdog_late_max = max_u64(
            self.watchdog_late_max,
            elapsed_between(elapsed, WATCHDOG_PERIOD_NS),
        );
        if elapsed_between(now, self.started) >= DIAGNOSTICS_WINDOW_NS {
            let report = *self;
            *self = DirectEventDiagnostics::new(now);
            Some(report)
        } else {
            None
        }
    }

    /// A vblank callback begins at `now`; returns `now` for `finish_vblank`.
    pub fn begin_vblank(&mut self, now: u64) -> (started: u64)
        requires
            old(self).vblanks < u64::MAX,
        ensures
            started == now,
            final(self).last_vblank == Some(now),
            final(self).vblanks == old(self).vblanks + 1,
            final(self).vblank_gap_max == match old(self).last_vblank {
                Some(previous) => longest(old(self).vblank_gap_max, since(now, previous)),
                None => old(self).vblank_gap_max,
            },
            final(self).started == old(self).started,
            final(self).last_watchdog == old(self).last_watchdog,
            final(self).watchdog_ticks == old(self).watchdog_ticks,
            final(self).input_events == old(self).input_events,
            final(self).watchdog_late_max == old(self).watchdog_late_max,
            final(self).vblank_callback_max == old(self).vblank_callback_max,
            final(self).input_callback_max == old(self).input_callback_max,
    {
        match self.last_vblank {
            Some(previous) => {
                self.vblank_gap_max = max_u64(self.vblank_gap_max, elapsed_between(now, previous));
            },
            None => {},
        }
        self.last_vblank = Some(now);
        self.vblanks = self.vblanks + 1;
        now
    }

    /// A vblank callback that took `callback` nanoseconds has finished.
    pub fn finish_vblank(&mut self, callback: u64)
        ensures
            *final(self) == (DirectEventDiagnostics {
                vblank_callback_max: longest(old(self).vblank_callback_max, callback),
                ..*old(self)
            }),
    {
        self.vblank_callback_max = max_u64(self.vblank_callback_max, callback);
    }

    /// An input callback that took `callback` nanoseconds has finished.
    pub fn finish_input(&mut self, callback: u64)
        requires
            old(self).input_events < u64::MAX,
        ensures
            *final(self) == (DirectEventDiagnostics {
                input_events: (old(self).input_events + 1) as u64,
                input_callback_max: longest(old(self).input_callback_max, callback),
                ..*old(self)
            }),
    {
        self.input_events = self.input_events + 1;
        self.input_callback_max = max_u64(self.input_callback_max, callback);
    }
}

/// Sum of the first `n` frame delays.
pub open spec fn delay_prefix(delays: Seq<u64>, n: int) -> int
    decreases n,
{
    if n <= 0 {
        0
    } else {
        delay_prefix(delays, n - 1) + delays[n - 1]
    }
}

/// When frame `i` of the animation ends: the sum of the delays up to and
/// including it.
pub open spec fn frame_end(delays: Seq<u64>, i: int) -> int {
    delay_prefix(delays, i + 1)
}

/// The frame shown `position` milliseconds into the animation cycle: the
/// first frame whose cumulative delay passes `position`, else the last one.
pub open spec fn frame_at(delays: Seq<u64>, position: int) -> int {
    if exists|i: int| 0 <= i < delays.len() && position < #[trigger] frame_end(delays, i) {
        choose|i: int|
            0 <= i < delays.len() && position < #[trigger] frame_end(delays, i) && forall|j: int|
                0 <= j < i ==> position >= #[trigger] frame_end(delays, j)
    } else {
        delays.len() - 1
    }
}

proof fn lemma_frame_at_is_first_ending(delays: Seq<u64>, position: int, i: int)
    requires
        0 <= i < delays.len(),
        position < frame_end(delays, i),
        forall|j: int| 0 <= j < i ==> position >= #[trigger] frame_end(delays, j),
    ensures
        frame_at(delays, position) == i,
{
    assert(exists|k: int| 0 <= k < delays.len() && position < #[trigger] frame_end(delays, k));
    let chosen = frame_at(delays, position);
    assert(0 <= chosen < delays.len() && position < frame_end(delays, chosen));
    assert(forall|j: int| 0 <= j < chosen ==> position >= #[trigger] frame_end(delays, j));
    if chosen < i {
        assert(position >= frame_end(delays, chosen));
    } else if chosen > i {
        assert(position >= frame_end(delays, i));
    }
}

proof fn lemma_prefix_monotone(delays: Seq<u64>, a: int, b: int)
    requires
        0 <= a <= b <= delays.len(),
    ensures
        delay_prefix(delays, a) <= delay_prefix(delays, b),
    decreases b - a,
{
    if a < b {
        lemma_prefix_monotone(delays, a, b - 1);
    }
}

/// The index of the software-cursor frame to show `elapsed_ms` after the
/// animation started; `cycle_ms` is the length of one animation cycle.
pub fn cursor_frame_index(delays: &Vec<u64>, cycle_ms: u64, elapsed_ms: u64) -> (index: usize)
    requires
        delays@.len() > 0,
        cycle_ms > 0,
        delay_prefix(delays@, delays@.len() as int) <= u64::MAX,
    ensures
        index as int == frame_at(delays@, (elapsed_ms % cycle_ms) as int),
        index < delays@.len(),
{
    let position = elapsed_ms % cycle_ms;
    let mut end: u64 = 0;
    let mut i: usize = 0;
    while i < delays.len()
        invariant
            i <= delays.len(),
            position == elapsed_ms % cycle_ms,
            end == delay_prefix(delays@, i as int),
            delay_prefix(delays@, delays@.len() as int) <= u64::MAX,
            forall|j: int| 0 <= j < i ==> position >= #[trigger] frame_end(delays@, j),
        decreases delays.len() - i,
    {
        proof {
            lemma_prefix_monotone(delays@, i as int + 1, delays@.len() as int);
        }
        end = end + delays[i];
        if position < end {
            proof {
                assert(end == frame_end(delays@, i as int));
                lemma_frame_at_is_first_ending(delays@, position as int, i as int);
                assert(position as int == (elapsed_ms % cycle_ms) as int);
            }
            return i;
        }
        i = i + 1;
    }
    assert(!exists|k: int| 0 <= k < delays@.len() && position < #[trigger] frame_end(delays@, k));
    delays.len() - 1
}

/// The distance between two cursor sizes.
pub open spec fn size_distance(a: u32, b: u32) -> int {
    if a >= b {
        a - b
    } else {
        b - a
    }
}

/// Picks the cursor image size closest to `requested`; on a tie the first
/// such size in `sizes` wins. `None` when there are no images.
pub fn select_cursor_size(sizes: &Vec<u32>, requested: u32) -> (chosen: Option<u32>)
    ensures
        sizes@.len() == 0 ==> chosen is None,
        sizes@.len() > 0 ==> exists|i: int|
            0 <= i < sizes@.len() && chosen == Some(sizes@[i]) && (forall|j: int|
                0 <= j < sizes@.len() ==> size_distance(sizes@[i], requested) <= size_distance(
                    #[trigger] sizes@[j],
                    requested,
                )) && (forall|j: int|
                0 <= j < i ==> size_distance(sizes@[i], requested) < size_distance(
                    #[trigger] sizes@[j],
                    requested,
                )),
{
    if sizes.len() == 0 {
        return None;
    }
    let mut best: usize = 0;
    let mut k: usize = 1;
    while k < sizes.len()
        invariant
            1 <= k <= sizes.len(),
            best < k,
            forall|j: int|
                0 <= j < k ==> size_distance(sizes@[best as int], requested) <= size_distance(
                    #[trigger] sizes@[j],
                    requested,
                ),
            forall|j: int|
                0 <= j < best ==> size_distance(sizes@[best as int], requested) < size_distance(
                    #[trigger] sizes@[j],
                    requested,
                ),
        decreases sizes.len() - k,
    {
        let candidate = sizes[k];
        let current = sizes[best];
        let candidate_distance: u32 = if candidate >= requested {
            candidate - requested
        } else {
            requested - candidate
        };
        let best_distance: u32 = if current >= requested {
            current - requested
        } else {
            requested - current
        };
        if candidate_distance < best_distance {
            best = k;
        }
        k = k + 1;
    }
    Some(sizes[best])
}

/// The configuration-error overlay, which is rebuilt only when the output
/// size or the message changes.
#[derive(Clone, Debug)]
pub struct ConfigErrorOverlayState {
    /// The output size and message the overlay was last built for.
    pub key: Option<(i32, i32, String)>,
    /// The overlay's commit counter, which advances on every rebuild.
    pub commit: usize,
}

impl ConfigErrorOverlayState {
    /// An overlay that has never been drawn.
    pub fn new() -> (state: ConfigErrorOverlayState)
        ensures
            state.key is None,
            state.commit == 0,
    {
        ConfigErrorOverlayState { key: None, commit: 0 }
    }

    /// Notes the size and message of the next frame; returns whether the
    /// overlay changed. A change stores the new key and advances the commit
    /// (wrapping); the same key again changes nothing.
    pub fn update(&mut self, width: i32, height: i32, error: &str) -> (changed: bool)
        ensures
            changed == !(old(self).key matches Some(k) && k.0 == width && k.1 == height && k.2@ == error@),
            changed ==> final(self).commit == if old(self).commit == usize::MAX {
                0
            } else {
                (old(self).commit + 1) as usize
            },
            changed ==> (final(self).key matches Some(k) && k.0 == width && k.1 == height && k.2@ == error@),
            !changed ==> final(self).commit == old(self).commit,
            !changed ==> final(self).key == old(self).key,
    {
        let same = match &self.key {
            Some(key) => {
                if key.0 == width && key.1 == height {
                    let stored = crate::text::chars_of(key.2.as_str());
                    let given = crate::text::chars_of(error);
                    crate::text::chars_equal(&stored, &given)
                } else {
                    false
                }
            },
            None => false,
        };
        if same {
            return false;
        }
        self.key = Some((width, height, crate::text::owned(error)));
        self.commit = if self.commit == usize::MAX {
            0
        } else {
            self.commit + 1
        };
        true
    }
}

/// Width and height of the built-in software cursor.
pub const BUILT_IN_CURSOR_SIZE: u32 = 24;

/// The colour of pixel `(x, y)` of the built-in arrow: `Some(true)` for the
/// black outline, `Some(false)` for the white fill, `None` for transparent.
pub open spec fn arrow_pixel(x: int, y: int) -> Option<bool> {
    let limit = if y <= 9 {
        y
    } else {
        9
    };
    if 0 <= y < 18 && 0 <= x <= limit {
        if x == 0 || x == limit || y == 17 {
            Some(true)
        } else {
            Some(false)
        }
    } else {
        None
    }
}

/// The RGBA byte `channel` (0 to 3) of the pixel `(x, y)` of the built-in arrow.
pub open spec fn arrow_byte(x: int, y: int, channel: int) -> u8 {
    match arrow_pixel(x, y) {
        Some(true) => if channel == 3 {
            255
        } else {
            0
        },
        Some(false) => 255,
        None => 0,
    }
}

/// The RGBA pixels of the built-in 24×24 arrow cursor, row by row.
pub fn built_in_cursor_pixels() -> (pixels: Vec<u8>)
    ensures
        pixels@.len() == 24 * 24 * 4,
        forall|i: int|
            0 <= i < pixels@.len() ==> #[trigger] pixels@[i] == arrow_byte(
                (i / 4) % 24,
                (i / 4) / 24,
                i % 4,
            ),
{
    let mut pixels: Vec<u8> = Vec::new();
    let mut i: usize = 0;
    while i < 24 * 24 * 4
        invariant
            i <= 24 * 24 * 4,
            pixels@.len() == i,
            forall|k: int|
                0 <= k < i ==> #[trigger] pixels@[k] == arrow_byte((k / 4) % 24, (k / 4) / 24, k % 4),
        decreases 24 * 24 * 4 - i,
    {
        let pixel: usize = i / 4;
        let x: usize = pixel % 24;
        let y: usize = pixel / 24;
        let channel: usize = i % 4;
        let limit: usize = if y <= 9 {
            y
        } else {
            9
        };
        let byte: u8 = if y < 18 && x <= limit {
            if x == 0 || x == limit || y == 17 {
                if channel == 3 {
                    255
                } else {
                    0
                }
            } else {
                255
            }
        } else {
            0
        };
        pixels.push(byte);
        i = i + 1;
    }
    pixels
}

} // verus!
