//! The sample store: a growable sequence of timestamped motion samples
//! with a session start time, filled by the consumer side of the capture
//! pipeline and drained or restarted by the surrounding application.
//!
//! The store's behaviour is stated over `StoreModel`, its mathematical
//! state, so that draining, restarting and the start-once rule for the
//! capture pipeline are pinned down for every sequence of operations.

use vstd::prelude::*;

use crate::event::MouseRawData;

verus! {

/// The mathematical state of a sample store: the samples it holds in
/// arrival order, the session start time in microseconds, and whether a
/// capture pipeline is already active for it.
pub ghost struct StoreModel {
    pub samples: Seq<MouseRawData>,
    pub start: i64,
    pub capture_active: bool,
}

/// A fresh store: no samples, the given session start, no capture active.
pub open spec fn store_with_start(now: i64) -> StoreModel {
    StoreModel { samples: Seq::empty(), start: now, capture_active: false }
}

/// The store after appending one sample.
pub open spec fn store_pushed(m: StoreModel, d: MouseRawData) -> StoreModel {
    StoreModel { samples: m.samples.push(d), start: m.start, capture_active: m.capture_active }
}

/// The sample a motion event gets when it is received at clock reading
/// `now`: the event's deltas, stamped with the time elapsed since the
/// session started.
pub open spec fn stamped_sample(m: StoreModel, dx: i32, dy: i32, now: i64) -> MouseRawData {
    MouseRawData { t: (now - m.start) as i64, dx, dy }
}

/// The store after receiving one motion event at clock reading `now`.
pub open spec fn store_stamped(m: StoreModel, dx: i32, dy: i32, now: i64) -> StoreModel {
    store_pushed(m, stamped_sample(m, dx, dy, now))
}

/// The store after a drain: all samples handed out, session unchanged.
pub open spec fn store_drained(m: StoreModel) -> StoreModel {
    StoreModel { samples: Seq::empty(), start: m.start, capture_active: m.capture_active }
}

/// The store after a session restart at clock reading `now`: samples
/// cleared and the session clock reset, capture left running.
pub open spec fn store_restarted(m: StoreModel, now: i64) -> StoreModel {
    StoreModel { samples: Seq::empty(), start: now, capture_active: m.capture_active }
}

/// The store after a start request: a capture pipeline is active, whether
/// or not this request was the one that spawned it.
pub open spec fn store_started(m: StoreModel) -> StoreModel {
    StoreModel { samples: m.samples, start: m.start, capture_active: true }
}

/// Whether a start request must spawn the capture pipeline: exactly when
/// none is active yet.
pub open spec fn start_spawns(m: StoreModel) -> bool {
    !m.capture_active
}

/// Relies on std::time::SystemTime::now for the session clock: the moment
/// of the call, converted to microseconds since the Unix epoch. Nothing is
/// promised of the reading itself — the clock is outside the program — but
/// the conversion keeps it non-negative: a pre-epoch reading is pinned to
/// zero and one beyond the i64 range to i64::MAX.
#[verifier::external_body]
fn now_micros() -> (t: i64)
    ensures
        0 <= t,
{
    match std::time::SystemTime::now().duration_since(std::time::UNIX_EPOCH) {
        Ok(d) => i64::try_from(d.as_micros()).unwrap_or(i64::MAX),
        Err(_) => 0,
    }
}

/// The sample store: timestamped motion samples in arrival order, the
/// session start time, and the start-once flag for the capture pipeline.
pub struct Database {
    mouse_data: Vec<MouseRawData>,
    log_start_time: i64,
    capture_active: bool,
}

impl View for Database {
    type V = StoreModel;

    closed spec fn view(&self) -> StoreModel {
        StoreModel {
            samples: self.mouse_data@,
            start: self.log_start_time,
            capture_active: self.capture_active,
        }
    }
}

impl Database {
    /// A fresh store whose session starts now, by the system clock.
    pub fn new() -> (db: Database)
        ensures
            0 <= db@.start,
            db@ == store_with_start(db@.start),
    {
        let now = now_micros();
        Database::with_start_time(now)
    }

    /// A fresh store whose session starts at the given clock reading.
    pub fn with_start_time(now: i64) -> (db: Database)
        ensures
            db@ == store_with_start(now),
    {
        Database {
            mouse_data: Vec::with_capacity(10000),
            log_start_time: now,
            capture_active: false,
        }
    }

    /// Append one already-stamped sample.
    pub fn push_mouse_data(&mut self, d: MouseRawData)
        ensures
            final(self)@ == store_pushed(old(self)@, d),
    {
        let data = &mut self.mouse_data;
        data.push(d);
    }

    /// Receive one motion event at clock reading `now`: stamp it with the
    /// time elapsed since the session started and append it. The session
    /// clock is monotonic, so a reading before the session start is ruled
    /// out here and handled by `record_motion_now`.
    pub fn record_motion(&mut self, dx: i32, dy: i32, now: i64)
        requires
            0 <= old(self)@.start <= now,
        ensures
            final(self)@ == store_stamped(old(self)@, dx, dy, now),
    {
        let t = now - self.log_start_time;
        self.push_mouse_data(MouseRawData { t, dx, dy });
    }

    /// Receive one motion event stamped by the system clock. When the
    /// clock reads before the session start — which a monotonic clock
    /// never does — the event is dropped rather than stamped wrongly, and
    /// the store is left unchanged. A session started at clock reading
    /// zero can never be outrun by the clock, so there recording is owed;
    /// a negative session start is rejected outright, since no clock
    /// reading is negative.
    pub fn record_motion_now(&mut self, dx: i32, dy: i32) -> (recorded: bool)
        ensures
            recorded ==> exists|n: i64|
                0 <= old(self)@.start <= n && final(self)@ == store_stamped(
                    old(self)@,
                    dx,
                    dy,
                    n,
                ),
            !recorded ==> final(self)@ == old(self)@,
            old(self)@.start == 0 ==> recorded,
            old(self)@.start < 0 ==> !recorded,
    {
        let now = now_micros();
        if 0 <= self.log_start_time && self.log_start_time <= now {
            self.record_motion(dx, dy, now);
            true
        } else {
            false
        }
    }

    /// Drain the store: hand back every sample accumulated since the last
    /// drain or restart, in arrival order, and clear the store.
    pub fn get_mouse_data(&mut self) -> (data: Vec<MouseRawData>)
        ensures
            data@ == old(self)@.samples,
            final(self)@ == store_drained(old(self)@),
    {
        let mut data: Vec<MouseRawData> = Vec::new();
        core::mem::swap(&mut self.mouse_data, &mut data);
        data
    }

    /// Restart the session: clear the samples and reset the session clock
    /// to the given reading, without touching the capture pipeline.
    pub fn restart_at(&mut self, now: i64)
        ensures
            final(self)@ == store_restarted(old(self)@, now),
    {
        self.mouse_data.clear();
        self.log_start_time = now;
    }

    /// Restart the session with the system clock.
    pub fn restart(&mut self)
        ensures
            exists|n: i64| 0 <= n && final(self)@ == store_restarted(old(self)@, n),
    {
        let now = now_micros();
        self.restart_at(now);
    }

    /// The session start time samples are stamped against.
    pub fn get_log_start_time(&self) -> (t: i64)
        ensures
            t == self@.start,
    {
        self.log_start_time
    }

    /// Request that capture run: returns whether the caller must spawn the
    /// capture pipeline, which is exactly when none is active yet — a
    /// second request is a no-op, so at most one pipeline ever runs.
    pub fn start_capture(&mut self) -> (spawn: bool)
        ensures
            spawn == start_spawns(old(self)@),
            final(self)@ == store_started(old(self)@),
    {
        let spawn = !self.capture_active;
        self.capture_active = true;
        spawn
    }

    /// Whether a capture pipeline is active for this store.
    pub fn capture_active(&self) -> (a: bool)
        ensures
            a == self@.capture_active,
    {
        self.capture_active
    }
}

/// Session restart idempotence: a store drains to nothing immediately
/// after a restart — draining changes nothing further — and the first
/// sample recorded after the restart is stamped relative to the new start
/// time, whatever the start time was before.
pub proof fn lemma_restart_then_drain(
    m: StoreModel,
    restart_now: i64,
    dx: i32,
    dy: i32,
    sample_now: i64,
)
    requires
        0 <= restart_now <= sample_now,
    ensures
        store_restarted(m, restart_now).samples == Seq::<MouseRawData>::empty(),
        store_drained(store_restarted(m, restart_now)) == store_restarted(m, restart_now),
        store_stamped(store_restarted(m, restart_now), dx, dy, sample_now).samples == seq![
            MouseRawData { t: (sample_now - restart_now) as i64, dx, dy },
        ],
{
    assert(Seq::<MouseRawData>::empty().push(
        MouseRawData { t: (sample_now - restart_now) as i64, dx, dy },
    ) =~= seq![MouseRawData { t: (sample_now - restart_now) as i64, dx, dy }]);
}

/// Start idempotence: a start request spawns the capture pipeline exactly
/// when none is active; after any start request, a second one spawns
/// nothing and leaves the store exactly as the first left it — so two
/// start requests in a row result in one pipeline, not two.
pub proof fn lemma_start_idempotent(m: StoreModel)
    ensures
        start_spawns(m) == !m.capture_active,
        !start_spawns(store_started(m)),
        store_started(store_started(m)) == store_started(m),
        store_started(m).samples == m.samples,
        store_started(m).start == m.start,
{
}

/// The end-to-end scenario, stated generally: from a store that holds no
/// samples, three motion deltas recorded in order at non-decreasing clock
/// readings — the session clock is monotonic — drain as exactly those
/// three samples, in injection order, each delta unchanged, with
/// non-negative, non-decreasing stamps measured from the session start.
pub proof fn lemma_three_recordings_drain_in_order(
    m: StoreModel,
    dx1: i32,
    dy1: i32,
    dx2: i32,
    dy2: i32,
    dx3: i32,
    dy3: i32,
    n1: i64,
    n2: i64,
    n3: i64,
)
    requires
        m.samples == Seq::<MouseRawData>::empty(),
        0 <= m.start <= n1 <= n2 <= n3,
    ensures
        ({
            let drained = store_stamped(
                store_stamped(store_stamped(m, dx1, dy1, n1), dx2, dy2, n2),
                dx3,
                dy3,
                n3,
            ).samples;
            &&& drained.len() == 3
            &&& drained[0] == (MouseRawData { t: (n1 - m.start) as i64, dx: dx1, dy: dy1 })
            &&& drained[1] == (MouseRawData { t: (n2 - m.start) as i64, dx: dx2, dy: dy2 })
            &&& drained[2] == (MouseRawData { t: (n3 - m.start) as i64, dx: dx3, dy: dy3 })
            &&& 0 <= drained[0].t <= drained[1].t <= drained[2].t
        }),
{
    let m1 = store_stamped(m, dx1, dy1, n1);
    let m2 = store_stamped(m1, dx2, dy2, n2);
    assert(m1.start == m.start && m2.start == m.start);
}

/// The consumer-side plugin: for each device event the event loop reports,
/// decide whether it is a relative mouse motion and, when it is, stamp it
/// and append it to the store it owns. No event is ever consumed: the
/// event loop goes on handling it as usual.
pub struct RawInputPlugin {
    database: Database,
}

/// A device event as the consumer-side event loop reports it, reduced to
/// the values the plugin reads: a relative mouse motion, or anything else.
#[derive(Clone, Copy, Debug, PartialEq, Eq, Structural)]
pub enum InputEvent {
    MouseMotion { dx: i32, dy: i32 },
    Other,
}

impl View for RawInputPlugin {
    type V = StoreModel;

    closed spec fn view(&self) -> StoreModel {
        self.database@
    }
}

impl RawInputPlugin {
    /// A plugin feeding the given store.
    pub fn new(database: Database) -> (p: RawInputPlugin)
        ensures
            p@ == database@,
    {
        RawInputPlugin { database }
    }

    /// Handle one device event: a mouse motion is stamped by the system
    /// clock and appended to the store (unless the clock reads before the
    /// session start, when it is dropped); anything else leaves the store
    /// untouched. Never consumes the event. On a store whose session
    /// started at clock reading zero, a mouse motion is always recorded;
    /// on one with a negative session start, never.
    pub fn on_event(&mut self, event: &InputEvent) -> (consumed: bool)
        ensures
            !consumed,
            *event matches InputEvent::MouseMotion { dx, dy } ==> ((exists|n: i64|
                0 <= old(self)@.start <= n && final(self)@ == store_stamped(old(self)@, dx, dy, n))
                || final(self)@ == old(self)@),
            *event matches InputEvent::MouseMotion { dx, dy } ==> (old(self)@.start == 0
                ==> exists|n: i64|
                    0 <= n && final(self)@ == store_stamped(old(self)@, dx, dy, n)),
            *event matches InputEvent::MouseMotion { dx, dy } ==> (old(self)@.start < 0
                ==> final(self)@ == old(self)@),
            *event is Other ==> final(self)@ == old(self)@,
    {
        match event {
            InputEvent::MouseMotion { dx, dy } => {
                self.database.record_motion_now(*dx, *dy);
            },
            InputEvent::Other => {},
        }
        false
    }

    /// Give the store back, for example to drain it.
    pub fn into_database(self) -> (db: Database)
        ensures
            db@ == self@,
    {
        self.database
    }
}

} // verus!
