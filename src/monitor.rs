//! The auto-toggle engine: lifecycle and reactions to activity and silence.
//!
//! The engine does not talk to hardware or to the operating system. The
//! caller runs the polling loop: it hands over each batch of device-activity
//! notifications and each quiet tick, and carries out the action returned.
//! When told to power on the selected lights it lists the devices, asks
//! `devices_to_turn_on` which to switch on, and reports each success through
//! `record_turned_on`.

use vstd::prelude::*;
use vstd::string::*;
use crate::activity::{
    count_after, count_kind, transition_of, video_event_kinds, video_kinds, ActivityAggregator,
    DeviceEvent, EventKind, Transition,
};
use crate::config::{AutoToggleConfig, DEFAULT_DEBOUNCE_MS};
use crate::controller::{
    serials_to_turn_on, string_views, with_controlled, DeviceController,
};
use crate::debounce::{quiet_period_over, DebounceGate};
use crate::device::DeviceInfo;
use crate::error::{app_error, AppError};
use crate::strategies::{create_device_selector, selector_for, AllDevicesStrategy, Selector};

verus! {

/// Why the engine refused a request.
#[derive(Debug, Clone, Copy, PartialEq, Eq, Structural)]
pub enum MonitorError {
    /// Monitoring was requested while auto-toggle is disabled in the configuration.
    ConfigDisabled,
}

impl MonitorError {
    /// A message for the user.
    pub fn message(&self) -> (r: String)
        ensures
            r@ == self.message_view(),
    {
        match self {
            MonitorError::ConfigDisabled => String::from_str(
                "Auto-toggle is disabled in configuration",
            ),
        }
    }

    /// The error reported to the user interface when starting failed.
    pub fn to_app_error(&self) -> (r: AppError)
        ensures
            r.message@ == "Failed to start camera monitoring: "@ + self.message_view(),
            r.error_type@ == "CameraMonitorError"@,
    {
        let message = String::from_str("Failed to start camera monitoring: ").concat(
            self.message().as_str(),
        );
        app_error(message.as_str(), "CameraMonitorError")
    }

    /// The message of this error.
    pub open spec fn message_view(&self) -> Seq<char> {
        match self {
            MonitorError::ConfigDisabled => "Auto-toggle is disabled in configuration"@,
        }
    }
}

/// What the caller has to do after a step of the engine.
#[derive(Debug)]
pub enum MonitorAction {
    /// Nothing.
    Nothing,
    /// List the devices, and turn on those that `devices_to_turn_on` names.
    PowerOnSelected,
    /// Turn off these devices; the engine no longer tracks them.
    PowerOff(Vec<String>),
}

/// The model of a `MonitorAction`.
pub ghost enum ActionView {
    Nothing,
    PowerOnSelected,
    PowerOff(Seq<Seq<char>>),
}

impl View for MonitorAction {
    type V = ActionView;

    open spec fn view(&self) -> ActionView {
        match self {
            MonitorAction::Nothing => ActionView::Nothing,
            MonitorAction::PowerOnSelected => ActionView::PowerOnSelected,
            MonitorAction::PowerOff(v) => ActionView::PowerOff(string_views(v@)),
        }
    }
}

/// The observable state of the engine.
pub ghost struct MonitorState {
    /// Whether a monitoring session is running.
    pub running: bool,
    /// Best-effort number of open capture sessions.
    pub session_count: nat,
    /// Time of the last batch of activity that the quiet period has not yet confirmed.
    pub last_event_time: Option<u64>,
    /// Quiet period of the session, in milliseconds.
    pub debounce_ms: u64,
    /// Serial numbers of the devices the engine turned on.
    pub controlled: Seq<Seq<char>>,
    /// Selection rule of the session.
    pub selector: Selector,
}

/// `start`: a no-op when running; refused when the configuration disables
/// auto-toggle; otherwise a fresh running session with the configured rule.
pub open spec fn start_step(m: MonitorState, config: AutoToggleConfig) -> (MonitorState, Result<
    (),
    MonitorError,
>) {
    if m.running {
        (m, Ok(()))
    } else if !config.enabled {
        (m, Err(MonitorError::ConfigDisabled))
    } else {
        (
            MonitorState {
                running: true,
                session_count: 0,
                last_event_time: None,
                debounce_ms: config.debounce_ms,
                controlled: Seq::empty(),
                selector: selector_for(config.strategy),
            },
            Ok(()),
        )
    }
}

/// `stop`: a no-op when stopped; otherwise the session ends and its count,
/// pending activity and controlled set are cleared.
pub open spec fn stop_step(m: MonitorState) -> (MonitorState, Result<(), MonitorError>) {
    if !m.running {
        (m, Ok(()))
    } else {
        (
            MonitorState {
                running: false,
                session_count: 0,
                last_event_time: None,
                controlled: Seq::empty(),
                ..m
            },
            Ok(()),
        )
    }
}

/// A batch of notifications at time `now`. Ignored when stopped or when no
/// notification concerns a video capture node. Otherwise the count takes the
/// net change, the activity time is `now`, and the transition decides the
/// action: power on the selection, or immediately hand every controlled
/// device back to be turned off.
pub open spec fn events_step(m: MonitorState, events: Seq<DeviceEvent>, now: u64) -> (
    MonitorState,
    ActionView,
) {
    let kinds = video_kinds(events);
    if !m.running || kinds.len() == 0 {
        (m, ActionView::Nothing)
    } else {
        let opens = count_kind(kinds, EventKind::Open);
        let closes = count_kind(kinds, EventKind::Close);
        let count = count_after(m.session_count, opens, closes);
        let counted = MonitorState { session_count: count, last_event_time: Some(now), ..m };
        match transition_of(count, opens, closes) {
            Transition::SessionsActive => (counted, ActionView::PowerOnSelected),
            Transition::NoSessions => (
                MonitorState { controlled: Seq::empty(), ..counted },
                ActionView::PowerOff(m.controlled),
            ),
            Transition::Unchanged => (counted, ActionView::Nothing),
        }
    }
}

/// A tick without notifications at time `now`. When the quiet period since
/// the last activity is over it fires once: with no open session every
/// controlled device is handed back to be turned off; with open sessions
/// nothing is done.
pub open spec fn idle_step(m: MonitorState, now: u64) -> (MonitorState, ActionView) {
    if m.running && quiet_period_over(m.last_event_time, now, m.debounce_ms) {
        let confirmed = MonitorState { last_event_time: None, ..m };
        if m.session_count == 0 {
            (MonitorState { controlled: Seq::empty(), ..confirmed }, ActionView::PowerOff(m.controlled))
        } else {
            (confirmed, ActionView::Nothing)
        }
    } else {
        (m, ActionView::Nothing)
    }
}

/// Whether a batch holds as many opens as closes on video capture nodes.
pub open spec fn is_balanced(events: Seq<DeviceEvent>) -> bool {
    count_kind(video_kinds(events), EventKind::Open) == count_kind(
        video_kinds(events),
        EventKind::Close,
    )
}

/// The state after handing the engine `batches[i]` at `times[i]`, in order,
/// and the actions it returned.
pub open spec fn run_batches(m: MonitorState, batches: Seq<Seq<DeviceEvent>>, times: Seq<u64>) -> (
    MonitorState,
    Seq<ActionView>,
)
    recommends
        batches.len() == times.len(),
    decreases batches.len(),
{
    if batches.len() == 0 {
        (m, Seq::empty())
    } else {
        let (before, actions) = run_batches(m, batches.drop_last(), times.drop_last());
        let (after, action) = events_step(before, batches.last(), times[batches.len() - 1]);
        (after, actions.push(action))
    }
}

/// A batch whose opens and closes cancel out leaves the session count and
/// the controlled set as they were, and asks for no device command.
pub proof fn lemma_balanced_batch_is_silent(m: MonitorState, events: Seq<DeviceEvent>, now: u64)
    requires
        m.session_count <= usize::MAX,
        is_balanced(events),
    ensures
        events_step(m, events, now).0.session_count == m.session_count,
        events_step(m, events, now).0.controlled == m.controlled,
        events_step(m, events, now).1 == ActionView::Nothing,
{
}

/// Batches that each balance their opens and closes leave the session count
/// and the controlled set as they were, and no step asks for a device
/// command. (A running engine reacts to every unbalanced batch, so this
/// needs each batch, not only the whole sequence, to be balanced.)
pub proof fn lemma_balanced_batches_are_silent(
    m: MonitorState,
    batches: Seq<Seq<DeviceEvent>>,
    times: Seq<u64>,
)
    requires
        m.session_count <= usize::MAX,
        batches.len() == times.len(),
        !m.running || forall|i: int| 0 <= i < batches.len() ==> is_balanced(#[trigger] batches[i]),
    ensures
        run_batches(m, batches, times).0.session_count == m.session_count,
        run_batches(m, batches, times).0.controlled == m.controlled,
        run_batches(m, batches, times).0.running == m.running,
        run_batches(m, batches, times).1.len() == batches.len(),
        forall|i: int|
            0 <= i < batches.len() ==> #[trigger] run_batches(m, batches, times).1[i]
                == ActionView::Nothing,
    decreases batches.len(),
{
    if batches.len() > 0 {
        let prefix = batches.drop_last();
        let ptimes = times.drop_last();
        if m.running {
            assert forall|i: int| 0 <= i < prefix.len() implies is_balanced(#[trigger] prefix[i]) by {
                assert(prefix[i] == batches[i]);
            }
            assert(is_balanced(batches[batches.len() - 1]));
        }
        lemma_balanced_batches_are_silent(m, prefix, ptimes);
        let before = run_batches(m, prefix, ptimes).0;
        if m.running {
            lemma_balanced_batch_is_silent(before, batches.last(), times[batches.len() - 1]);
        }
    }
}

/// A batch that brings the session count down to zero hands every
/// controlled device back exactly once, in that single action, and leaves
/// the controlled set empty. Any later deactivation before a device is
/// turned on again, by a batch or by the quiet period, names no device.
pub proof fn lemma_count_reaching_zero_deactivates_once(
    m: MonitorState,
    events: Seq<DeviceEvent>,
    now: u64,
)
    requires
        m.running,
        !is_balanced(events),
        events_step(m, events, now).0.session_count == 0,
    ensures
        events_step(m, events, now).1 == ActionView::PowerOff(m.controlled),
        events_step(m, events, now).0.controlled.len() == 0,
        forall|later: u64| #[trigger]
            idle_step(events_step(m, events, now).0, later).1 matches ActionView::PowerOff(l)
                ==> l.len() == 0,
        forall|next: Seq<DeviceEvent>, later: u64| #[trigger]
            events_step(events_step(m, events, now).0, next, later).1 matches ActionView::PowerOff(
                l,
            ) ==> l.len() == 0,
{
}

/// Every device handed back to be turned off, by a batch or by the quiet
/// period, is one that the engine recorded as turned on by itself.
pub proof fn lemma_only_controlled_devices_are_turned_off(
    m: MonitorState,
    events: Seq<DeviceEvent>,
    now: u64,
)
    ensures
        events_step(m, events, now).1 matches ActionView::PowerOff(l) ==> l == m.controlled,
        idle_step(m, now).1 matches ActionView::PowerOff(l) ==> l == m.controlled,
{
}

/// With an open session the quiet period never turns a device off, however
/// much time has passed.
pub proof fn lemma_quiet_period_keeps_lights_while_in_use(m: MonitorState, now: u64)
    requires
        m.session_count > 0,
    ensures
        idle_step(m, now).1 == ActionView::Nothing,
        idle_step(m, now).0.controlled == m.controlled,
        idle_step(m, now).0.session_count == m.session_count,
{
}

/// Starting twice in a row: the second start succeeds and leaves the
/// session of the first, its controlled set included, as it was.
pub proof fn lemma_start_is_idempotent(m: MonitorState, first: AutoToggleConfig, second: AutoToggleConfig)
    requires
        start_step(m, first).1 is Ok,
    ensures
        start_step(start_step(m, first).0, second) == (start_step(m, first).0, Ok::<
            (),
            MonitorError,
        >(())),
{
}

/// Stopping a stopped engine succeeds and changes nothing.
pub proof fn lemma_stop_when_stopped_is_noop(m: MonitorState)
    requires
        !m.running,
    ensures
        stop_step(m) == (m, Ok::<(), MonitorError>(())),
{
}

/// The engine that turns lights on while a camera is in use.
#[derive(Debug)]
pub struct CameraMonitor {
    is_monitoring: bool,
    activity: ActivityAggregator,
    gate: DebounceGate,
    controller: DeviceController,
    selector: Selector,
}

impl View for CameraMonitor {
    type V = MonitorState;

    closed spec fn view(&self) -> MonitorState {
        MonitorState {
            running: self.is_monitoring,
            session_count: self.activity@,
            last_event_time: self.gate@.last_event_time,
            debounce_ms: self.gate@.debounce_ms,
            controlled: self.controller@,
            selector: self.selector,
        }
    }
}

impl CameraMonitor {
    /// A stopped engine.
    pub fn new() -> (r: CameraMonitor)
        ensures
            !r@.running,
            r@.session_count == 0,
            r@.last_event_time is None,
            r@.debounce_ms == DEFAULT_DEBOUNCE_MS,
            r@.controlled.len() == 0,
    {
        CameraMonitor {
            is_monitoring: false,
            activity: ActivityAggregator::new(),
            gate: DebounceGate::new(DEFAULT_DEBOUNCE_MS),
            controller: DeviceController::new(),
            selector: Selector::AllDevices(AllDevicesStrategy::new()),
        }
    }

    /// Starts a monitoring session with `config`. Starting while running
    /// succeeds and changes nothing.
    pub fn start_monitoring(&mut self, config: AutoToggleConfig) -> (r: Result<(), MonitorError>)
        ensures
            (final(self)@, r) == start_step(old(self)@, config),
    {
        if self.is_monitoring {
            return Ok(());
        }
        if !config.enabled {
            return Err(MonitorError::ConfigDisabled);
        }
        self.activity.reset();
        let _ = self.controller.deactivate_all();
        self.gate = DebounceGate::new(config.debounce_ms);
        self.selector = create_device_selector(&config.strategy);
        self.is_monitoring = true;
        Ok(())
    }

    /// Stops the monitoring session. Stopping while stopped succeeds and
    /// changes nothing. The devices still controlled are not turned off.
    pub fn stop_monitoring(&mut self) -> (r: Result<(), MonitorError>)
        ensures
            (final(self)@, r) == stop_step(old(self)@),
    {
        if !self.is_monitoring {
            return Ok(());
        }
        self.is_monitoring = false;
        self.activity.reset();
        self.gate.clear();
        let _ = self.controller.deactivate_all();
        Ok(())
    }

    /// Whether a monitoring session is running.
    pub fn is_monitoring(&self) -> (r: bool)
        ensures
            r == self@.running,
    {
        self.is_monitoring
    }

    /// The current number of open capture sessions.
    pub fn get_device_count(&self) -> (r: usize)
        ensures
            r as nat == self@.session_count,
    {
        self.activity.session_count()
    }

    /// The serial numbers of the devices the engine turned on.
    pub fn get_controlled_devices(&self) -> (r: Vec<String>)
        ensures
            string_views(r@) == self@.controlled,
    {
        self.controller.controlled_devices()
    }

    /// The quiet period of the session, in milliseconds.
    pub fn debounce_ms(&self) -> (r: u64)
        ensures
            r == self@.debounce_ms,
    {
        self.gate.debounce_ms()
    }

    /// Handles one batch of device-activity notifications received at `now_ms`.
    pub fn process_events(&mut self, events: &Vec<DeviceEvent>, now_ms: u64) -> (r: MonitorAction)
        ensures
            (final(self)@, r@) == events_step(old(self)@, events@, now_ms),
    {
        if !self.is_monitoring {
            return MonitorAction::Nothing;
        }
        let kinds = video_event_kinds(events);
        if kinds.len() == 0 {
            return MonitorAction::Nothing;
        }
        let transition = self.activity.process_video_events(&kinds);
        self.gate.record_activity(now_ms);
        match transition {
            Transition::SessionsActive => MonitorAction::PowerOnSelected,
            Transition::NoSessions => MonitorAction::PowerOff(self.controller.deactivate_all()),
            Transition::Unchanged => MonitorAction::Nothing,
        }
    }

    /// Handles a tick at `now_ms` on which no notification arrived.
    pub fn check_debounce(&mut self, now_ms: u64) -> (r: MonitorAction)
        ensures
            (final(self)@, r@) == idle_step(old(self)@, now_ms),
    {
        if !self.is_monitoring {
            return MonitorAction::Nothing;
        }
        if self.gate.poll_expired(now_ms) {
            self.finalize_device_state()
        } else {
            MonitorAction::Nothing
        }
    }

    /// Confirms the state once the quiet period is over: with no open session
    /// every controlled device is handed back to be turned off.
    fn finalize_device_state(&mut self) -> (r: MonitorAction)
        ensures
            final(self)@ == if old(self)@.session_count == 0 {
                MonitorState { controlled: Seq::empty(), ..old(self)@ }
            } else {
                old(self)@
            },
            r@ == if old(self)@.session_count == 0 {
                ActionView::PowerOff(old(self)@.controlled)
            } else {
                ActionView::Nothing
            },
    {
        if self.activity.session_count() == 0 {
            MonitorAction::PowerOff(self.controller.deactivate_all())
        } else {
            MonitorAction::Nothing
        }
    }

    /// Of the listed devices, the serial numbers of those to turn on: the
    /// session's rule admits them and they are off.
    pub fn devices_to_turn_on(&self, devices: &Vec<DeviceInfo>) -> (r: Vec<String>)
        ensures
            string_views(r@) == serials_to_turn_on(self@.selector, devices@),
    {
        DeviceController::devices_to_turn_on(&self.selector, devices)
    }

    /// Records that the engine turned on the device `serial`.
    pub fn record_turned_on(&mut self, serial: String)
        ensures
            final(self)@ == (MonitorState {
                controlled: with_controlled(old(self)@.controlled, serial@),
                ..old(self)@
            }),
    {
        self.controller.record_turned_on(serial);
    }
}

} // verus!
