//! Decision logic of the concurrent tasks: shared sensor state, the periodic
//! publisher's mailbox discipline, the receiver/dispatcher, the power-button
//! race and the top-level control loop's per-tick choices.
//!
//! The tasks run cooperatively on one core, so each task's decisions are a
//! function from the state it reads (and the event that woke it) to the next
//! state and the action to perform; the unverified runtime performs the
//! peripheral work and hands the results back.

use vstd::prelude::*;

use crate::codec::BatteryData;
use crate::codec::CanID;
use crate::codec::CanMessage;
use crate::codec::CoolBox;
use crate::codec::PowerOff;
use crate::frame::Frame;
use crate::frame::FrameView;
use crate::frame::IncomingCan;
use crate::frame::OutgoingCan;
use crate::frame::spec_encode_ok;
use crate::frame::spec_try_decode;
use crate::led::Color;

verus! {

/// How long the power button must be held to request shutdown, in ms.
pub const POWER_HOLD_MS: u64 = 1000;

/// Process-wide flags: each written by at most one task kind, read by the
/// top-level control loop, initialized false and never cleared by the tasks
/// that set them.
#[derive(Debug, Clone, Copy, PartialEq, Eq, Structural)]
pub struct Flags {
    /// A peer or the power button requested shutdown; terminal once set.
    pub shutdown: bool,
    /// The delayed power-up timer requested the 12 V rail.
    pub want_12v: bool,
}

impl Flags {
    pub fn new() -> (r: Flags)
        ensures
            !r.shutdown,
            !r.want_12v,
    {
        Flags { shutdown: false, want_12v: false }
    }
}

/// The shared sensor cells: each owned by exactly one producer task and read
/// by any number of consumers. A read never blocks and never sees a torn
/// value; it may lag the producer by up to one sampling period.
#[derive(Debug, Clone, Copy, PartialEq, Eq, Structural)]
pub struct SensorState {
    /// Battery voltage in millivolts; starts at the sentinel `u16::MAX`
    /// until the first sample lands.
    pub battery_voltage_mv: u16,
    /// Control-pin voltage in millivolts.
    pub control_voltage_mv: u16,
    /// Die temperature of the controller in degrees Celsius.
    pub cpu_temperature_deg: i16,
    /// Output rail voltage in millivolts.
    pub output_voltage_mv: i16,
    /// Output rail current in milliamperes.
    pub output_current_ma: i16,
    /// Box temperature in tenths of a degree Celsius.
    pub box_temperature_deg10: i16,
}

impl SensorState {
    pub fn new() -> (r: SensorState)
        ensures
            r.battery_voltage_mv == 0xFFFF,
            r.control_voltage_mv == 0,
            r.cpu_temperature_deg == 0,
            r.output_voltage_mv == 0,
            r.output_current_ma == 0,
            r.box_temperature_deg10 == 200,
    {
        SensorState {
            battery_voltage_mv: 0xFFFF,
            control_voltage_mv: 0,
            cpu_temperature_deg: 0,
            output_voltage_mv: 0,
            output_current_ma: 0,
            box_temperature_deg10: 200,
        }
    }
}

/// The telemetry record the battery publisher builds from the shared cells.
pub open spec fn spec_battery_message(s: SensorState) -> BatteryData {
    BatteryData {
        battery_voltage_mv: s.battery_voltage_mv,
        output_voltage_mv: s.output_voltage_mv,
        output_current_ma: s.output_current_ma,
    }
}

pub fn build_battery_message(s: &SensorState) -> (m: BatteryData)
    ensures
        m == spec_battery_message(*s),
{
    BatteryData {
        battery_voltage_mv: s.battery_voltage_mv,
        output_voltage_mv: s.output_voltage_mv,
        output_current_ma: s.output_current_ma,
    }
}

/// The record the cooler-box publisher builds from the shared cells.
pub open spec fn spec_coolbox_message(s: SensorState) -> CoolBox {
    CoolBox { box_temperature_deg10: s.box_temperature_deg10 }
}

pub fn build_coolbox_message(s: &SensorState) -> (m: CoolBox)
    ensures
        m == spec_coolbox_message(*s),
{
    CoolBox { box_temperature_deg10: s.box_temperature_deg10 }
}

/// The transmit-side mailbox slot: holds the handle of at most one in-flight
/// transmission. Before a new submission, any still-pending one is withdrawn
/// (abort-and-replace), so the bus never queues two stale values of the same
/// message type.
pub struct MailboxSlot {
    pending: Option<u8>,
}

/// What one publish cycle withdraws: exactly what was pending before it.
pub open spec fn spec_cycle_aborted(pending_before: Option<u8>) -> Option<u8> {
    pending_before
}

/// What is pending after one publish cycle: exactly what the hardware
/// accepted in that cycle (nothing, if the submission was refused).
pub open spec fn spec_cycle_pending(accepted: Option<u8>) -> Option<u8> {
    accepted
}

impl MailboxSlot {
    pub closed spec fn spec_pending(self) -> Option<u8> {
        self.pending
    }

    pub fn new() -> (r: MailboxSlot)
        ensures
            r.spec_pending() is None,
    {
        MailboxSlot { pending: None }
    }

    /// Withdraws the pending handle, if any, for the caller to abort.
    pub fn take_pending(&mut self) -> (r: Option<u8>)
        ensures
            r == old(self).spec_pending(),
            final(self).spec_pending() is None,
    {
        self.pending.take()
    }

    /// Records what the hardware accepted for the cycle's submission.
    pub fn record_submission(&mut self, accepted: Option<u8>)
        ensures
            final(self).spec_pending() == spec_cycle_pending(accepted),
    {
        self.pending = accepted;
    }
}

/// One publish cycle's bus work: the handle to abort first (if a previous
/// transmission is still pending), then the frame to submit.
pub struct PublishPlan {
    pub abort_first: Option<u8>,
    pub frame: Frame,
}

/// Plans the battery publisher's cycle: builds the telemetry record from the
/// shared cells, encodes it, and withdraws any pending handle so the caller
/// aborts it before submitting the new frame. Encoding is total for the
/// registered battery type, so a plan always comes back.
pub fn plan_battery_publish(s: &SensorState, slot: &mut MailboxSlot) -> (p: PublishPlan)
    ensures
        p.abort_first == spec_cycle_aborted(old(slot).spec_pending()),
        final(slot).spec_pending() is None,
        p.frame@.id == BatteryData::ID,
        p.frame@.payload == spec_battery_message(*s).spec_encode(),
        p.frame@.wf(),
{
    let msg = build_battery_message(s);
    proof {
        BatteryData::lemma_registered();
        msg.lemma_encode_width();
        assert(spec_encode_ok::<BatteryData>(msg));
    }
    let frame = msg.try_encode().unwrap();
    let abort_first = slot.take_pending();
    PublishPlan { abort_first, frame }
}

/// Plans the cooler-box publisher's cycle; same discipline as the battery
/// publisher.
pub fn plan_coolbox_publish(s: &SensorState, slot: &mut MailboxSlot) -> (p: PublishPlan)
    ensures
        p.abort_first == spec_cycle_aborted(old(slot).spec_pending()),
        final(slot).spec_pending() is None,
        p.frame@.id == CoolBox::ID,
        p.frame@.payload == spec_coolbox_message(*s).spec_encode(),
        p.frame@.wf(),
{
    let msg = build_coolbox_message(s);
    proof {
        CoolBox::lemma_registered();
        msg.lemma_encode_width();
        assert(spec_encode_ok::<CoolBox>(msg));
    }
    let frame = msg.try_encode().unwrap();
    let abort_first = slot.take_pending();
    PublishPlan { abort_first, frame }
}

/// Law (mailbox replacement): over two successive publish cycles, if the
/// hardware accepted the first cycle's submission with handle `h` and no
/// acknowledgment intervened, the second cycle withdraws exactly `h` before
/// its own submission.
pub proof fn lemma_mailbox_replacement(h: u8)
    ensures
        spec_cycle_aborted(spec_cycle_pending(Some(h))) == Some(h),
{
}

/// What the receiver/dispatcher does to the flags for one incoming frame:
/// a frame that decodes as the power-off broadcast sets the shutdown flag;
/// every other frame is ignored. The reaction is idempotent and monotonic.
pub open spec fn spec_handle_frame(flags: Flags, f: FrameView) -> Flags {
    if spec_try_decode::<PowerOff>(f) is Some {
        Flags { shutdown: true, want_12v: flags.want_12v }
    } else {
        flags
    }
}

pub fn handle_frame(frame: &Frame, flags: &mut Flags)
    ensures
        *final(flags) == spec_handle_frame(*old(flags), frame@),
{
    let poweroff: Option<PowerOff> = frame.try_decode();
    if poweroff.is_some() {
        flags.shutdown = true;
    }
}

/// Law: the dispatcher never clears the shutdown flag.
pub proof fn lemma_shutdown_monotonic(flags: Flags, f: FrameView)
    ensures
        flags.shutdown ==> spec_handle_frame(flags, f).shutdown,
{
}

/// Law: dispatching the same frame twice has the effect of dispatching it
/// once.
pub proof fn lemma_dispatch_idempotent(flags: Flags, f: FrameView)
    ensures
        spec_handle_frame(spec_handle_frame(flags, f), f) == spec_handle_frame(flags, f),
{
}

/// Law: a frame whose identifier matches no registered reaction leaves the
/// flags untouched.
pub proof fn lemma_unknown_frame_no_reaction(flags: Flags, f: FrameView)
    ensures
        f.id != PowerOff::ID ==> spec_handle_frame(flags, f) == flags,
{
}

/// What the monitor node shows for one incoming frame.
#[derive(Debug, Clone, Copy, PartialEq, Eq, Structural)]
pub enum MonitorEvent {
    Battery(BatteryData),
    CoolBox(CoolBox),
    Unknown,
}

/// The monitor's dispatch: sequential attempt against each type of interest
/// in a fixed priority order, first match wins; no match is not an error.
pub open spec fn spec_classify_frame(f: FrameView) -> MonitorEvent {
    match spec_try_decode::<BatteryData>(f) {
        Some(b) => MonitorEvent::Battery(b),
        None => match spec_try_decode::<CoolBox>(f) {
            Some(c) => MonitorEvent::CoolBox(c),
            None => MonitorEvent::Unknown,
        },
    }
}

pub fn classify_frame(frame: &Frame) -> (r: MonitorEvent)
    ensures
        r == spec_classify_frame(frame@),
{
    let battery: Option<BatteryData> = frame.try_decode();
    match battery {
        Some(b) => MonitorEvent::Battery(b),
        None => {
            let coolbox: Option<CoolBox> = frame.try_decode();
            match coolbox {
                Some(c) => MonitorEvent::CoolBox(c),
                None => MonitorEvent::Unknown,
            }
        },
    }
}

/// The two ways the power-button wait can resolve: the button was released
/// before the hold threshold, or the threshold timer fired first.
#[derive(Debug, Clone, Copy, PartialEq, Eq, Structural)]
pub enum ButtonRace {
    ReleasedFirst,
    HoldTimeout,
}

/// Which branch of the button-versus-timer race completes first: the release,
/// if it came strictly before the hold threshold, else the timer.
pub fn resolve_button_race(release_after_ms: Option<u64>, hold_threshold_ms: u64) -> (r:
    ButtonRace)
    ensures
        r == ButtonRace::ReleasedFirst <==> (release_after_ms matches Some(t) && t
            < hold_threshold_ms),
{
    match release_after_ms {
        Some(t) => if t < hold_threshold_ms {
            ButtonRace::ReleasedFirst
        } else {
            ButtonRace::HoldTimeout
        },
        None => ButtonRace::HoldTimeout,
    }
}

/// The power-button task's reaction: a hold past the threshold requests
/// shutdown; an early release changes nothing.
pub fn apply_button_outcome(outcome: ButtonRace, flags: &mut Flags)
    ensures
        final(flags).shutdown == (old(flags).shutdown || outcome == ButtonRace::HoldTimeout),
        final(flags).want_12v == old(flags).want_12v,
{
    if outcome == ButtonRace::HoldTimeout {
        flags.shutdown = true;
    }
}

/// The delayed power-up task's single action: request the 12 V rail.
pub fn request_12v(flags: &mut Flags)
    ensures
        final(flags).want_12v,
        final(flags).shutdown == old(flags).shutdown,
{
    flags.want_12v = true;
}

/// The status color for one control-loop tick: blue while the 12 V rail's
/// power-good line is still low, green once it is up.
pub open spec fn spec_status_color(pg_12v_low: bool) -> Color {
    if pg_12v_low {
        Color::Blue
    } else {
        Color::Green
    }
}

/// One top-level control-loop tick: the color to show and whether to drive
/// the 12 V enable line.
pub fn main_loop_tick(flags: &Flags, pg_12v_low: bool) -> (r: (Color, bool))
    ensures
        r.0 == spec_status_color(pg_12v_low),
        r.1 == flags.want_12v,
{
    let color = if pg_12v_low {
        Color::Blue
    } else {
        Color::Green
    };
    (color, flags.want_12v)
}

/// Whether the top-level control loop runs another iteration.
pub fn keep_running(flags: &Flags) -> (r: bool)
    ensures
        r == !flags.shutdown,
{
    !flags.shutdown
}

} // verus!
