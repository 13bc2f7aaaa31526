use can_node::cells::latest_visible_index;
use can_node::codec::BatteryData;
use can_node::codec::CanMessage;
use can_node::codec::CoolBox;
use can_node::codec::PowerOff;
use can_node::frame::Frame;
use can_node::frame::IncomingCan;
use can_node::frame::OutgoingCan;
use can_node::led::Color;
use can_node::led::PinLevel;
use can_node::tasks::ButtonRace;
use can_node::tasks::Flags;
use can_node::tasks::MailboxSlot;
use can_node::tasks::MonitorEvent;
use can_node::tasks::POWER_HOLD_MS;
use can_node::tasks::SensorState;
use can_node::tasks::apply_button_outcome;
use can_node::tasks::build_battery_message;
use can_node::tasks::classify_frame;
use can_node::tasks::handle_frame;
use can_node::tasks::keep_running;
use can_node::tasks::main_loop_tick;
use can_node::tasks::plan_battery_publish;
use can_node::tasks::plan_coolbox_publish;
use can_node::tasks::request_12v;
use can_node::tasks::resolve_button_race;

fn poweroff_frame() -> Frame {
    PowerOff.try_encode().unwrap()
}

fn battery_frame() -> Frame {
    BatteryData {
        battery_voltage_mv: 12000,
        output_voltage_mv: 5000,
        output_current_ma: 1500,
    }
    .try_encode()
    .unwrap()
}

#[test]
fn frame_construction() {
    assert!(Frame::new_standard(0x7FF, vec![1, 2, 3]).is_some());
    assert!(Frame::new_standard(0x800, vec![]).is_none());
    assert!(Frame::new_standard(1, vec![0; 9]).is_none());
    let f = Frame::new_standard(0x111, vec![0; 8]).unwrap();
    assert_eq!(f.id(), 0x111);
    assert_eq!(f.data(), &[0u8; 8]);
}

#[test]
fn typed_decode_needs_matching_id_and_length() {
    let f = battery_frame();
    assert_eq!(f.id(), 0x111);
    let b: Option<BatteryData> = f.try_decode();
    assert_eq!(
        b,
        Some(BatteryData {
            battery_voltage_mv: 12000,
            output_voltage_mv: 5000,
            output_current_ma: 1500,
        })
    );
    // Same identifier, wrong width: the codec rejects it.
    let short = Frame::new_standard(0x111, vec![1, 2, 3]).unwrap();
    let b: Option<BatteryData> = short.try_decode();
    assert_eq!(b, None);
    // Valid width, wrong identifier: not this type.
    let other = Frame::new_standard(0x123, vec![0; 6]).unwrap();
    let b: Option<BatteryData> = other.try_decode();
    assert_eq!(b, None);
    let c: Option<CoolBox> = battery_frame().try_decode();
    assert_eq!(c, None);
}

#[test]
fn poweroff_sets_shutdown_and_latches() {
    let mut flags = Flags::new();
    assert!(!flags.shutdown);
    handle_frame(&poweroff_frame(), &mut flags);
    assert!(flags.shutdown);
    // A later unrelated frame leaves the flag set.
    handle_frame(&battery_frame(), &mut flags);
    assert!(flags.shutdown);
    // And a second power-off changes nothing further.
    handle_frame(&poweroff_frame(), &mut flags);
    assert!(flags.shutdown);
    assert!(!flags.want_12v);
}

#[test]
fn unknown_frame_no_reaction() {
    let mut flags = Flags::new();
    let stranger = Frame::new_standard(0x345, vec![7, 7]).unwrap();
    handle_frame(&stranger, &mut flags);
    assert!(!flags.shutdown);
    assert!(!flags.want_12v);
    assert_eq!(classify_frame(&stranger), MonitorEvent::Unknown);
}

#[test]
fn monitor_classifies_frames() {
    let b = classify_frame(&battery_frame());
    assert!(matches!(b, MonitorEvent::Battery(m) if m.battery_voltage_mv == 12000));
    let cool = CoolBox {
        box_temperature_deg10: -15,
    }
    .try_encode()
    .unwrap();
    assert_eq!(
        classify_frame(&cool),
        MonitorEvent::CoolBox(CoolBox {
            box_temperature_deg10: -15
        })
    );
    assert_eq!(classify_frame(&poweroff_frame()), MonitorEvent::Unknown);
}

#[test]
fn mailbox_replacement_across_cycles() {
    let mut sensors = SensorState::new();
    sensors.battery_voltage_mv = 11000;
    let mut slot = MailboxSlot::new();

    // First cycle: nothing pending yet, so nothing to abort.
    let p1 = plan_battery_publish(&sensors, &mut slot);
    assert_eq!(p1.abort_first, None);
    // Hardware accepts the submission into mailbox 2.
    slot.record_submission(Some(2));

    // Second cycle, before any acknowledgment: the plan aborts handle 2.
    sensors.battery_voltage_mv = 11500;
    let p2 = plan_battery_publish(&sensors, &mut slot);
    assert_eq!(p2.abort_first, Some(2));
    // The frame carries the fresher value, not the first cycle's.
    let m: Option<BatteryData> = p2.frame.try_decode();
    assert_eq!(m.unwrap().battery_voltage_mv, 11500);

    // A refused submission leaves nothing to abort next time.
    slot.record_submission(None);
    let p3 = plan_battery_publish(&sensors, &mut slot);
    assert_eq!(p3.abort_first, None);
}

#[test]
fn publisher_encodes_current_state() {
    let mut sensors = SensorState::new();
    sensors.battery_voltage_mv = 12000;
    sensors.output_voltage_mv = 5000;
    sensors.output_current_ma = 1500;
    let mut slot = MailboxSlot::new();
    let p = plan_battery_publish(&sensors, &mut slot);
    assert_eq!(p.frame.id(), 0x111);
    assert_eq!(p.frame.data(), &[0x2E, 0xE0, 0x13, 0x88, 0x05, 0xDC]);
    assert_eq!(
        build_battery_message(&sensors),
        BatteryData {
            battery_voltage_mv: 12000,
            output_voltage_mv: 5000,
            output_current_ma: 1500,
        }
    );

    sensors.box_temperature_deg10 = -40;
    let p = plan_coolbox_publish(&sensors, &mut slot);
    assert_eq!(p.frame.id(), 0x121);
    assert_eq!(p.frame.data(), &[0xFF, 0xD8]);
}

#[test]
fn button_race_decides_shutdown() {
    assert_eq!(
        resolve_button_race(Some(200), POWER_HOLD_MS),
        ButtonRace::ReleasedFirst
    );
    assert_eq!(
        resolve_button_race(Some(POWER_HOLD_MS), POWER_HOLD_MS),
        ButtonRace::HoldTimeout
    );
    assert_eq!(resolve_button_race(None, POWER_HOLD_MS), ButtonRace::HoldTimeout);

    let mut flags = Flags::new();
    apply_button_outcome(ButtonRace::ReleasedFirst, &mut flags);
    assert!(!flags.shutdown);
    apply_button_outcome(ButtonRace::HoldTimeout, &mut flags);
    assert!(flags.shutdown);
    apply_button_outcome(ButtonRace::ReleasedFirst, &mut flags);
    assert!(flags.shutdown);
}

#[test]
fn control_loop_tick_outputs() {
    let mut flags = Flags::new();
    assert!(keep_running(&flags));
    let (color, enable) = main_loop_tick(&flags, true);
    assert_eq!(color, Color::Blue);
    assert!(!enable);
    request_12v(&mut flags);
    let (color, enable) = main_loop_tick(&flags, false);
    assert_eq!(color, Color::Green);
    assert!(enable);
    apply_button_outcome(ButtonRace::HoldTimeout, &mut flags);
    assert!(!keep_running(&flags));
}

#[test]
fn led_levels() {
    assert_eq!(
        Color::Magenta.into_rgb(),
        (PinLevel::Low, PinLevel::High, PinLevel::Low)
    );
    assert_eq!(
        Color::Off.into_rgb(),
        (PinLevel::High, PinLevel::High, PinLevel::High)
    );
    assert_eq!(
        Color::White.into_rgb(),
        (PinLevel::Low, PinLevel::Low, PinLevel::Low)
    );
    assert_eq!(
        Color::Red.into_rgb(),
        (PinLevel::Low, PinLevel::High, PinLevel::High)
    );
}

#[test]
fn reader_observes_recent_store() {
    // Stores complete every 100 time units; each cycle's sample precedes its
    // store by at most one period.
    let writes: Vec<i64> = vec![0, 100, 200, 300];
    // A read at 250 sees the store completed at 200: one period of lag at
    // most, two periods back to that cycle's sample.
    assert_eq!(latest_visible_index(&writes, 250), Some(2));
    assert_eq!(latest_visible_index(&writes, 100), Some(0));
    assert_eq!(latest_visible_index(&writes, 1000), Some(3));
    // Before the first store completes, nothing is visible.
    assert_eq!(latest_visible_index(&writes, 0), None);
}
