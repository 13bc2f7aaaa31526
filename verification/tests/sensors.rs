use can_node::adc::channel_current_ma;
use can_node::adc::cpu_temperature_deg;
use can_node::adc::next_channel;
use can_node::adc::selector_levels;
use can_node::adc::sense_voltage_mv;
use can_node::adc::vdda_mv;
use can_node::control::clamp_duty_permyriad;
use can_node::control::output_current_ma;
use can_node::control::output_power_mw;
use can_node::hdc1080::Acquisition;
use can_node::hdc1080::Config;
use can_node::hdc1080::DryingHeater;
use can_node::hdc1080::Hdc1080;
use can_node::hdc1080::Humidity;
use can_node::hdc1080::HumidityResolution;
use can_node::hdc1080::Identification;
use can_node::hdc1080::RESET_COMMAND;
use can_node::hdc1080::Register;
use can_node::hdc1080::Temperature;
use can_node::hdc1080::TemperatureResolution;
use can_node::hdc1080::humidity_delay_us;
use can_node::hdc1080::pair_from_be_bytes;
use can_node::hdc1080::read_delay_us;
use can_node::hdc1080::temperature_delay_us;
use can_node::hdc1080::write_register_bytes;
use can_node::hdc1080::write_register_bytes_short;

#[test]
fn config_register_word() {
    let default = Config::default();
    assert_eq!(default.t_resolution, TemperatureResolution::Bits11);
    assert_eq!(default.h_resolution, HumidityResolution::Bits14);
    assert_eq!(default.drying_heater, DryingHeater::Off);
    assert_eq!(default.acquisition, Acquisition::Simultaneous);
    assert_eq!(default.as_bits(), 0x0400);

    let loud = Config {
        t_resolution: TemperatureResolution::Bits11,
        h_resolution: HumidityResolution::Bits8,
        drying_heater: DryingHeater::On,
        acquisition: Acquisition::Separate,
    };
    assert_eq!(loud.as_bits(), 0x3600);

    let quiet = Config {
        t_resolution: TemperatureResolution::Bits14,
        h_resolution: HumidityResolution::Bits14,
        drying_heater: DryingHeater::Off,
        acquisition: Acquisition::Simultaneous,
    };
    assert_eq!(quiet.as_bits(), 0x0000);
}

#[test]
fn drying_heater_from_bool() {
    assert_eq!(DryingHeater::from(true), DryingHeater::On);
    assert_eq!(DryingHeater::from(false), DryingHeater::Off);
    assert!(bool::from(DryingHeater::On));
    assert!(!bool::from(DryingHeater::Off));
}

#[test]
fn acquisition_delays() {
    let config = Config::default();
    assert_eq!(temperature_delay_us(&config), 3650 + 8000);
    assert_eq!(humidity_delay_us(&config), 6450 + 8000);
    // Simultaneous acquisition waits for the slower conversion.
    assert_eq!(read_delay_us(&config), 6450 + 8000);
    let fast = Config {
        t_resolution: TemperatureResolution::Bits14,
        h_resolution: HumidityResolution::Bits8,
        drying_heater: DryingHeater::Off,
        acquisition: Acquisition::Simultaneous,
    };
    assert_eq!(read_delay_us(&fast), 6350 + 8000);
}

#[test]
fn temperature_conversions() {
    let t = Temperature::from_be_bytes(0x60, 0x00);
    assert_eq!(t.degrees(), 21);
    assert_eq!(t.degrees_10(), 218);
    // All-zero raw reading is the bottom of the scale.
    let cold = Temperature::from_be_bytes(0x00, 0x00);
    assert_eq!(cold.degrees(), -40);
    assert_eq!(cold.degrees_10(), -400);
    let hot = Temperature::from_be_bytes(0xFF, 0xFF);
    assert_eq!(hot.degrees(), 124);
    assert_eq!(hot.degrees_10(), 1249);
}

#[test]
fn humidity_conversions() {
    let h = Humidity::from_be_bytes(0x80, 0x00);
    assert_eq!(h.percent(), 50);
    assert_eq!(h.percent_10(), 500);
    let dry = Humidity::from_be_bytes(0x00, 0x00);
    assert_eq!(dry.percent(), 0);
    assert_eq!(dry.percent_10(), 0);
    let wet = Humidity::from_be_bytes(0xFF, 0xFF);
    assert_eq!(wet.percent(), 99);
    assert_eq!(wet.percent_10(), 999);
}

#[test]
fn simultaneous_reading_order() {
    let (t, h) = pair_from_be_bytes([0x60, 0x00, 0x80, 0x00]);
    assert_eq!(t.degrees_10(), 218);
    assert_eq!(h.percent_10(), 500);
}

#[test]
fn identification_parsing() {
    let id = Identification::from_registers([0x5449, 0x1050, 0xAABB, 0xCCDD, 0x00EE]);
    assert_eq!(id.manufacturer, 0x5449);
    assert_eq!(id.product, 0x1050);
    assert_eq!(id.serial, [0xAA, 0xBB, 0xCC, 0xDD, 0xEE]);
    assert!(id.is_valid());

    let wrong = Identification::from_registers([0x1234, 0x1050, 0, 0, 0]);
    assert!(!wrong.is_valid());
    let wrong = Identification::from_registers([0x5449, 0x9999, 0, 0, 0]);
    assert!(!wrong.is_valid());
}

#[test]
fn identification_register_order() {
    let regs = Identification::registers();
    let addrs: Vec<u8> = regs.iter().map(|r| r.addr()).collect();
    assert_eq!(addrs, vec![0xFE, 0xFF, 0xFB, 0xFC, 0xFD]);
}

#[test]
fn register_write_framing() {
    assert_eq!(
        write_register_bytes(Register::Configuration, RESET_COMMAND),
        [0x02, 0x80, 0x00]
    );
    assert_eq!(
        write_register_bytes_short(Register::Configuration, 0x0400),
        [0x02, 0x04]
    );
    assert_eq!(Register::Temperature.addr(), 0x00);
    assert_eq!(Register::Humidity.addr(), 0x01);
}

#[test]
fn driver_configuration_state() {
    // The bus and timer handles are opaque to this logic; unit stand-ins do.
    let mut dev = Hdc1080::new((), ());
    let (_, _, config, dirty) = dev.into_parts();
    assert!(dirty);
    assert_eq!(config, Config::default());

    dev = Hdc1080::new_with_config((), (), Config::default());
    dev.mark_clean();
    dev.set_t_resolution(TemperatureResolution::Bits11);
    let (_, _, _, dirty) = dev.into_parts();
    assert!(!dirty, "setting the resolution it already has stays clean");

    dev = Hdc1080::new_with_config((), (), Config::default());
    dev.mark_clean();
    dev.set_t_resolution(TemperatureResolution::Bits14);
    dev.set_h_resolution(HumidityResolution::Bits8);
    dev.set_drying_heater(DryingHeater::On);
    let (_, _, config, dirty) = dev.into_parts();
    assert!(dirty);
    assert_eq!(config.t_resolution, TemperatureResolution::Bits14);
    assert_eq!(config.h_resolution, HumidityResolution::Bits8);
    assert_eq!(config.drying_heater, DryingHeater::On);
}

#[test]
fn supply_and_temperature_formulas() {
    assert_eq!(vdda_mv(1656, 2048), 2668);
    assert_eq!(vdda_mv(1656, 1656), 3300);
    assert_eq!(cpu_temperature_deg(1000, 3300, 940, 1180), 50);
    assert_eq!(cpu_temperature_deg(940, 3300, 940, 1180), 30);
    // A reading below the 30-degree calibration point lands below it.
    assert_eq!(cpu_temperature_deg(700, 3300, 940, 1180), -50);
}

#[test]
fn sensed_voltage_and_current() {
    assert_eq!(sense_voltage_mv(2048, 3300, 4095), 16500);
    assert_eq!(sense_voltage_mv(0, 3300, 4095), 0);
    assert_eq!(sense_voltage_mv(4095, 3300, 4095), 33000);
    assert_eq!(channel_current_ma(500), 1000);
}

#[test]
fn channel_multiplexing() {
    assert_eq!(selector_levels(0), (false, false));
    assert_eq!(selector_levels(1), (true, false));
    assert_eq!(selector_levels(2), (false, true));
    assert_eq!(selector_levels(3), (true, true));
    assert_eq!(next_channel(0), 1);
    assert_eq!(next_channel(3), 0);
}

#[test]
fn output_rail_math() {
    assert_eq!(output_current_ma(1000), 500);
    assert_eq!(output_current_ma(-999), -499);
    assert_eq!(output_current_ma(-32768), -16384);
    assert_eq!(output_power_mw(5000, 1500), 7500);
    assert_eq!(output_power_mw(-5000, 1500), -7500);
    assert_eq!(output_power_mw(5001, -3), -15);
    assert_eq!(output_power_mw(0, 32767), 0);
}

#[test]
fn duty_clamped_to_actuator_range() {
    assert_eq!(clamp_duty_permyriad(-5), 0);
    assert_eq!(clamp_duty_permyriad(0), 0);
    assert_eq!(clamp_duty_permyriad(4242), 4242);
    assert_eq!(clamp_duty_permyriad(10000), 10000);
    assert_eq!(clamp_duty_permyriad(10001), 10000);
    assert_eq!(clamp_duty_permyriad(i32::MAX), 10000);
    assert_eq!(clamp_duty_permyriad(i32::MIN), 0);
}
