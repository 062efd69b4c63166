use hbridge_driver::voltage::target_voltage;
use hbridge_driver::voltage::voltage_code;
use hbridge_driver::voltage::FULL_SPEED;
use hbridge_driver::voltage::MAX_VOLTAGE;
use hbridge_driver::voltage::MIN_VOLTAGE;
use hbridge_driver::voltage::VOLTAGE_STEP;

#[test]
fn constants_are_the_documented_scaling() {
    assert_eq!(MIN_VOLTAGE, 800_000);
    assert_eq!(MAX_VOLTAGE, 5_060_000);
    assert_eq!(VOLTAGE_STEP, 80_300);
    assert_eq!(FULL_SPEED, 1000);
}

#[test]
fn target_voltage_scales_linearly() {
    assert_eq!(target_voltage(0), 800_000);
    assert_eq!(target_voltage(1), 804_260);
    assert_eq!(target_voltage(250), 1_865_000);
    assert_eq!(target_voltage(500), 2_930_000);
    assert_eq!(target_voltage(999), 5_055_740);
    assert_eq!(target_voltage(1000), 5_060_000);
}

#[test]
fn target_voltage_limits_the_speed() {
    assert_eq!(target_voltage(-1), target_voltage(0));
    assert_eq!(target_voltage(i32::MIN), target_voltage(0));
    assert_eq!(target_voltage(1001), target_voltage(1000));
    assert_eq!(target_voltage(100_000), target_voltage(1000));
    assert_eq!(target_voltage(i32::MAX), target_voltage(1000));
}

#[test]
fn voltage_code_rounds_down_to_whole_steps() {
    assert_eq!(voltage_code(800_000), 9);
    assert_eq!(voltage_code(802_999), 9);
    assert_eq!(voltage_code(803_000), 10);
    assert_eq!(voltage_code(2_930_000), 36);
    assert_eq!(voltage_code(4_978_599), 61);
    assert_eq!(voltage_code(4_978_600), 62);
    assert_eq!(voltage_code(5_058_899), 62);
    assert_eq!(voltage_code(5_058_900), 63);
    assert_eq!(voltage_code(5_060_000), 63);
}

#[test]
fn voltage_above_the_maximum_encodes_as_the_maximum() {
    assert_eq!(voltage_code(10_000_000), voltage_code(5_060_000));
    assert_eq!(voltage_code(5_060_001), 63);
    assert_eq!(voltage_code(u32::MAX), 63);
}

#[test]
fn voltage_below_the_minimum_encodes_as_the_minimum() {
    assert_eq!(voltage_code(0), voltage_code(MIN_VOLTAGE));
    assert_eq!(voltage_code(0), 9);
    assert_eq!(voltage_code(799_999), 9);
}

#[test]
fn voltage_code_never_decreases_and_fits_six_bits() {
    let mut previous = voltage_code(0);
    let mut microvolts: u32 = 0;
    while microvolts <= 6_000_000 {
        let code = voltage_code(microvolts);
        assert!(code >= previous);
        assert!((9..=63).contains(&code));
        previous = code;
        microvolts += 1_000;
    }
}
