use firmware::fields::{CalCtrl, OutputControl, ReadOptions1};
use firmware::mt9m001::{join, split, BusReply, BusRequest, Error, Progress, ADDRESS, MT9M001};
use firmware::registers;

#[test]
fn column_size_two_is_refused() {
    let driver = MT9M001::new();
    assert_eq!(driver.set_column_size(2), Err(Error::Value));
}

#[test]
fn column_size_three_is_accepted() {
    let driver = MT9M001::new();
    assert_eq!(
        driver.set_column_size(3),
        Ok(BusRequest::Store { register: 0x04, high: 0x00, low: 0x03 })
    );
}

#[test]
fn a_column_size_must_be_odd_and_at_least_three() {
    let driver = MT9M001::new();
    for value in [0u16, 1, 2, 4, 6, 1312, 0x7FE, 0xFFFE] {
        assert_eq!(driver.set_column_size(value), Err(Error::Value), "{value}");
    }
    assert_eq!(
        driver.set_column_size(1311),
        Ok(BusRequest::Store { register: 0x04, high: 0x05, low: 0x1F })
    );
    assert_eq!(
        driver.set_column_size(5),
        Ok(BusRequest::Store { register: 0x04, high: 0, low: 5 })
    );
    assert_eq!(
        driver.set_column_size(0xFFFF),
        Ok(BusRequest::Store { register: 0x04, high: 0xFF, low: 0xFF })
    );
    for value in 0..=u16::MAX {
        let accepted = value % 2 == 1 && value >= 3;
        assert_eq!(driver.set_column_size(value).is_ok(), accepted, "{value}");
    }
}

#[test]
fn row_size_one_is_refused() {
    let driver = MT9M001::new();
    assert_eq!(driver.set_row_size(1), Err(Error::Value));
    assert_eq!(driver.set_row_size(0), Err(Error::Value));
}

#[test]
fn row_size_two_is_accepted() {
    let driver = MT9M001::new();
    assert_eq!(
        driver.set_row_size(2),
        Ok(BusRequest::Store { register: 0x03, high: 0x00, low: 0x02 })
    );
}

#[test]
fn horizontal_blanking_above_eleven_bits_is_refused() {
    let driver = MT9M001::new();
    assert_eq!(driver.set_horizontal_blanking(0x800), Err(Error::Value));
    assert_eq!(driver.set_horizontal_blanking(0xFFFF), Err(Error::Value));
}

#[test]
fn horizontal_blanking_of_eleven_bits_is_accepted() {
    let driver = MT9M001::new();
    assert_eq!(
        driver.set_horizontal_blanking(0x7FF),
        Ok(BusRequest::Store { register: 0x05, high: 0x07, low: 0xFF })
    );
}

#[test]
fn vertical_blanking_and_shutter_delay_hold_eleven_bits() {
    let driver = MT9M001::new();
    assert_eq!(driver.set_vertical_blanking(0x800), Err(Error::Value));
    assert_eq!(
        driver.set_vertical_blanking(0x7FF),
        Ok(BusRequest::Store { register: 0x06, high: 0x07, low: 0xFF })
    );
    assert_eq!(driver.set_shutter_delay(0x800), Err(Error::Value));
    assert_eq!(
        driver.set_shutter_delay(0),
        Ok(BusRequest::Store { register: 0x0C, high: 0, low: 0 })
    );
}

#[test]
fn shutter_width_holds_fourteen_bits() {
    let driver = MT9M001::new();
    assert_eq!(driver.set_shutter_width(0x4000), Err(Error::Value));
    assert_eq!(
        driver.set_shutter_width(0x3FFF),
        Ok(BusRequest::Store { register: 0x09, high: 0x3F, low: 0xFF })
    );
    assert_eq!(
        driver.set_shutter_width(0x0419),
        Ok(BusRequest::Store { register: 0x09, high: 0x04, low: 0x19 })
    );
}

#[test]
fn column_start_must_be_even() {
    let driver = MT9M001::new();
    assert_eq!(driver.set_column_start(1), Err(Error::Value));
    assert_eq!(driver.set_column_start(0x7FF), Err(Error::Value));
    assert_eq!(
        driver.set_column_start(20),
        Ok(BusRequest::Store { register: 0x02, high: 0, low: 20 })
    );
}

#[test]
fn a_read_selects_the_register_and_fetches_two_bytes() {
    let driver = MT9M001::new();
    let request = driver.get_chip_version();
    assert_eq!(request, BusRequest::Select { register: 0x00 });
    assert_eq!(request.bytes(), vec![0x00]);
    assert_eq!(request.expects(), 0);
    let progress = driver.resume(request, BusReply::Done);
    assert_eq!(progress, Progress::Request(BusRequest::Fetch));
    assert_eq!(BusRequest::Fetch.bytes(), Vec::<u8>::new());
    assert_eq!(BusRequest::Fetch.expects(), 2);
    let progress = driver.resume(BusRequest::Fetch, BusReply::Data { high: 0x84, low: 0x31 });
    assert_eq!(progress, Progress::Value(0x8431));
}

#[test]
fn a_write_is_one_transfer_of_address_and_value() {
    let driver = MT9M001::new();
    let request = driver.set_global_gain(0x1234);
    assert_eq!(request, BusRequest::Store { register: 0x35, high: 0x12, low: 0x34 });
    assert_eq!(request.bytes(), vec![0x35, 0x12, 0x34]);
    assert_eq!(request.expects(), 0);
    assert_eq!(driver.resume(request, BusReply::Done), Progress::Stored);
    assert_eq!(ADDRESS, 0x5D);
}

#[test]
fn a_failed_write_is_a_write_error() {
    let driver = MT9M001::new();
    let store = driver.set_row_start(7);
    assert_eq!(driver.resume(store, BusReply::Failed), Progress::Failed(Error::I2CWrite));
    let select = driver.get_row_start();
    assert_eq!(driver.resume(select, BusReply::Failed), Progress::Failed(Error::I2CWrite));
}

#[test]
fn a_failed_read_is_a_read_error() {
    let driver = MT9M001::new();
    assert_eq!(
        driver.resume(BusRequest::Fetch, BusReply::Failed),
        Progress::Failed(Error::I2CRead)
    );
    assert_eq!(
        driver.resume(BusRequest::Fetch, BusReply::Done),
        Progress::Failed(Error::I2CRead)
    );
}

#[test]
fn values_are_most_significant_byte_first() {
    assert_eq!(split(0x8431), (0x84, 0x31));
    assert_eq!(split(0x00FF), (0x00, 0xFF));
    assert_eq!(join(0x84, 0x31), 0x8431);
    assert_eq!(join(0xFF, 0x00), 0xFF00);
    for value in [0u16, 1, 255, 256, 0x7FFF, 0xFFFF] {
        let (high, low) = split(value);
        assert_eq!(join(high, low), value);
    }
}

#[test]
fn every_getter_selects_its_register() {
    let d = MT9M001::new();
    let select = |register: u8| BusRequest::Select { register };
    assert_eq!(d.get_u16(0x42), select(0x42));
    assert_eq!(d.get_chip_version(), select(registers::CHIP_VERSION));
    assert_eq!(d.get_row_start(), select(0x01));
    assert_eq!(d.get_column_start(), select(0x02));
    assert_eq!(d.get_row_size(), select(0x03));
    assert_eq!(d.get_column_size(), select(0x04));
    assert_eq!(d.get_horizontal_blanking(), select(0x05));
    assert_eq!(d.get_vertical_blanking(), select(0x06));
    assert_eq!(d.get_output_control(), select(0x07));
    assert_eq!(d.get_shutter_width(), select(0x09));
    assert_eq!(d.get_restart(), select(0x0B));
    assert_eq!(d.get_shutter_delay(), select(0x0C));
    assert_eq!(d.get_reset(), select(0x0D));
    assert_eq!(d.get_read_options_1(), select(0x1E));
    assert_eq!(d.get_read_options_2(), select(0x20));
    assert_eq!(d.get_gain_even_row_even_column(), select(0x2B));
    assert_eq!(d.get_gain_odd_row_even_column(), select(0x2C));
    assert_eq!(d.get_gain_even_row_odd_column(), select(0x2D));
    assert_eq!(d.get_gain_odd_row_odd_column(), select(0x2E));
    assert_eq!(d.get_global_gain(), select(0x35));
    assert_eq!(d.get_cal_threshold(), select(0x5F));
    assert_eq!(d.get_analog_offset_correction_even_row_even_column(), select(0x60));
    assert_eq!(d.get_analog_offset_correction_odd_row_odd_column(), select(0x61));
    assert_eq!(d.get_cal_ctrl(), select(0x62));
    assert_eq!(d.get_analog_offset_correction_even_row_odd_column(), select(0x63));
    assert_eq!(d.get_analog_offset_correction_odd_row_even_column(), select(0x64));
    assert_eq!(d.get_chip_enable(), select(0xF1));
}

#[test]
fn every_plain_setter_stores_to_its_register() {
    let d = MT9M001::new();
    let store = |register: u8| BusRequest::Store { register, high: 0xAB, low: 0xCD };
    assert_eq!(d.set_u16(0x42, 0xABCD), store(0x42));
    assert_eq!(d.set_row_start(0xABCD), store(0x01));
    assert_eq!(d.set_read_options_1(0xABCD), store(0x1E));
    assert_eq!(d.set_read_options_2(0xABCD), store(0x20));
    assert_eq!(d.set_gain_even_row_even_column(0xABCD), store(0x2B));
    assert_eq!(d.set_gain_odd_row_even_column(0xABCD), store(0x2C));
    assert_eq!(d.set_gain_even_row_odd_column(0xABCD), store(0x2D));
    assert_eq!(d.set_gain_odd_row_odd_column(0xABCD), store(0x2E));
    assert_eq!(d.set_global_gain(0xABCD), store(0x35));
    assert_eq!(d.set_cal_threshold(0xABCD), store(0x5F));
    assert_eq!(d.set_analog_offset_correction_even_row_even_column(0xABCD), store(0x60));
    assert_eq!(d.set_analog_offset_correction_odd_row_odd_column(0xABCD), store(0x61));
    assert_eq!(d.set_cal_ctrl(0xABCD), store(0x62));
    assert_eq!(d.set_analog_offset_correction_even_row_odd_column(0xABCD), store(0x63));
    assert_eq!(d.set_analog_offset_correction_odd_row_even_column(0xABCD), store(0x64));
    assert_eq!(d.set_chip_enable(0xABCD), store(0xF1));
}

#[test]
fn restart_and_reset_write_one_bit() {
    let d = MT9M001::new();
    assert_eq!(d.set_restart(), BusRequest::Store { register: 0x0B, high: 0, low: 1 });
    assert_eq!(d.set_reset(true), BusRequest::Store { register: 0x0D, high: 0, low: 1 });
    assert_eq!(d.set_reset(false), BusRequest::Store { register: 0x0D, high: 0, low: 0 });
}

#[test]
fn output_control_places_its_three_bits() {
    let d = MT9M001::new();
    let store = |low: u8| BusRequest::Store { register: 0x07, high: 0, low };
    assert_eq!(d.set_output_control(false, false, false), store(0x00));
    assert_eq!(d.set_output_control(true, false, false), store(0x01));
    assert_eq!(d.set_output_control(false, true, false), store(0x02));
    assert_eq!(d.set_output_control(false, false, true), store(0x40));
    assert_eq!(d.set_output_control(true, true, true), store(0x43));
}

#[test]
fn output_control_fields_are_independent() {
    let power_up = OutputControl::new();
    assert_eq!(power_up.0, 0x0002);
    assert!(power_up.chip_enable());
    assert!(!power_up.synchronize_changes());
    assert!(!power_up.use_test_data());
    let asleep = power_up.set_chip_enable(false);
    assert_eq!(asleep.0, 0x0000);
    let test = power_up.set_use_test_data(true);
    assert_eq!(test.0, 0x0042);
    assert!(test.chip_enable() && test.use_test_data());
    let held = test.set_synchronize_changes(true);
    assert_eq!(held.0, 0x0043);
    assert_eq!(held.set_use_test_data(false).0, 0x0003);
    assert_eq!(OutputControl::from_flags(true, false, true).0, 0x0041);
    let odd = OutputControl(0xFFFF).set_chip_enable(false);
    assert_eq!(odd.0, 0xFFFD);
}

#[test]
fn read_options_and_calibration_control_set_one_bit() {
    let options = ReadOptions1::new();
    assert_eq!(options.0, 0x8000);
    assert!(!options.snapshot_mode());
    let snapshot = options.set_snapshot_mode(true);
    assert_eq!(snapshot.0, 0x8100);
    assert_eq!(snapshot.0, firmware::fields::SNAPSHOT_OPTIONS);
    assert!(snapshot.snapshot_mode());
    assert_eq!(snapshot.set_snapshot_mode(false).0, 0x8000);
    let calibration = CalCtrl::new();
    assert_eq!(calibration.0, 0x0498);
    let manual = calibration.set_manual_override_of_black_level_correction(true);
    assert_eq!(manual.0, 0x0499);
    assert_eq!(manual.0, firmware::fields::MANUAL_CALIBRATION);
    assert!(manual.manual_override_of_black_level_correction());
    assert!(!calibration.manual_override_of_black_level_correction());
}
