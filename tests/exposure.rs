use std::cell::RefCell;
use std::rc::Rc;

use veml6040::{
    assess, calibrate, is_final, AbsoluteMeasurementChannels, AbsoluteMeasurementError,
    AllChannelMeasurement, AutoVeml6040, Error, I2cBus, IntegrationTime, Rejection,
};

#[derive(Default)]
struct State {
    writes: Vec<Vec<u8>>,
    refuse_write_at: Option<usize>,
    counts: [u16; 4],
    fail_reads: bool,
    fail_config_writes: bool,
}

#[derive(Clone, Default)]
struct Bus(Rc<RefCell<State>>);

impl I2cBus for Bus {
    type Error = u8;

    fn write(&mut self, _address: u8, bytes: &[u8]) -> Result<(), u8> {
        let mut st = self.0.borrow_mut();
        st.writes.push(bytes.to_vec());
        if st.refuse_write_at == Some(st.writes.len() - 1) {
            return Err(5);
        }
        if st.fail_config_writes && bytes[1] & 0x04 == 0 {
            Err(3)
        } else {
            Ok(())
        }
    }

    fn write_read(&mut self, _address: u8, bytes: &[u8]) -> Result<[u8; 2], u8> {
        let mut st = self.0.borrow_mut();
        st.writes.push(bytes.to_vec());
        if st.fail_reads {
            return Err(4);
        }
        Ok(st.counts[(bytes[0] - 0x08) as usize].to_le_bytes())
    }
}

fn controller(green: u16) -> (AutoVeml6040<Bus>, Bus) {
    let bus = Bus::default();
    bus.0.borrow_mut().counts = [100, green, 200, 300];
    match AutoVeml6040::new(bus.clone()) {
        Ok(c) => (c, bus),
        Err(_) => panic!("configuration refused"),
    }
}

fn set_green(bus: &Bus, green: u16) {
    bus.0.borrow_mut().counts[1] = green;
}

fn measure(c: &mut AutoVeml6040<Bus>) -> Result<AbsoluteMeasurementChannels, AbsoluteMeasurementError<u8>> {
    c.start_measurement()?;
    c.finish_measurement()
}

/// Brings the controller to `target` by bright or dark readings.
fn move_to(c: &mut AutoVeml6040<Bus>, bus: &Bus, target: IntegrationTime) {
    while c.integration_time() != target {
        let green = if c.integration_time().millis() < target.millis() { 100 } else { 30_000 };
        set_green(bus, green);
        measure(c).unwrap();
    }
}

fn measure_with_retry(
    c: &mut AutoVeml6040<Bus>,
) -> (Result<AbsoluteMeasurementChannels, AbsoluteMeasurementError<u8>>, u32) {
    let mut retries = 0;
    loop {
        let r = measure(c);
        if is_final(&r) {
            return (r, retries);
        }
        retries += 1;
    }
}

#[test]
fn new_enables_and_configures() {
    let (c, bus) = controller(1000);
    assert_eq!(c.integration_time(), IntegrationTime::_160ms);
    assert_eq!(
        bus.0.borrow().writes,
        vec![vec![0x00, 0x00, 0x00], vec![0x00, 0x20, 0x00], vec![0x00, 0x22, 0x00]]
    );
}

#[test]
fn new_fails_on_write_error() {
    let bus = Bus::default();
    bus.0.borrow_mut().fail_config_writes = true;
    let r = AutoVeml6040::new(bus.clone());
    assert!(matches!(r, Err((Error::I2C(3), _))));
    assert_eq!(bus.0.borrow().writes, vec![vec![0x00, 0x00, 0x00]]);
}

#[test]
fn start_returns_waiting_time_and_triggers() {
    let (mut c, bus) = controller(1000);
    assert_eq!(c.start_measurement().unwrap(), 200);
    assert_eq!(bus.0.borrow().writes.last().unwrap(), &vec![0x00, 0x26, 0x00]);
}

#[test]
fn dark_at_longest_is_absolute() {
    let (mut c, bus) = controller(1000);
    move_to(&mut c, &bus, IntegrationTime::_1280ms);
    set_green(&bus, 5);
    assert!(matches!(measure(&mut c), Err(AbsoluteMeasurementError::TooDarkAbsolute)));
    assert_eq!(c.integration_time(), IntegrationTime::_1280ms);
}

#[test]
fn dark_at_shortest_is_relative_and_steps_longer() {
    let (mut c, bus) = controller(1000);
    move_to(&mut c, &bus, IntegrationTime::_40ms);
    set_green(&bus, 5);
    assert!(matches!(measure(&mut c), Err(AbsoluteMeasurementError::TooDarkRelative)));
    assert_eq!(c.integration_time(), IntegrationTime::_80ms);
}

#[test]
fn bright_at_shortest_is_absolute() {
    let (mut c, bus) = controller(1000);
    move_to(&mut c, &bus, IntegrationTime::_40ms);
    set_green(&bus, 65_000);
    assert!(matches!(measure(&mut c), Err(AbsoluteMeasurementError::TooBrightAbsolute)));
    assert_eq!(c.integration_time(), IntegrationTime::_40ms);
}

#[test]
fn bright_elsewhere_is_relative_and_steps_shorter() {
    let (mut c, _bus) = controller(65_000);
    assert!(matches!(measure(&mut c), Err(AbsoluteMeasurementError::TooBrightRelative)));
    assert_eq!(c.integration_time(), IntegrationTime::_80ms);
}

#[test]
fn mid_window_reading_is_accepted_unchanged() {
    let (mut c, bus) = controller(15_000);
    let r = measure(&mut c).unwrap();
    assert_eq!(c.integration_time(), IntegrationTime::_160ms);
    assert_eq!(r.green, 62_920 * 15_000);
    assert_eq!(r, AbsoluteMeasurementChannels {
        red: 62_920 * 100,
        green: 62_920 * 15_000,
        blue: 62_920 * 200,
        white: 62_920 * 300,
    });
    assert_eq!(bus.0.borrow().writes.len(), 3 + 1 + 4);
}

#[test]
fn mid_window_accepted_at_every_setting() {
    let all = [
        IntegrationTime::_40ms,
        IntegrationTime::_80ms,
        IntegrationTime::_160ms,
        IntegrationTime::_320ms,
        IntegrationTime::_640ms,
        IntegrationTime::_1280ms,
    ];
    for it in all.iter() {
        let a = assess(*it, 15_000);
        assert_eq!(a.adjustment, None);
        assert_eq!(a.rejection, None);
    }
}

#[test]
fn soft_dark_boundary_is_exclusive() {
    let (mut c, _bus) = controller(500);
    let r = measure(&mut c).unwrap();
    assert_eq!(c.integration_time(), IntegrationTime::_160ms);
    assert_eq!(r.green, 62_920 * 500);
    assert_eq!(assess(IntegrationTime::_160ms, 499).adjustment, Some(IntegrationTime::_320ms));
}

#[test]
fn soft_bright_boundary_is_exclusive() {
    assert_eq!(assess(IntegrationTime::_160ms, 20_000).adjustment, None);
    assert_eq!(assess(IntegrationTime::_160ms, 20_001).adjustment, Some(IntegrationTime::_80ms));
}

#[test]
fn soft_range_accepts_and_adjusts() {
    let (mut c, _bus) = controller(100);
    let r = measure(&mut c).unwrap();
    assert_eq!(r.green, 62_920 * 100);
    assert_eq!(c.integration_time(), IntegrationTime::_320ms);
    let a = assess(IntegrationTime::_160ms, 30_000);
    assert_eq!(a.adjustment, Some(IntegrationTime::_80ms));
    assert_eq!(a.rejection, None);
}

#[test]
fn hard_boundaries() {
    assert_eq!(assess(IntegrationTime::_160ms, 10).rejection, None);
    assert_eq!(assess(IntegrationTime::_160ms, 9).rejection, Some(Rejection::TooDarkRelative));
    assert_eq!(assess(IntegrationTime::_160ms, 64_000).rejection, None);
    assert_eq!(assess(IntegrationTime::_160ms, 64_001).rejection, Some(Rejection::TooBrightRelative));
    assert_eq!(assess(IntegrationTime::_1280ms, 5).rejection, Some(Rejection::TooDarkAbsolute));
    assert_eq!(assess(IntegrationTime::_40ms, 5).rejection, Some(Rejection::TooDarkRelative));
    assert_eq!(assess(IntegrationTime::_40ms, 5).adjustment, Some(IntegrationTime::_80ms));
    assert_eq!(assess(IntegrationTime::_40ms, 65_535).rejection, Some(Rejection::TooBrightAbsolute));
}

#[test]
fn sensitivity_is_taken_before_adjustment() {
    let (mut c, _bus) = controller(300);
    let r = measure(&mut c).unwrap();
    assert_eq!(c.integration_time(), IntegrationTime::_320ms);
    assert_eq!(r.green, 62_920 * 300);
}

#[test]
fn new_setting_is_written_after_reading() {
    let (mut c, bus) = controller(5);
    assert!(measure(&mut c).is_err());
    let st = bus.0.borrow();
    assert_eq!(st.writes.last().unwrap(), &vec![0x00, 0x32, 0x00]);
    assert_eq!(st.writes[4..8], [vec![0x08], vec![0x09], vec![0x0A], vec![0x0B]]);
}

#[test]
fn read_failure_is_read_error() {
    let (mut c, bus) = controller(5);
    bus.0.borrow_mut().fail_reads = true;
    assert!(matches!(measure(&mut c), Err(AbsoluteMeasurementError::ReadErr(Error::I2C(4)))));
    assert_eq!(c.integration_time(), IntegrationTime::_160ms);
}

#[test]
fn failed_setting_write_is_read_error() {
    let (mut c, bus) = controller(15_000);
    bus.0.borrow_mut().fail_config_writes = true;
    assert!(measure(&mut c).is_ok());
    set_green(&bus, 5);
    assert!(matches!(measure(&mut c), Err(AbsoluteMeasurementError::ReadErr(Error::I2C(3)))));
    assert_eq!(c.integration_time(), IntegrationTime::_320ms);
}

#[test]
fn dark_stream_retries_until_absolute() {
    let (mut c, bus) = controller(1000);
    move_to(&mut c, &bus, IntegrationTime::_40ms);
    set_green(&bus, 3);
    let (r, retries) = measure_with_retry(&mut c);
    assert!(matches!(r, Err(AbsoluteMeasurementError::TooDarkAbsolute)));
    assert_eq!(retries, 5);
    assert_eq!(c.integration_time(), IntegrationTime::_1280ms);
}

#[test]
fn retry_returns_first_success() {
    let (mut c, _bus) = controller(15_000);
    let (r, retries) = measure_with_retry(&mut c);
    assert_eq!(r.unwrap().green, 62_920 * 15_000);
    assert_eq!(retries, 0);
}

#[test]
fn is_final_on_each_outcome() {
    let ok: Result<AbsoluteMeasurementChannels, AbsoluteMeasurementError<u8>> =
        Ok(AbsoluteMeasurementChannels { red: 0, green: 0, blue: 0, white: 0 });
    assert!(is_final(&ok));
    assert!(is_final::<u8>(&Err(AbsoluteMeasurementError::TooDarkAbsolute)));
    assert!(is_final::<u8>(&Err(AbsoluteMeasurementError::TooBrightAbsolute)));
    assert!(is_final::<u8>(&Err(AbsoluteMeasurementError::ReadErr(Error::I2C(1)))));
    assert!(!is_final::<u8>(&Err(AbsoluteMeasurementError::TooDarkRelative)));
    assert!(!is_final::<u8>(&Err(AbsoluteMeasurementError::TooBrightRelative)));
}

#[test]
fn calibrate_scales_every_channel() {
    let m = AllChannelMeasurement { red: 1, green: 2, blue: 3, white: 65_535 };
    let c = calibrate(m, 7_865);
    assert_eq!(c, AbsoluteMeasurementChannels { red: 7_865, green: 15_730, blue: 23_595, white: 7_865 * 65_535 });
}

#[test]
fn rejection_maps_to_error() {
    assert!(matches!(Rejection::TooDarkRelative.to_error::<u8>(), AbsoluteMeasurementError::TooDarkRelative));
    assert!(matches!(Rejection::TooBrightAbsolute.to_error::<u8>(), AbsoluteMeasurementError::TooBrightAbsolute));
}

#[test]
fn new_reports_second_and_third_refused_write() {
    for at in 1..3 {
        let bus = Bus::default();
        bus.0.borrow_mut().refuse_write_at = Some(at);
        let r = AutoVeml6040::new(bus.clone());
        assert!(matches!(r, Err((Error::I2C(5), _))));
        assert_eq!(bus.0.borrow().writes.len(), at + 1);
    }
}

#[test]
fn refused_trigger_is_read_error() {
    let (mut c, bus) = controller(1000);
    bus.0.borrow_mut().refuse_write_at = Some(3);
    assert!(matches!(c.start_measurement(), Err(AbsoluteMeasurementError::ReadErr(Error::I2C(5)))));
    assert_eq!(c.integration_time(), IntegrationTime::_160ms);
}

#[test]
fn read_failure_stops_further_requests() {
    let (mut c, bus) = controller(1000);
    c.start_measurement().unwrap();
    bus.0.borrow_mut().fail_reads = true;
    assert!(matches!(c.finish_measurement(), Err(AbsoluteMeasurementError::ReadErr(Error::I2C(4)))));
    assert_eq!(bus.0.borrow().writes.len(), 5);
}
