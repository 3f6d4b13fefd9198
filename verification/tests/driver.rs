use fhx::CvAddress;
use fhx::CvChannel;
use fhx::Event;
use fhx::FaultPort;
use fhx::Fhx;
use fhx::FhxError;
use fhx::GtAddress;
use fhx::GtChannel;
use fhx::RecordPort;

fn gate_frame(values: u8, suspending: bool) -> Event {
    Event::Frame { b0: 0x04, b1: 0x00, b2: values, b3: 0x00, suspending }
}

fn new_driver() -> Fhx<RecordPort> {
    Fhx::new(RecordPort::new()).unwrap()
}

#[test]
fn init_sweep_writes_four_zero_frames_in_address_order() {
    let driver = new_driver();
    let port = driver.into_port();
    let mut expected = vec![Event::Cs(true)];
    let lines = [(false, false, false), (true, false, false), (false, true, false), (true, true, false)];
    for (a0, a1, a2) in lines {
        expected.push(Event::Addr0(a0));
        expected.push(Event::Addr1(a1));
        expected.push(Event::Addr2(a2));
        expected.push(Event::Cs(false));
        expected.push(gate_frame(0x00, false));
        expected.push(Event::Cs(true));
    }
    assert_eq!(port.events(), &expected);
}

#[test]
fn set_gates_then_gate_high_combines_bits() {
    let mut driver = new_driver();
    driver.set_gates(GtAddress::Gt0, 0b0000_0000).unwrap();
    driver.gate_high(GtAddress::Gt0, GtChannel::Channel1).unwrap();
    driver.gate_high(GtAddress::Gt0, GtChannel::Channel3).unwrap();
    let port = driver.into_port();
    let events = port.events();
    assert_eq!(events[events.len() - 2], gate_frame(0b0000_0101, true));
    assert_eq!(events[events.len() - 8], gate_frame(0b0000_0001, true));
    assert_eq!(events[events.len() - 14], gate_frame(0b0000_0000, true));
}

#[test]
fn set_gates_then_gate_low_clears_only_that_bit() {
    let mut driver = new_driver();
    driver.set_gates(GtAddress::Gt3, 0xFF).unwrap();
    driver.gate_low(GtAddress::Gt3, GtChannel::Channel5).unwrap();
    let port = driver.into_port();
    let events = port.events();
    assert_eq!(events[events.len() - 2], gate_frame(0xEF, true));
}

#[test]
fn gate_low_on_unset_channel_is_a_no_op_on_the_byte() {
    let mut driver = new_driver();
    driver.set_gates(GtAddress::Gt1, 0b1010_0000).unwrap();
    driver.gate_low(GtAddress::Gt1, GtChannel::Channel1).unwrap();
    let port = driver.into_port();
    let events = port.events();
    assert_eq!(events[events.len() - 2], gate_frame(0b1010_0000, true));
}

#[test]
fn gate_channels_map_to_their_bit_positions() {
    let masks = [
        (GtChannel::Channel1, 0x01u8),
        (GtChannel::Channel2, 0x02),
        (GtChannel::Channel3, 0x04),
        (GtChannel::Channel4, 0x08),
        (GtChannel::Channel5, 0x10),
        (GtChannel::Channel6, 0x20),
        (GtChannel::Channel7, 0x40),
        (GtChannel::Channel8, 0x80),
    ];
    for (channel, mask) in masks {
        let mut driver = new_driver();
        driver.set_gates(GtAddress::Gt2, 0x00).unwrap();
        driver.gate_high(GtAddress::Gt2, channel).unwrap();
        let port = driver.into_port();
        let events = port.events();
        assert_eq!(events[events.len() - 2], gate_frame(mask, true));
    }
}

#[test]
fn gate_addresses_assert_their_line_patterns() {
    let lines = [
        (GtAddress::Gt0, (false, false, false)),
        (GtAddress::Gt1, (true, false, false)),
        (GtAddress::Gt2, (false, true, false)),
        (GtAddress::Gt3, (true, true, false)),
    ];
    for (addr, (a0, a1, a2)) in lines {
        let mut driver = new_driver();
        driver.set_gates(addr, 0x42).unwrap();
        let port = driver.into_port();
        let events = port.events();
        let n = events.len();
        assert_eq!(events[n - 6], Event::Addr0(a0));
        assert_eq!(events[n - 5], Event::Addr1(a1));
        assert_eq!(events[n - 4], Event::Addr2(a2));
        assert_eq!(events[n - 3], Event::Cs(false));
        assert_eq!(events[n - 2], gate_frame(0x42, true));
        assert_eq!(events[n - 1], Event::Cs(true));
    }
}

#[test]
fn cv_raw_encodes_value_nibbles_across_the_frame() {
    let mut driver = new_driver();
    driver.set_cv_raw(CvAddress::Cv1, CvChannel::Channel1, 0x0ABC).unwrap();
    let port = driver.into_port();
    let events = port.events();
    let n = events.len();
    assert_eq!(events[n - 6], Event::Addr0(true));
    assert_eq!(events[n - 5], Event::Addr1(false));
    assert_eq!(events[n - 4], Event::Addr2(false));
    assert_eq!(events[n - 3], Event::Cs(false));
    assert_eq!(
        events[n - 2],
        Event::Frame { b0: 0x00, b1: 0xAB, b2: 0xC0, b3: 0x00, suspending: true }
    );
    assert_eq!(events[n - 1], Event::Cs(true));
}

#[test]
fn cv_raw_folds_high_value_bits_into_the_first_byte() {
    let mut driver = new_driver();
    driver.set_cv_raw(CvAddress::Cv2, CvChannel::Channel8, 0x1000).unwrap();
    let port = driver.into_port();
    let events = port.events();
    let n = events.len();
    assert_eq!(events[n - 6], Event::Addr0(false));
    assert_eq!(events[n - 5], Event::Addr1(true));
    assert_eq!(events[n - 4], Event::Addr2(false));
    assert_eq!(
        events[n - 2],
        Event::Frame { b0: 0x11, b1: 0x00, b2: 0x00, b3: 0x00, suspending: true }
    );
}

#[test]
fn cv_raw_mid_value_example() {
    let mut driver = new_driver();
    driver.set_cv_raw(CvAddress::Cv3, CvChannel::Channel2, 0x0123).unwrap();
    let port = driver.into_port();
    let events = port.events();
    assert_eq!(
        events[events.len() - 2],
        Event::Frame { b0: 0x20, b1: 0x12, b2: 0x30, b3: 0x00, suspending: true }
    );
}

#[test]
fn cv_channels_map_to_their_nibble_codes() {
    let codes = [
        (CvChannel::Channel1, 0x00u8),
        (CvChannel::Channel2, 0x20),
        (CvChannel::Channel3, 0x40),
        (CvChannel::Channel4, 0x60),
        (CvChannel::Channel5, 0x70),
        (CvChannel::Channel6, 0x50),
        (CvChannel::Channel7, 0x30),
        (CvChannel::Channel8, 0x10),
    ];
    for (channel, code) in codes {
        let mut driver = new_driver();
        driver.set_cv_raw(CvAddress::Cv1, channel, 0x0000).unwrap();
        let port = driver.into_port();
        let events = port.events();
        assert_eq!(
            events[events.len() - 2],
            Event::Frame { b0: code, b1: 0x00, b2: 0x00, b3: 0x00, suspending: true }
        );
    }
}

#[test]
fn cv_addresses_assert_their_line_patterns() {
    let lines = [
        (CvAddress::Cv1, (true, false, false)),
        (CvAddress::Cv2, (false, true, false)),
        (CvAddress::Cv3, (true, true, false)),
        (CvAddress::Cv4, (false, false, true)),
        (CvAddress::Cv5, (true, false, true)),
        (CvAddress::Cv6, (false, true, true)),
        (CvAddress::Cv7, (true, true, true)),
    ];
    for (addr, (a0, a1, a2)) in lines {
        let mut driver = new_driver();
        driver.set_cv_raw(addr, CvChannel::Channel1, 0x0001).unwrap();
        let port = driver.into_port();
        let events = port.events();
        let n = events.len();
        assert_eq!(events[n - 6], Event::Addr0(a0));
        assert_eq!(events[n - 5], Event::Addr1(a1));
        assert_eq!(events[n - 4], Event::Addr2(a2));
    }
}

#[test]
fn cv_polarity_passes_the_byte_through_on_the_blocking_path() {
    let mut driver = new_driver();
    driver.set_cv_polarity(CvAddress::Cv4, 0x5A).unwrap();
    let port = driver.into_port();
    let events = port.events();
    let n = events.len();
    assert_eq!(events[n - 6], Event::Addr0(false));
    assert_eq!(events[n - 5], Event::Addr1(false));
    assert_eq!(events[n - 4], Event::Addr2(true));
    assert_eq!(events[n - 3], Event::Cs(false));
    assert_eq!(
        events[n - 2],
        Event::Frame { b0: 0x14, b1: 0x00, b2: 0x5A, b3: 0x00, suspending: false }
    );
    assert_eq!(events[n - 1], Event::Cs(true));
}

#[test]
fn every_frame_is_bracketed_by_chip_select() {
    let mut driver = new_driver();
    driver.set_gates(GtAddress::Gt0, 0x13).unwrap();
    driver.gate_high(GtAddress::Gt1, GtChannel::Channel7).unwrap();
    driver.set_cv_raw(CvAddress::Cv5, CvChannel::Channel4, 0x0FFF).unwrap();
    driver.set_cv_polarity(CvAddress::Cv7, 0x01).unwrap();
    driver.gate_low(GtAddress::Gt1, GtChannel::Channel7).unwrap();
    let port = driver.into_port();
    let events = port.events();
    let mut frames = 0;
    for (i, event) in events.iter().enumerate() {
        if let Event::Frame { .. } = event {
            frames += 1;
            assert!(i > 0 && i + 1 < events.len());
            assert_eq!(events[i - 1], Event::Cs(false));
            assert_eq!(events[i + 1], Event::Cs(true));
        }
    }
    assert_eq!(frames, 4 + 5);
}

#[test]
fn set_gates_twice_produces_two_identical_transfers() {
    let mut driver = new_driver();
    driver.set_gates(GtAddress::Gt1, 0xA5).unwrap();
    driver.set_gates(GtAddress::Gt1, 0xA5).unwrap();
    driver.gate_high(GtAddress::Gt1, GtChannel::Channel2).unwrap();
    let port = driver.into_port();
    let events = port.events();
    let n = events.len();
    let second = &events[n - 12..n - 6];
    let first = &events[n - 18..n - 12];
    assert_eq!(first, second);
    assert_eq!(events[n - 8], gate_frame(0xA5, true));
    assert_eq!(events[n - 2], gate_frame(0xA5 | 0x02, true));
}

#[test]
fn failed_bus_write_still_releases_chip_select_and_keeps_the_cache() {
    let mut driver = Fhx::new(FaultPort::new(29)).unwrap();
    let r = driver.set_gates(GtAddress::Gt0, 0xAA);
    assert_eq!(r, Err(FhxError::BusTransfer));
    driver.gate_high(GtAddress::Gt0, GtChannel::Channel1).unwrap();
    let port = driver.into_port();
    let events = port.events();
    assert_eq!(events[28], Event::Cs(false));
    assert_eq!(events[29], gate_frame(0xAA, true));
    assert_eq!(events[30], Event::Cs(true));
    assert_eq!(events[events.len() - 2], gate_frame(0xAB, true));
}

#[test]
fn refused_chip_select_assert_is_released_without_a_frame() {
    let mut driver = Fhx::new(FaultPort::new(28)).unwrap();
    let r = driver.set_gates(GtAddress::Gt1, 0x01);
    assert_eq!(r, Err(FhxError::PinDrive));
    let port = driver.into_port();
    let events = port.events();
    assert_eq!(events.len(), 30);
    assert_eq!(events[28], Event::Cs(false));
    assert_eq!(events[29], Event::Cs(true));
}

#[test]
fn refused_address_line_aborts_before_chip_select() {
    let mut driver = Fhx::new(FaultPort::new(25)).unwrap();
    let r = driver.set_cv_polarity(CvAddress::Cv6, 0x7E);
    assert_eq!(r, Err(FhxError::PinDrive));
    let port = driver.into_port();
    let events = port.events();
    assert_eq!(events.len(), 26);
    assert_eq!(events[25], Event::Addr0(false));
}

#[test]
fn refused_release_after_a_successful_write_reports_the_pin() {
    let mut driver = Fhx::new(FaultPort::new(30)).unwrap();
    let r = driver.set_gates(GtAddress::Gt2, 0x0F);
    assert_eq!(r, Err(FhxError::PinDrive));
    let port = driver.into_port();
    let events = port.events();
    assert_eq!(events[29], gate_frame(0x0F, true));
    assert_eq!(events[30], Event::Cs(true));
}

#[test]
fn construction_failure_is_fatal() {
    let refused_first_frame = Fhx::new(FaultPort::new(5));
    assert_eq!(refused_first_frame.err(), Some(FhxError::BusTransfer));
    let refused_idle_level = Fhx::new(FaultPort::new(0));
    assert_eq!(refused_idle_level.err(), Some(FhxError::PinDrive));
}
