use sensor_net::{
    decode_measurement, needs_reset, BusOp, BusOutcome, Dht20, Error, RawReading, SessionStep,
    MEASURE_COMMAND, RAW_MAX, RESET_COMMAND_1, RESET_COMMAND_2, RESET_COMMAND_3,
};

#[test]
fn new_keeps_bus_and_address() {
    let mut sensor = Dht20::new(7u32, 0x38);
    assert_eq!(sensor.address(), 0x38);
    *sensor.bus_mut() = 9;
    assert_eq!(*sensor.bus_mut(), 9);
    assert_eq!(sensor.address(), 0x38);
}

#[test]
fn needs_reset_checks_calibration_bits() {
    assert!(!needs_reset(0x18));
    assert!(!needs_reset(0x1C));
    assert!(!needs_reset(0xFF));
    assert!(!needs_reset(0x98));
    assert!(needs_reset(0x00));
    assert!(needs_reset(0x08));
    assert!(needs_reset(0x10));
    assert!(needs_reset(0xE7));
}

#[test]
fn decode_measurement_exact_values() {
    let r = decode_measurement(&[0x1C, 0x80, 0x00, 0x05, 0x66, 0x66, 0x00, 0x00]);
    assert_eq!(r, RawReading { humidity: 0x80000, temperature: 0x56666 });
    let r = decode_measurement(&[0x1C, 0x12, 0x34, 0x56, 0x78, 0x9A, 0xBC, 0xDE]);
    assert_eq!(r.humidity, 0x12345);
    assert_eq!(r.temperature, 0x6789A);
}

#[test]
fn decode_measurement_stays_within_twenty_bits() {
    let r = decode_measurement(&[0xFF; 8]);
    assert_eq!(r.humidity, RAW_MAX);
    assert_eq!(r.temperature, RAW_MAX);
    let r = decode_measurement(&[0; 8]);
    assert_eq!(r, RawReading { humidity: 0, temperature: 0 });
}

#[test]
fn conversation_without_reset() {
    let sensor = Dht20::new((), 0x38);
    let (mut session, first) = sensor.start_read();
    assert_eq!(first, BusOp::ReadStatus { address: 0x38 });
    assert_eq!(
        session.advance(BusOutcome::Status(0x1C)),
        SessionStep::Issue(BusOp::Write { address: 0x38, bytes: MEASURE_COMMAND })
    );
    assert_eq!(session.advance(BusOutcome::Written), SessionStep::Issue(BusOp::ReadData { address: 0x38 }));
    assert!(!session.is_finished());
    let data = [0x1C, 0x80, 0x00, 0x05, 0x66, 0x66, 0x00, 0x00];
    assert_eq!(
        session.advance(BusOutcome::Data(data)),
        SessionStep::Measured(RawReading { humidity: 0x80000, temperature: 0x56666 })
    );
    assert!(session.is_finished());
}

#[test]
fn conversation_with_reset() {
    let sensor = Dht20::new((), 0x38);
    let (mut session, _) = sensor.start_read();
    let write = |bytes| SessionStep::Issue(BusOp::Write { address: 0x38, bytes });
    assert_eq!(session.advance(BusOutcome::Status(0x08)), write(RESET_COMMAND_1));
    assert_eq!(session.advance(BusOutcome::Written), write(RESET_COMMAND_2));
    assert_eq!(session.advance(BusOutcome::Written), write(RESET_COMMAND_3));
    assert_eq!(session.advance(BusOutcome::Written), write(MEASURE_COMMAND));
    assert_eq!(session.advance(BusOutcome::Written), SessionStep::Issue(BusOp::ReadData { address: 0x38 }));
    let step = session.advance(BusOutcome::Data([0; 8]));
    assert_eq!(step, SessionStep::Measured(RawReading { humidity: 0, temperature: 0 }));
}

#[test]
fn reset_commands_are_the_calibration_registers() {
    assert_eq!(RESET_COMMAND_1, [0x1B, 0, 0]);
    assert_eq!(RESET_COMMAND_2, [0x1C, 0, 0]);
    assert_eq!(RESET_COMMAND_3, [0x1E, 0, 0]);
    assert_eq!(MEASURE_COMMAND, [0xAC, 0x33, 0]);
}

#[test]
fn failed_transaction_aborts() {
    let sensor = Dht20::new((), 0x38);
    let (mut session, _) = sensor.start_read();
    assert_eq!(session.advance(BusOutcome::Status(0x00)), SessionStep::Issue(BusOp::Write { address: 0x38, bytes: RESET_COMMAND_1 }));
    assert_eq!(session.advance(BusOutcome::Failed), SessionStep::Aborted);
    assert!(session.is_finished());
    // An ended conversation stays ended.
    assert_eq!(session.advance(BusOutcome::Written), SessionStep::Aborted);
    assert!(session.is_finished());
}

#[test]
fn unexpected_outcome_aborts() {
    let sensor = Dht20::new((), 0x23);
    let (mut session, _) = sensor.start_read();
    assert_eq!(session.advance(BusOutcome::Written), SessionStep::Aborted);
    assert!(session.is_finished());
}

#[test]
fn conversation_ends_within_six_outcomes() {
    let sensor = Dht20::new((), 0x38);
    let (mut session, _) = sensor.start_read();
    let outcomes = [
        BusOutcome::Status(0),
        BusOutcome::Written,
        BusOutcome::Written,
        BusOutcome::Written,
        BusOutcome::Written,
        BusOutcome::Data([1; 8]),
    ];
    for o in outcomes {
        assert!(!session.is_finished());
        session.advance(o);
    }
    assert!(session.is_finished());
}

#[test]
fn error_variants_format() {
    let a: Error<u8> = Error::I2cError(3);
    let b: Error<u8> = Error::ReadToFast;
    assert_eq!(format!("{:?}", a), "I2cError(3)");
    assert_eq!(format!("{:?}", b), "ReadToFast");
}
