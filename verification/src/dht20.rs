//! The DHT20 temperature/humidity sensor on an I2C bus.
//!
//! A reading is a short conversation with the sensor: read the status byte,
//! re-initialise three calibration registers when the status says the
//! sensor is not calibrated, trigger a measurement, read the eight-byte
//! result and decode it.  The conversation is a state machine here
//! ([`ReadSession`]); whoever owns the bus performs each [`BusOp`] and hands
//! back the [`BusOutcome`].

use vstd::prelude::*;

verus! {

/// Bits of the status byte that are both set once the sensor is calibrated.
pub const STATUS_CALIBRATED_MASK: u8 = 0x18;

/// Command that starts a measurement.
pub const MEASURE_COMMAND: [u8; 3] = [0xAC, 0x33, 0x00];

/// First of the three calibration re-initialisation commands.
pub const RESET_COMMAND_1: [u8; 3] = [0x1B, 0x00, 0x00];

/// Second of the three calibration re-initialisation commands.
pub const RESET_COMMAND_2: [u8; 3] = [0x1C, 0x00, 0x00];

/// Third of the three calibration re-initialisation commands.
pub const RESET_COMMAND_3: [u8; 3] = [0x1E, 0x00, 0x00];

/// Largest value a 20-bit raw field can hold.
pub const RAW_MAX: u32 = 0xF_FFFF;

/// A DHT20 sensor reached through the bus `I2C` at a 7-bit address.
pub struct Dht20<I2C> {
    i2c: I2C,
    address: u8,
}

/// Errors of a sensor read.
#[derive(Debug)]
pub enum Error<E> {
    I2cError(E),
    ReadToFast,
}

/// The two 20-bit fields of a measurement, before scaling.
///
/// Relative humidity in percent is `humidity * 100 / 2^20`; the temperature
/// in degrees Celsius is `temperature * 200 / 2^20 - 50`.
#[derive(Debug, Clone, Copy, PartialEq, Eq, Structural)]
pub struct RawReading {
    pub humidity: u32,
    pub temperature: u32,
}

/// One bus transaction the sensor conversation asks for.
#[derive(Debug, Clone, Copy, PartialEq, Eq)]
pub enum BusOp {
    /// Read the one-byte status register.
    ReadStatus { address: u8 },
    /// Write a three-byte command.
    Write { address: u8, bytes: [u8; 3] },
    /// Read the eight-byte measurement.
    ReadData { address: u8 },
}

/// What came of the last [`BusOp`].
#[derive(Debug, Clone, Copy, PartialEq, Eq)]
pub enum BusOutcome {
    /// The status byte that was read.
    Status(u8),
    /// The eight measurement bytes that were read.
    Data([u8; 8]),
    /// The command was written.
    Written,
    /// The bus reported an error.
    Failed,
}

/// Where a read conversation stands.
#[derive(Debug, Clone, Copy, PartialEq, Eq, Structural)]
pub enum Phase {
    AwaitStatus,
    AwaitReset1,
    AwaitReset2,
    AwaitReset3,
    AwaitTrigger,
    AwaitData,
    Finished,
}

/// What the conversation does after an outcome.
#[derive(Debug, Clone, Copy, PartialEq, Eq)]
pub enum SessionStep {
    /// Perform this bus transaction next.
    Issue(BusOp),
    /// The measurement is complete.
    Measured(RawReading),
    /// The conversation stopped without a measurement.
    Aborted,
}

/// A read conversation with one sensor.
pub struct ReadSession {
    pub address: u8,
    pub phase: Phase,
}

/// Whether a status byte says the calibration registers must be
/// re-initialised: bits 3 and 4 (mask `0x18`) are not both set, that is,
/// the low five bits are below `0x18`.
pub open spec fn spec_needs_reset(status: u8) -> bool {
    status % 32 < 24
}

/// The raw humidity field of a measurement: 20 bits starting at byte 1.
pub open spec fn humidity_raw(data: Seq<u8>) -> int {
    data[1] * 4096 + data[2] * 16 + data[3] / 16
}

/// The raw temperature field of a measurement: the 20 bits ending at byte 5.
pub open spec fn temperature_raw(data: Seq<u8>) -> int {
    (data[3] % 16) * 65536 + data[4] * 256 + data[5]
}

/// The decoded measurement.
pub open spec fn decoded(data: Seq<u8>) -> RawReading {
    RawReading { humidity: humidity_raw(data) as u32, temperature: temperature_raw(data) as u32 }
}

/// One step of the read conversation: the phase after `outcome` and what to do next.
///
/// A failed transaction, or an outcome that does not answer the pending
/// transaction, ends the conversation.
pub open spec fn transition(address: u8, phase: Phase, outcome: BusOutcome) -> (Phase, SessionStep) {
    let write = |bytes: [u8; 3]| SessionStep::Issue(BusOp::Write { address, bytes });
    match (phase, outcome) {
        (Phase::AwaitStatus, BusOutcome::Status(status)) => if spec_needs_reset(status) {
            (Phase::AwaitReset1, write(RESET_COMMAND_1))
        } else {
            (Phase::AwaitTrigger, write(MEASURE_COMMAND))
        },
        (Phase::AwaitReset1, BusOutcome::Written) => (Phase::AwaitReset2, write(RESET_COMMAND_2)),
        (Phase::AwaitReset2, BusOutcome::Written) => (Phase::AwaitReset3, write(RESET_COMMAND_3)),
        (Phase::AwaitReset3, BusOutcome::Written) => (Phase::AwaitTrigger, write(MEASURE_COMMAND)),
        (Phase::AwaitTrigger, BusOutcome::Written) => (
            Phase::AwaitData,
            SessionStep::Issue(BusOp::ReadData { address }),
        ),
        (Phase::AwaitData, BusOutcome::Data(data)) => (
            Phase::Finished,
            SessionStep::Measured(decoded(data@)),
        ),
        _ => (Phase::Finished, SessionStep::Aborted),
    }
}

/// The phase and steps after feeding `outcomes` one by one, starting at `phase`.
pub open spec fn run(address: u8, phase: Phase, outcomes: Seq<BusOutcome>) -> (Phase, Seq<SessionStep>)
    decreases outcomes.len(),
{
    if outcomes.len() == 0 {
        (phase, seq![])
    } else {
        let (next, step) = transition(address, phase, outcomes[0]);
        let (last, rest) = run(address, next, outcomes.drop_first());
        (last, seq![step] + rest)
    }
}

/// The outcomes of a conversation in which every transaction succeeds.
pub open spec fn successful_outcomes(status: u8, data: [u8; 8]) -> Seq<BusOutcome> {
    if spec_needs_reset(status) {
        seq![
            BusOutcome::Status(status),
            BusOutcome::Written,
            BusOutcome::Written,
            BusOutcome::Written,
            BusOutcome::Written,
            BusOutcome::Data(data),
        ]
    } else {
        seq![BusOutcome::Status(status), BusOutcome::Written, BusOutcome::Data(data)]
    }
}

/// The steps of a conversation in which every transaction succeeds.
pub open spec fn successful_steps(address: u8, status: u8, data: [u8; 8]) -> Seq<SessionStep> {
    let write = |bytes: [u8; 3]| SessionStep::Issue(BusOp::Write { address, bytes });
    let resets = if spec_needs_reset(status) {
        seq![write(RESET_COMMAND_1), write(RESET_COMMAND_2), write(RESET_COMMAND_3)]
    } else {
        seq![]
    };
    resets + seq![
        write(MEASURE_COMMAND),
        SessionStep::Issue(BusOp::ReadData { address }),
        SessionStep::Measured(decoded(data@)),
    ]
}

/// How many more outcomes a conversation in `phase` takes at most.
pub open spec fn remaining(phase: Phase) -> nat {
    match phase {
        Phase::AwaitStatus => 6,
        Phase::AwaitReset1 => 5,
        Phase::AwaitReset2 => 4,
        Phase::AwaitReset3 => 3,
        Phase::AwaitTrigger => 2,
        Phase::AwaitData => 1,
        Phase::Finished => 0,
    }
}

/// Feeding one outcome, then the rest.
proof fn lemma_run_cons(address: u8, phase: Phase, outcome: BusOutcome, rest: Seq<BusOutcome>)
    ensures
        run(address, phase, seq![outcome] + rest) == ({
            let (next, step) = transition(address, phase, outcome);
            let (last, steps) = run(address, next, rest);
            (last, seq![step] + steps)
        }),
{
    let all = seq![outcome] + rest;
    assert(all.drop_first() =~= rest);
    assert(all[0] == outcome);
}

/// When every transaction succeeds, a read conversation re-initialises the
/// calibration registers exactly when the status byte asks for it, then
/// triggers a measurement, reads it, and ends with its decoding.
pub proof fn lemma_successful_read(address: u8, status: u8, data: [u8; 8])
    ensures
        run(address, Phase::AwaitStatus, successful_outcomes(status, data)) == (
            Phase::Finished,
            successful_steps(address, status, data),
        ),
{
    let write = |bytes: [u8; 3]| SessionStep::Issue(BusOp::Write { address, bytes });
    let empty = Seq::<BusOutcome>::empty();
    assert(run(address, Phase::Finished, empty) == (Phase::Finished, Seq::<SessionStep>::empty()));
    let o_data = seq![BusOutcome::Data(data)] + empty;
    lemma_run_cons(address, Phase::AwaitData, BusOutcome::Data(data), empty);
    let tail_steps = seq![SessionStep::Measured(decoded(data@))];
    assert(run(address, Phase::AwaitData, o_data) == (Phase::Finished, tail_steps)) by {
        assert(seq![SessionStep::Measured(decoded(data@))] + Seq::<SessionStep>::empty() =~= tail_steps);
    }
    let o_trig = seq![BusOutcome::Written] + o_data;
    lemma_run_cons(address, Phase::AwaitTrigger, BusOutcome::Written, o_data);
    let trig_steps = seq![SessionStep::Issue(BusOp::ReadData { address })] + tail_steps;
    assert(run(address, Phase::AwaitTrigger, o_trig) == (Phase::Finished, trig_steps));
    let measure_steps = seq![write(MEASURE_COMMAND)] + trig_steps;
    assert(measure_steps =~= seq![
        write(MEASURE_COMMAND),
        SessionStep::Issue(BusOp::ReadData { address }),
        SessionStep::Measured(decoded(data@)),
    ]);
    if spec_needs_reset(status) {
        let o_r3 = seq![BusOutcome::Written] + o_trig;
        lemma_run_cons(address, Phase::AwaitReset3, BusOutcome::Written, o_trig);
        let r3_steps = seq![write(MEASURE_COMMAND)] + trig_steps;
        assert(run(address, Phase::AwaitReset3, o_r3) == (Phase::Finished, r3_steps));
        let o_r2 = seq![BusOutcome::Written] + o_r3;
        lemma_run_cons(address, Phase::AwaitReset2, BusOutcome::Written, o_r3);
        let r2_steps = seq![write(RESET_COMMAND_3)] + r3_steps;
        assert(run(address, Phase::AwaitReset2, o_r2) == (Phase::Finished, r2_steps));
        let o_r1 = seq![BusOutcome::Written] + o_r2;
        lemma_run_cons(address, Phase::AwaitReset1, BusOutcome::Written, o_r2);
        let r1_steps = seq![write(RESET_COMMAND_2)] + r2_steps;
        assert(run(address, Phase::AwaitReset1, o_r1) == (Phase::Finished, r1_steps));
        let o_all = seq![BusOutcome::Status(status)] + o_r1;
        lemma_run_cons(address, Phase::AwaitStatus, BusOutcome::Status(status), o_r1);
        let all_steps = seq![write(RESET_COMMAND_1)] + r1_steps;
        assert(run(address, Phase::AwaitStatus, o_all) == (Phase::Finished, all_steps));
        assert(o_all =~= successful_outcomes(status, data));
        assert(all_steps =~= successful_steps(address, status, data));
    } else {
        let o_all = seq![BusOutcome::Status(status)] + o_trig;
        lemma_run_cons(address, Phase::AwaitStatus, BusOutcome::Status(status), o_trig);
        assert(run(address, Phase::AwaitStatus, o_all) == (Phase::Finished, measure_steps));
        assert(o_all =~= successful_outcomes(status, data));
        assert(measure_steps =~= successful_steps(address, status, data));
    }
}

/// Every step of a conversation: a failed transaction ends it without a
/// measurement, an ended conversation stays ended, a live one moves strictly
/// closer to its end (so it takes at most six outcomes), and every
/// transaction it asks for is addressed to its sensor.
pub proof fn lemma_conversation_step(address: u8, phase: Phase, outcome: BusOutcome)
    ensures
        transition(address, phase, BusOutcome::Failed) == (Phase::Finished, SessionStep::Aborted),
        transition(address, Phase::Finished, outcome) == (Phase::Finished, SessionStep::Aborted),
        phase != Phase::Finished ==> remaining(transition(address, phase, outcome).0) < remaining(phase),
        transition(address, phase, outcome).1 matches SessionStep::Issue(op) ==> match op {
            BusOp::ReadStatus { address: a } => a == address,
            BusOp::Write { address: a, .. } => a == address,
            BusOp::ReadData { address: a } => a == address,
        },
{
}

/// The calibration check looks at bits 3 and 4 of the status byte only: a
/// reset is needed exactly when they are not both set, whatever the other
/// bits hold.
pub proof fn lemma_needs_reset_bits(status: u8, other: u8)
    ensures
        spec_needs_reset(status) == (status & 0x18 != 0x18),
        (status & 0x18 == other & 0x18) ==> spec_needs_reset(status) == spec_needs_reset(other),
        spec_needs_reset(status) == !((status & 0x08 != 0) && (status & 0x10 != 0)),
{
    assert((status & 0x18u8 != 0x18u8) == (status % 32 < 24)) by (bit_vector);
    assert((other & 0x18u8 != 0x18u8) == (other % 32 < 24)) by (bit_vector);
    assert((status & 0x18u8 != 0x18u8) == !((status & 0x08u8 != 0u8) && (status & 0x10u8 != 0u8)))
        by (bit_vector);
}

/// After the status byte, the conversation writes the first
/// re-initialisation command `1B 00 00` when bits 3 and 4 of the status are
/// not both set, and the measurement command `AC 33 00` when they are.
pub proof fn lemma_status_step(address: u8, status: u8)
    ensures
        (status & 0x18 != 0x18) ==> transition(address, Phase::AwaitStatus, BusOutcome::Status(status)) == (
            Phase::AwaitReset1,
            SessionStep::Issue(BusOp::Write { address, bytes: [0x1Bu8, 0x00u8, 0x00u8] }),
        ),
        (status & 0x18 == 0x18) ==> transition(address, Phase::AwaitStatus, BusOutcome::Status(status)) == (
            Phase::AwaitTrigger,
            SessionStep::Issue(BusOp::Write { address, bytes: [0xACu8, 0x33u8, 0x00u8] }),
        ),
{
    assert((status & 0x18u8 != 0x18u8) == (status % 32 < 24)) by (bit_vector);
}

/// The rest of a conversation, in the bytes it puts on the bus: after the
/// first re-initialisation command come `1C 00 00`, `1E 00 00` and the
/// measurement command `AC 33 00`; after the measurement command the eight
/// result bytes are read; and those bytes end the conversation with humidity
/// and temperature taken from bytes 1 to 5.
pub proof fn lemma_conversation_commands(address: u8, data: [u8; 8])
    ensures
        transition(address, Phase::AwaitReset1, BusOutcome::Written) == (
            Phase::AwaitReset2,
            SessionStep::Issue(BusOp::Write { address, bytes: [0x1Cu8, 0x00u8, 0x00u8] }),
        ),
        transition(address, Phase::AwaitReset2, BusOutcome::Written) == (
            Phase::AwaitReset3,
            SessionStep::Issue(BusOp::Write { address, bytes: [0x1Eu8, 0x00u8, 0x00u8] }),
        ),
        transition(address, Phase::AwaitReset3, BusOutcome::Written) == (
            Phase::AwaitTrigger,
            SessionStep::Issue(BusOp::Write { address, bytes: [0xACu8, 0x33u8, 0x00u8] }),
        ),
        transition(address, Phase::AwaitTrigger, BusOutcome::Written) == (
            Phase::AwaitData,
            SessionStep::Issue(BusOp::ReadData { address }),
        ),
        transition(address, Phase::AwaitData, BusOutcome::Data(data)).0 == Phase::Finished,
        transition(address, Phase::AwaitData, BusOutcome::Data(data)).1 matches SessionStep::Measured(r)
            && r.humidity == data[1] as int * 4096 + data[2] as int * 16 + (data[3] >> 4u8) as int
            && r.temperature == (data[3] & 0x0Fu8) as int * 65536 + data[4] as int * 256 + data[5] as int,
{
    lemma_decoded_fields(data);
}

/// A measurement's fields are taken straight from the bytes: humidity is
/// byte 1, byte 2 and the high nibble of byte 3, most significant first;
/// temperature is the low nibble of byte 3, byte 4 and byte 5.  Every field
/// value arises from some measurement, and different bytes in those
/// positions give a different field.
pub proof fn lemma_decoded_fields(data: [u8; 8])
    ensures
        decoded(data@).humidity == data[1] as int * 4096 + data[2] as int * 16 + (data[3] >> 4u8) as int,
        decoded(data@).temperature == (data[3] & 0x0Fu8) as int * 65536 + data[4] as int * 256
            + data[5] as int,
        decoded(data@).humidity <= RAW_MAX,
        decoded(data@).temperature <= RAW_MAX,
        decoded(data@).temperature % 256 == data[5],
        (decoded(data@).temperature / 256) % 256 == data[4],
        decoded(data@).temperature / 65536 == data[3] % 16,
        decoded(data@).humidity % 16 == data[3] / 16,
        (decoded(data@).humidity / 16) % 256 == data[2],
        decoded(data@).humidity / 4096 == data[1],
{
    let d3 = data[3];
    assert((d3 >> 4u8) == d3 / 16) by (bit_vector);
    assert((d3 & 0x0Fu8) == d3 % 16) by (bit_vector);
}

impl<I2C> Dht20<I2C> {
    /// The bus the sensor is on.
    pub closed spec fn bus(&self) -> I2C {
        self.i2c
    }

    /// The sensor's address.
    pub closed spec fn spec_address(&self) -> u8 {
        self.address
    }

    /// A sensor at `address` on the bus `i2c`.
    pub fn new(i2c: I2C, address: u8) -> (r: Self)
        ensures
            r.bus() == i2c,
            r.spec_address() == address,
    {
        Self { i2c, address }
    }

    /// The sensor's address.
    pub fn address(&self) -> (r: u8)
        ensures
            r == self.spec_address(),
    {
        self.address
    }

    /// The bus, to perform the transactions of a conversation on.
    pub fn bus_mut(&mut self) -> (r: &mut I2C)
        ensures
            *r == old(self).bus(),
            final(self).bus() == *final(r),
            final(self).spec_address() == old(self).spec_address(),
    {
        &mut self.i2c
    }

    /// Starts a read conversation; the first transaction reads the status byte.
    pub fn start_read(&self) -> (r: (ReadSession, BusOp))
        ensures
            r.0.address == self.spec_address(),
            r.0.phase == Phase::AwaitStatus,
            r.1 == (BusOp::ReadStatus { address: self.spec_address() }),
    {
        (ReadSession { address: self.address, phase: Phase::AwaitStatus }, BusOp::ReadStatus { address: self.address })
    }
}

/// Whether a status byte says the calibration registers must be re-initialised.
pub fn needs_reset(status: u8) -> (r: bool)
    ensures
        r == spec_needs_reset(status),
        r == (status & 0x18 != 0x18),
{
    assert((status & 0x18u8 != 0x18u8) == (status % 32 < 24)) by (bit_vector);
    status & STATUS_CALIBRATED_MASK != STATUS_CALIBRATED_MASK
}

/// Decodes the eight measurement bytes into the raw humidity and temperature.
pub fn decode_measurement(data: &[u8; 8]) -> (r: RawReading)
    ensures
        r.humidity == humidity_raw(data@),
        r.temperature == temperature_raw(data@),
        r.humidity == data[1] as int * 4096 + data[2] as int * 16 + (data[3] >> 4u8) as int,
        r.temperature == (data[3] & 0x0Fu8) as int * 65536 + data[4] as int * 256 + data[5] as int,
        r.humidity <= RAW_MAX,
        r.temperature <= RAW_MAX,
{
    let d1 = data[1];
    let d2 = data[2];
    let d3 = data[3];
    let d4 = data[4];
    let d5 = data[5];
    assert(((d1 as u32) << 8u32) == (d1 as u32) * 256) by (bit_vector);
    let mut raw: u32 = (d1 as u32) << 8;
    raw += d2 as u32;
    assert(raw < 0x10000);
    assert(raw < 0x10000 ==> (raw << 4u32) == raw * 16) by (bit_vector);
    raw <<= 4;
    assert((d3 >> 4u8) == d3 / 16) by (bit_vector);
    raw += (d3 >> 4) as u32;
    let humidity = raw;

    assert((d3 & 0x0Fu8) == d3 % 16) by (bit_vector);
    let mut raw: u32 = (d3 & 0x0F) as u32;
    assert(raw < 16 ==> (raw << 8u32) == raw * 256) by (bit_vector);
    raw <<= 8;
    raw += d4 as u32;
    assert(raw < 0x1000 ==> (raw << 8u32) == raw * 256) by (bit_vector);
    raw <<= 8;
    raw += d5 as u32;
    RawReading { humidity, temperature: raw }
}

impl ReadSession {
    /// Moves the conversation on by the outcome of the last transaction.
    pub fn advance(&mut self, outcome: BusOutcome) -> (r: SessionStep)
        ensures
            final(self).address == old(self).address,
            (final(self).phase, r) == transition(old(self).address, old(self).phase, outcome),
    {
        let address = self.address;
        let (phase, step) = match (self.phase, outcome) {
            (Phase::AwaitStatus, BusOutcome::Status(status)) => if needs_reset(status) {
                (Phase::AwaitReset1, SessionStep::Issue(BusOp::Write { address, bytes: RESET_COMMAND_1 }))
            } else {
                (Phase::AwaitTrigger, SessionStep::Issue(BusOp::Write { address, bytes: MEASURE_COMMAND }))
            },
            (Phase::AwaitReset1, BusOutcome::Written) => (
                Phase::AwaitReset2,
                SessionStep::Issue(BusOp::Write { address, bytes: RESET_COMMAND_2 }),
            ),
            (Phase::AwaitReset2, BusOutcome::Written) => (
                Phase::AwaitReset3,
                SessionStep::Issue(BusOp::Write { address, bytes: RESET_COMMAND_3 }),
            ),
            (Phase::AwaitReset3, BusOutcome::Written) => (
                Phase::AwaitTrigger,
                SessionStep::Issue(BusOp::Write { address, bytes: MEASURE_COMMAND }),
            ),
            (Phase::AwaitTrigger, BusOutcome::Written) => (
                Phase::AwaitData,
                SessionStep::Issue(BusOp::ReadData { address }),
            ),
            (Phase::AwaitData, BusOutcome::Data(data)) => (
                Phase::Finished,
                SessionStep::Measured(decode_measurement(&data)),
            ),
            _ => (Phase::Finished, SessionStep::Aborted),
        };
        self.phase = phase;
        step
    }

    /// Whether the conversation has ended.
    pub fn is_finished(&self) -> (r: bool)
        ensures
            r == (self.phase == Phase::Finished),
    {
        match self.phase {
            Phase::Finished => true,
            _ => false,
        }
    }
}

} // verus!
