//! Driver for the PCA9685, a 16-channel PWM chip on the I2C bus.
//!
//! The driver decides; it does not transfer. Each call returns a
//! [`Progress`]: either the call's result, or the next transfer that the
//! owner of the bus has to perform. [`Progress::resume`] takes the reply to
//! that transfer and gives the `Progress` that follows.

use vstd::prelude::*;
use vstd::std_specs::convert::FromSpecImpl;
use crate::bus::{Command, Fault, Reply};

verus! {

/// The address the chip answers to unless its address pins say otherwise.
pub const PCA9685_DEFAULT_ADDRESS: u16 = 0x60;

/// The first mode register.
pub const MODE1_REG: u8 = 0x00;

/// The clock divider.
pub const PRESCALE_REG: u8 = 0xFE;

/// The first register of channel 0; each channel takes four.
pub const CHANNEL0_REG: u8 = 0x06;

/// Mode bit that stops the oscillator.
pub const SLEEP: u8 = 0x10;

/// Mode bits that restart the outputs, move on to the next register after
/// each byte, and keep the chip on the all-call address.
pub const AUTO_INCREMENT: u8 = 0xa1;

/// An `on` count with this bit set holds the output high all the time.
pub const FULL_ON: u16 = 0x1000;

/// How long the oscillator takes to come up, in milliseconds.
pub const OSCILLATOR_SETTLE_MILLIS: u64 = 5;

/// The smallest value the clock divider takes.
pub const MIN_PRESCALE: u8 = 3;

/// The chip has channels `0..=MAX_CHANNEL`.
pub const MAX_CHANNEL: u8 = 15;

/// Errors when accessing the PCA9685.
#[derive(Debug, PartialEq, Eq)]
pub enum Error {
    /// A transfer on the I2C bus failed.
    I2cError(Fault),
    /// The frequency asked for needs a divider below [`MIN_PRESCALE`], or the
    /// divider read back was zero.
    FrequencyError,
    /// The channel is not one of the chip's sixteen.
    ChannelError(u8),
}

impl From<Fault> for Error {
    fn from(err: Fault) -> (e: Error) {
        Error::I2cError(err)
    }
}

impl FromSpecImpl<Fault> for Error {
    open spec fn obeys_from_spec() -> bool {
        true
    }

    open spec fn from_spec(err: Fault) -> Error {
        Error::I2cError(err)
    }
}

/// What a finished call returns.
#[derive(Clone, Copy, Debug, PartialEq, Eq)]
pub enum Value {
    /// Nothing: the call only wrote.
    Unit,
    /// A register's content.
    Byte(u8),
    /// A PWM frequency in hertz.
    Frequency(u32),
    /// The tick at which a channel turns on and the tick at which it turns off.
    Pwm(u16, u16),
    /// A channel's duty cycle, 0 to 0xffff.
    DutyCycle(u16),
    /// A stepper's position in micro-steps.
    Position(i64),
}

/// What a pending read is for.
#[derive(Clone, Copy, Debug, PartialEq, Eq)]
pub enum Purpose {
    /// The mode is what the caller asked for.
    Mode1,
    /// The divider is what the caller asked for.
    Prescale,
    /// The divider gives the frequency of a chip clocked at `clock` hertz.
    Frequency { clock: u32 },
    /// The mode is needed to put the chip to sleep and set the divider to
    /// `prescale`.
    Retune { prescale: u8 },
    /// The mode is needed to switch auto-increment on.
    Autoincrement,
    /// The four bytes at `register` are a channel's on and off ticks.
    Pwm { register: u8 },
    /// The four bytes at `register` give a channel's duty cycle.
    DutyCycle { register: u8 },
}

/// Where a driver call stands.
#[derive(Debug, PartialEq, Eq)]
pub enum Progress {
    /// The call is over, with this result. No transfer is pending.
    Finished(Result<Value, Error>),
    /// The command is to be performed; once it went through, the call goes on
    /// as the second field says.
    Perform(Command, Box<Progress>),
    /// The read that the purpose names is to be performed; what follows
    /// depends on what is read.
    Read(Purpose),
}

/// The register at which the four bytes of channel `chan` start.
pub open spec fn channel_register(chan: u8) -> u8 {
    (CHANNEL0_REG + 4 * chan) as u8
}

/// `on` and `off` as the chip stores them: low byte first, `on` first.
pub open spec fn pack(on: u16, off: u16) -> [u8; 4] {
    [(on % 256) as u8, (on / 256) as u8, (off % 256) as u8, (off / 256) as u8]
}

/// The on and off ticks that four bytes of the chip stand for.
pub open spec fn unpack(data: [u8; 4]) -> (u16, u16) {
    ((data@[1] * 256 + data@[0]) as u16, (data@[3] * 256 + data@[2]) as u16)
}

/// The on and off ticks for a duty cycle: `0xffff` is full on, every other
/// value loses its four low bits after one is added.
pub open spec fn duty_to_pwm(value: u16) -> (u16, u16) {
    if value == 0xffff {
        (FULL_ON, 0u16)
    } else {
        (0u16, ((value + 1) / 16) as u16)
    }
}

/// The duty cycle that on and off ticks stand for: `0xffff` if `on` is
/// exactly [`FULL_ON`], else `off` shifted left by four within sixteen bits.
pub open spec fn pwm_to_duty(on: u16, off: u16) -> u16 {
    if on == FULL_ON {
        0xffffu16
    } else {
        ((off * 16) % 0x1_0000) as u16
    }
}

/// The divider for `hz` hertz on a chip clocked at `clock` hertz:
/// `clock / (4096 * hz)` rounded to the nearest integer, halves upwards, and
/// no more than 255. For zero hertz it is 255.
pub open spec fn prescale_for(clock: u32, hz: u32) -> int {
    if hz == 0 {
        255
    } else {
        let nearest = (2 * clock + 4096 * hz) / (8192 * hz);
        if nearest > 255 {
            255
        } else {
            nearest
        }
    }
}

/// The frequency that a divider gives on a chip clocked at `clock` hertz.
pub open spec fn frequency_for(clock: int, prescale: int) -> int {
    (clock / 4096) / prescale
}

/// The mode with the sleep bit set and the restart bit clear.
pub open spec fn asleep(mode: u8) -> u8 {
    (mode & 0x7F) | SLEEP
}

/// The mode with the sleep bit clear.
pub open spec fn awake(mode: u8) -> u8 {
    mode & !SLEEP
}

/// The two registers that a change of the divider touches, as a model for
/// what the driver's transfers do to the chip.
pub struct Registers {
    pub mode1: u8,
    pub prescale: u8,
}

/// The registers after `command` got `reply`: a write that went through is
/// in its register, and nothing else changes them.
pub open spec fn registers_after(registers: Registers, command: Command, reply: Reply) -> Registers {
    match (command, reply) {
        (Command::WriteByte { register, value }, Reply::Done) => if register == MODE1_REG {
            Registers { mode1: value, prescale: registers.prescale }
        } else if register == PRESCALE_REG {
            Registers { mode1: registers.mode1, prescale: value }
        } else {
            registers
        },
        _ => registers,
    }
}

/// The plan of a call that only has to perform `command`.
pub open spec fn single(command: Command) -> Progress {
    Progress::Perform(command, Box::new(Progress::Finished(Ok(Value::Unit))))
}

/// The plan that changes the divider of a chip whose mode is `mode`: put
/// it to sleep, write the divider, wake it, let the oscillator settle, then
/// switch auto-increment on.
pub open spec fn retune_plan(mode: u8, prescale: u8) -> Progress {
    Progress::Perform(
        Command::WriteByte { register: MODE1_REG, value: asleep(mode) },
        Box::new(
            Progress::Perform(
                Command::WriteByte { register: PRESCALE_REG, value: prescale },
                Box::new(
                    Progress::Perform(
                        Command::WriteByte { register: MODE1_REG, value: awake(mode) },
                        Box::new(
                            Progress::Perform(
                                Command::Settle { millis: OSCILLATOR_SETTLE_MILLIS },
                                Box::new(
                                    single(
                                        Command::WriteByte {
                                            register: MODE1_REG,
                                            value: awake(mode) | AUTO_INCREMENT,
                                        },
                                    ),
                                ),
                            ),
                        ),
                    ),
                ),
            ),
        ),
    )
}

/// The plan that sets channel `chan` to the ticks `on` and `off`.
pub open spec fn pwm_plan(chan: u8, on: u16, off: u16) -> Progress {
    if chan > MAX_CHANNEL {
        Progress::Finished(Err(Error::ChannelError(chan)))
    } else {
        single(Command::WriteBlock { register: channel_register(chan), data: pack(on, off) })
    }
}

/// The plan that sets channel `chan` to the duty cycle `value`.
pub open spec fn duty_cycle_plan(chan: u8, value: u16) -> Progress {
    pwm_plan(chan, duty_to_pwm(value).0, duty_to_pwm(value).1)
}

impl Purpose {
    /// The read that serves this purpose.
    pub open spec fn read(self) -> Command {
        match self {
            Purpose::Mode1 | Purpose::Retune { .. } | Purpose::Autoincrement => Command::ReadByte {
                register: MODE1_REG,
            },
            Purpose::Prescale | Purpose::Frequency { .. } => Command::ReadByte {
                register: PRESCALE_REG,
            },
            Purpose::Pwm { register } | Purpose::DutyCycle { register } => Command::ReadBlock {
                register,
            },
        }
    }

    /// How the call goes on once `byte` was read. A purpose that reads four
    /// bytes keeps waiting.
    pub open spec fn given_byte(self, byte: u8) -> Progress {
        match self {
            Purpose::Mode1 | Purpose::Prescale => Progress::Finished(Ok(Value::Byte(byte))),
            Purpose::Frequency { clock } => if byte == 0 {
                Progress::Finished(Err(Error::FrequencyError))
            } else {
                Progress::Finished(
                    Ok(Value::Frequency(frequency_for(clock as int, byte as int) as u32)),
                )
            },
            Purpose::Retune { prescale } => retune_plan(byte, prescale),
            Purpose::Autoincrement => single(
                Command::WriteByte { register: MODE1_REG, value: byte | AUTO_INCREMENT },
            ),
            Purpose::Pwm { .. } | Purpose::DutyCycle { .. } => Progress::Read(self),
        }
    }

    /// How the call goes on once `data` was read. A purpose that reads one
    /// byte keeps waiting.
    pub open spec fn given_block(self, data: [u8; 4]) -> Progress {
        match self {
            Purpose::Pwm { .. } => Progress::Finished(
                Ok(Value::Pwm(unpack(data).0, unpack(data).1)),
            ),
            Purpose::DutyCycle { .. } => Progress::Finished(
                Ok(Value::DutyCycle(pwm_to_duty(unpack(data).0, unpack(data).1))),
            ),
            _ => Progress::Read(self),
        }
    }

    /// The read that serves this purpose.
    pub fn command(&self) -> (command: Command)
        ensures
            command == self.read(),
    {
        match self {
            Purpose::Mode1 | Purpose::Retune { .. } | Purpose::Autoincrement => Command::ReadByte {
                register: MODE1_REG,
            },
            Purpose::Prescale | Purpose::Frequency { .. } => Command::ReadByte {
                register: PRESCALE_REG,
            },
            Purpose::Pwm { register } | Purpose::DutyCycle { register } => Command::ReadBlock {
                register: *register,
            },
        }
    }
}

impl Progress {
    /// The transfer this call waits for, if it is not over.
    pub open spec fn pending(self) -> Option<Command> {
        match self {
            Progress::Finished(_) => None,
            Progress::Perform(command, _) => Some(command),
            Progress::Read(purpose) => Some(purpose.read()),
        }
    }

    /// Where the call stands after `reply`. A finished call stays as it is,
    /// and so does one that gets a reply which its pending transfer cannot
    /// have brought. A failure ends the call with the fault. Otherwise the
    /// call moves on.
    pub open spec fn next(self, reply: Reply) -> Progress {
        match self {
            Progress::Finished(_) => self,
            Progress::Perform(command, rest) => match reply {
                Reply::Failed(fault) => Progress::Finished(Err(Error::I2cError(fault))),
                _ => if reply.answers(command) {
                    *rest
                } else {
                    self
                },
            },
            Progress::Read(purpose) => match reply {
                Reply::Failed(fault) => Progress::Finished(Err(Error::I2cError(fault))),
                Reply::Byte(byte) => purpose.given_byte(byte),
                Reply::Block(data) => purpose.given_block(data),
                Reply::Done => self,
            },
        }
    }

    /// This plan with `rest` in place of its good end: the transfers of this
    /// plan, then, if they all went through, `rest`. A plan that ends in an
    /// error or waits for a read has no good end and stays as it is.
    pub open spec fn followed_by(self, rest: Progress) -> Progress
        decreases self,
    {
        match self {
            Progress::Finished(Ok(_)) => rest,
            Progress::Finished(Err(_)) => self,
            Progress::Perform(command, tail) => Progress::Perform(
                command,
                Box::new(tail.followed_by(rest)),
            ),
            Progress::Read(_) => self,
        }
    }

    /// The most transfers that the call can still ask for.
    pub open spec fn transfers_left(self) -> nat
        decreases self,
    {
        match self {
            Progress::Finished(_) => 0,
            Progress::Perform(_, rest) => 1 + rest.transfers_left(),
            Progress::Read(Purpose::Retune { .. }) => 6,
            Progress::Read(Purpose::Autoincrement) => 2,
            Progress::Read(_) => 1,
        }
    }

    /// The transfer to perform now, or `None` when the call is over.
    pub fn command(&self) -> (command: Option<Command>)
        ensures
            command == self.pending(),
    {
        match self {
            Progress::Finished(_) => None,
            Progress::Perform(command, _) => Some(*command),
            Progress::Read(purpose) => Some(purpose.command()),
        }
    }

    /// Takes the reply to the pending transfer and moves the call on.
    pub fn resume(self, reply: Reply) -> (progress: Progress)
        ensures
            progress == self.next(reply),
    {
        match self {
            Progress::Finished(result) => Progress::Finished(result),
            Progress::Perform(command, rest) => match reply {
                Reply::Failed(fault) => Progress::Finished(Err(Error::from(fault))),
                Reply::Done => if is_read(&command) {
                    Progress::Perform(command, rest)
                } else {
                    *rest
                },
                Reply::Byte(_) => if is_byte_read(&command) {
                    *rest
                } else {
                    Progress::Perform(command, rest)
                },
                Reply::Block(_) => if is_block_read(&command) {
                    *rest
                } else {
                    Progress::Perform(command, rest)
                },
            },
            Progress::Read(purpose) => match reply {
                Reply::Failed(fault) => Progress::Finished(Err(Error::from(fault))),
                Reply::Byte(byte) => after_byte(purpose, byte),
                Reply::Block(data) => after_block(purpose, data),
                Reply::Done => Progress::Read(purpose),
            },
        }
    }

    /// Joins two plans: the transfers of this one, then, if they all went
    /// through, those of `rest`.
    pub fn chain(self, rest: Progress) -> (progress: Progress)
        ensures
            progress == self.followed_by(rest),
        decreases self,
    {
        match self {
            Progress::Finished(Ok(_)) => rest,
            Progress::Finished(Err(e)) => Progress::Finished(Err(e)),
            Progress::Perform(command, tail) => {
                let joined = (*tail).chain(rest);
                Progress::Perform(command, Box::new(joined))
            },
            Progress::Read(purpose) => Progress::Read(purpose),
        }
    }

    /// The result of a call that is over.
    pub fn result(self) -> (result: Option<Result<Value, Error>>)
        ensures
            result == (match self {
                Progress::Finished(r) => Some(r),
                _ => None,
            }),
    {
        match self {
            Progress::Finished(r) => Some(r),
            _ => None,
        }
    }
}

fn is_byte_read(command: &Command) -> (b: bool)
    ensures
        b == command.reads_byte(),
{
    match command {
        Command::ReadByte { .. } => true,
        _ => false,
    }
}

fn is_block_read(command: &Command) -> (b: bool)
    ensures
        b == command.reads_block(),
{
    match command {
        Command::ReadBlock { .. } => true,
        _ => false,
    }
}

fn is_read(command: &Command) -> (b: bool)
    ensures
        b == (command.reads_byte() || command.reads_block()),
{
    is_byte_read(command) || is_block_read(command)
}

/// A plan of one command.
fn just(command: Command) -> (progress: Progress)
    ensures
        progress == single(command),
{
    Progress::Perform(command, Box::new(Progress::Finished(Ok(Value::Unit))))
}

/// The four bytes that hold `on` and `off`.
pub fn pack_pwm(on: u16, off: u16) -> (data: [u8; 4])
    ensures
        data == pack(on, off),
{
    [(on % 256) as u8, (on / 256) as u8, (off % 256) as u8, (off / 256) as u8]
}

/// The on and off ticks that `data` holds.
pub fn unpack_pwm(data: [u8; 4]) -> (pwm: (u16, u16))
    ensures
        pwm == unpack(data),
{
    let on: u16 = (data[1] as u16) * 256 + (data[0] as u16);
    let off: u16 = (data[3] as u16) * 256 + (data[2] as u16);
    (on, off)
}

/// The duty cycle that the ticks `on` and `off` stand for.
pub fn duty_cycle_of(on: u16, off: u16) -> (value: u16)
    ensures
        value == pwm_to_duty(on, off),
{
    if on == FULL_ON {
        0xffff
    } else {
        (off % 4096) * 16
    }
}

/// The ticks that stand for the duty cycle `value`.
pub fn pwm_of(value: u16) -> (pwm: (u16, u16))
    ensures
        pwm == duty_to_pwm(value),
{
    if value == 0xffff {
        (FULL_ON, 0)
    } else {
        (0, (value + 1) / 16)
    }
}

/// The divider for `hz` hertz on a chip clocked at `clock` hertz.
pub fn prescale(clock: u32, hz: u32) -> (divider: u8)
    ensures
        divider == prescale_for(clock, hz),
{
    if hz == 0 {
        255
    } else {
        let numerator: u64 = 2 * (clock as u64) + 4096 * (hz as u64);
        let denominator: u64 = 8192 * (hz as u64);
        let nearest: u64 = numerator / denominator;
        if nearest > 255 {
            255
        } else {
            nearest as u8
        }
    }
}

fn retune(mode: u8, prescale: u8) -> (progress: Progress)
    ensures
        progress == retune_plan(mode, prescale),
{
    let wake: u8 = mode & !SLEEP;
    let last = just(Command::WriteByte { register: MODE1_REG, value: wake | AUTO_INCREMENT });
    let settle = Progress::Perform(
        Command::Settle { millis: OSCILLATOR_SETTLE_MILLIS },
        Box::new(last),
    );
    let restore = Progress::Perform(
        Command::WriteByte { register: MODE1_REG, value: wake },
        Box::new(settle),
    );
    let divide = Progress::Perform(
        Command::WriteByte { register: PRESCALE_REG, value: prescale },
        Box::new(restore),
    );
    Progress::Perform(
        Command::WriteByte { register: MODE1_REG, value: (mode & 0x7F) | SLEEP },
        Box::new(divide),
    )
}

fn after_byte(purpose: Purpose, byte: u8) -> (progress: Progress)
    ensures
        progress == purpose.given_byte(byte),
{
    match purpose {
        Purpose::Mode1 | Purpose::Prescale => Progress::Finished(Ok(Value::Byte(byte))),
        Purpose::Frequency { clock } => if byte == 0 {
            Progress::Finished(Err(Error::FrequencyError))
        } else {
            Progress::Finished(Ok(Value::Frequency((clock / 4096) / (byte as u32))))
        },
        Purpose::Retune { prescale } => retune(byte, prescale),
        Purpose::Autoincrement => just(
            Command::WriteByte { register: MODE1_REG, value: byte | AUTO_INCREMENT },
        ),
        Purpose::Pwm { .. } | Purpose::DutyCycle { .. } => Progress::Read(purpose),
    }
}

fn after_block(purpose: Purpose, data: [u8; 4]) -> (progress: Progress)
    ensures
        progress == purpose.given_block(data),
{
    match purpose {
        Purpose::Pwm { .. } => {
            let (on, off) = unpack_pwm(data);
            Progress::Finished(Ok(Value::Pwm(on, off)))
        },
        Purpose::DutyCycle { .. } => {
            let (on, off) = unpack_pwm(data);
            Progress::Finished(Ok(Value::DutyCycle(duty_cycle_of(on, off))))
        },
        _ => Progress::Read(purpose),
    }
}

/// Checks that the chip has a channel `chan`: valid channels are 0 to 15.
pub fn channel_in_range(chan: u8) -> (result: Result<(), Error>)
    ensures
        result == (if chan > MAX_CHANNEL {
            Err::<(), Error>(Error::ChannelError(chan))
        } else {
            Ok::<(), Error>(())
        }),
{
    if chan > MAX_CHANNEL {
        Err(Error::ChannelError(chan))
    } else {
        Ok(())
    }
}

/// A PCA9685. It knows the chip's clock; it does not own the bus.
#[derive(Clone, Copy, Debug, PartialEq, Eq)]
pub struct PCA9685 {
    reference_clock_speed: u32,
}

impl PCA9685 {
    /// The chip's clock in hertz.
    pub closed spec fn clock(self) -> u32 {
        self.reference_clock_speed
    }

    /// A driver for a chip on its internal 25 MHz clock, and the plan that
    /// brings the chip up: select it at its default address, then reset it.
    pub fn new() -> (made: (PCA9685, Progress))
        ensures
            made.0.clock() == 25_000_000,
            made.1 == Progress::Perform(
                Command::Select { address: PCA9685_DEFAULT_ADDRESS },
                Box::new(single(Command::WriteByte { register: MODE1_REG, value: 0 })),
            ),
    {
        let pca = PCA9685 { reference_clock_speed: 25_000_000 };
        let reset = pca.reset();
        (
            pca,
            Progress::Perform(
                Command::Select { address: PCA9685_DEFAULT_ADDRESS },
                Box::new(reset),
            ),
        )
    }

    /// The chip's clock in hertz.
    pub fn reference_clock_speed(&self) -> (clock: u32)
        ensures
            clock == self.clock(),
    {
        self.reference_clock_speed
    }

    /// Resets the chip: clears the mode register.
    pub fn reset(&self) -> (progress: Progress)
        ensures
            progress == single(Command::WriteByte { register: MODE1_REG, value: 0 }),
    {
        just(Command::WriteByte { register: MODE1_REG, value: 0 })
    }

    /// The overall PWM frequency in hertz, from the divider the chip holds.
    pub fn frequency(&self) -> (progress: Progress)
        ensures
            progress == Progress::Read(Purpose::Frequency { clock: self.clock() }),
    {
        Progress::Read(Purpose::Frequency { clock: self.reference_clock_speed })
    }

    /// Sets the overall PWM frequency in hertz. Fails at once, with nothing
    /// read or written, where the divider would be below [`MIN_PRESCALE`].
    pub fn set_frequency(&self, frequency: u32) -> (progress: Progress)
        ensures
            prescale_for(self.clock(), frequency) < MIN_PRESCALE ==> progress
                == Progress::Finished(Err(Error::FrequencyError)),
            prescale_for(self.clock(), frequency) >= MIN_PRESCALE ==> progress == Progress::Read(
                Purpose::Retune { prescale: prescale_for(self.clock(), frequency) as u8 },
            ),
    {
        let divider = prescale(self.reference_clock_speed, frequency);
        if divider < MIN_PRESCALE {
            Progress::Finished(Err(Error::FrequencyError))
        } else {
            Progress::Read(Purpose::Retune { prescale: divider })
        }
    }

    /// The clock divider the chip holds.
    pub fn get_prescale(&self) -> (progress: Progress)
        ensures
            progress == Progress::Read(Purpose::Prescale),
    {
        Progress::Read(Purpose::Prescale)
    }

    /// The value of the mode register.
    pub fn get_mode1(&self) -> (progress: Progress)
        ensures
            progress == Progress::Read(Purpose::Mode1),
    {
        Progress::Read(Purpose::Mode1)
    }

    /// Makes the chip step through its registers as they are written: reads
    /// the mode and writes it back with the [`AUTO_INCREMENT`] bits set.
    pub fn enable_autoincrement(&self) -> (progress: Progress)
        ensures
            progress == Progress::Read(Purpose::Autoincrement),
    {
        Progress::Read(Purpose::Autoincrement)
    }

    /// The on and off ticks of channel `chan`.
    pub fn get_pwm(&self, chan: u8) -> (progress: Progress)
        ensures
            chan > MAX_CHANNEL ==> progress == Progress::Finished(Err(Error::ChannelError(chan))),
            chan <= MAX_CHANNEL ==> progress == Progress::Read(
                Purpose::Pwm { register: channel_register(chan) },
            ),
    {
        match channel_in_range(chan) {
            Err(e) => Progress::Finished(Err(e)),
            Ok(()) => Progress::Read(Purpose::Pwm { register: CHANNEL0_REG + 4 * chan }),
        }
    }

    /// Sets the on and off ticks of channel `chan`, in one block write.
    pub fn set_pwm(&self, chan: u8, on: u16, off: u16) -> (progress: Progress)
        ensures
            progress == pwm_plan(chan, on, off),
    {
        match channel_in_range(chan) {
            Err(e) => Progress::Finished(Err(e)),
            Ok(()) => just(
                Command::WriteBlock { register: CHANNEL0_REG + 4 * chan, data: pack_pwm(on, off) },
            ),
        }
    }

    /// The duty cycle of channel `chan`, 0 to 0xffff.
    pub fn get_duty_cycle(&self, chan: u8) -> (progress: Progress)
        ensures
            chan > MAX_CHANNEL ==> progress == Progress::Finished(Err(Error::ChannelError(chan))),
            chan <= MAX_CHANNEL ==> progress == Progress::Read(
                Purpose::DutyCycle { register: channel_register(chan) },
            ),
    {
        match channel_in_range(chan) {
            Err(e) => Progress::Finished(Err(e)),
            Ok(()) => Progress::Read(Purpose::DutyCycle { register: CHANNEL0_REG + 4 * chan }),
        }
    }

    /// Sets the duty cycle of channel `chan`: `0xffff` holds the output
    /// high, any other value is cut down to the chip's twelve bits.
    pub fn set_duty_cycle(&self, chan: u8, value: u16) -> (progress: Progress)
        ensures
            progress == duty_cycle_plan(chan, value),
    {
        let (on, off) = pwm_of(value);
        self.set_pwm(chan, on, off)
    }
}

/// Packing two tick counts and unpacking the bytes gives the counts back.
pub proof fn lemma_pack_round_trip(on: u16, off: u16)
    ensures
        unpack(pack(on, off)) == (on, off),
{
}

/// A duty cycle that is written and read back comes out as the chip can hold
/// it: `0xffff` comes back as it is; any other value comes back as
/// `value + 1` with its four low bits cleared, which is `value` rounded down
/// to a multiple of 16 unless the four low bits of `value` are all set.
pub proof fn lemma_duty_cycle_round_trip(value: u16)
    ensures
        value == 0xffff ==> pwm_to_duty(duty_to_pwm(value).0, duty_to_pwm(value).1) == 0xffff,
        value != 0xffff ==> pwm_to_duty(duty_to_pwm(value).0, duty_to_pwm(value).1) == (value + 1)
            / 16 * 16,
        value != 0xffff && value % 16 != 15 ==> pwm_to_duty(
            duty_to_pwm(value).0,
            duty_to_pwm(value).1,
        ) == value - value % 16,
{
}

/// Setting a channel's duty cycle is one block write, and a read of that
/// channel which brings the written bytes back finishes with the duty cycle
/// of `lemma_duty_cycle_round_trip`.
pub proof fn lemma_duty_cycle_read_back(chan: u8, value: u16)
    requires
        chan <= MAX_CHANNEL,
    ensures
        duty_cycle_plan(chan, value) == single(
            Command::WriteBlock {
                register: channel_register(chan),
                data: pack(duty_to_pwm(value).0, duty_to_pwm(value).1),
            },
        ),
        Progress::Read(Purpose::DutyCycle { register: channel_register(chan) }).pending() == Some(
            Command::ReadBlock { register: channel_register(chan) },
        ),
        Progress::Read(Purpose::DutyCycle { register: channel_register(chan) }).next(
            Reply::Block(pack(duty_to_pwm(value).0, duty_to_pwm(value).1)),
        ) == Progress::Finished(
            Ok(
                Value::DutyCycle(
                    if value == 0xffff {
                        0xffffu16
                    } else {
                        ((value + 1) / 16 * 16) as u16
                    },
                ),
            ),
        ),
{
    lemma_pack_round_trip(duty_to_pwm(value).0, duty_to_pwm(value).1);
    lemma_duty_cycle_round_trip(value);
}

/// A call on a channel that the chip does not have ends at once with
/// `ChannelError`, and asks for no transfer.
pub proof fn lemma_channel_out_of_range(chan: u8, on: u16, off: u16, value: u16)
    requires
        chan > MAX_CHANNEL,
    ensures
        pwm_plan(chan, on, off) == Progress::Finished(Err(Error::ChannelError(chan))),
        duty_cycle_plan(chan, value) == Progress::Finished(Err(Error::ChannelError(chan))),
        pwm_plan(chan, on, off).pending() is None,
        duty_cycle_plan(chan, value).pending() is None,
{
}

/// A failed transfer ends any call that is not over: the fault is its
/// result, and no transfer is asked for after it.
pub proof fn lemma_failure_ends_call(progress: Progress, fault: Fault)
    requires
        !(progress is Finished),
    ensures
        progress.next(Reply::Failed(fault)) == Progress::Finished(Err(Error::I2cError(fault))),
        progress.next(Reply::Failed(fault)).pending() is None,
{
}

/// A reply that the pending transfer cannot have brought leaves the call
/// where it was.
pub proof fn lemma_stray_reply_changes_nothing(progress: Progress, reply: Reply)
    requires
        progress.pending() matches Some(command) && !reply.answers(command),
    ensures
        progress.next(reply) == progress,
{
}

/// Every reply that answers the pending transfer brings the call nearer to
/// its end: fewer transfers are left than before. A call with no transfer
/// left is over.
pub proof fn lemma_call_ends(progress: Progress, reply: Reply)
    requires
        progress.pending() matches Some(command) && reply.answers(command),
    ensures
        progress.next(reply).transfers_left() < progress.transfers_left(),
        progress.transfers_left() == 0 <==> progress is Finished,
{
    reveal_with_fuel(Progress::transfers_left, 7);
}

/// Changing the divider starts by putting the chip to sleep. If the write
/// of the divider then fails, the call ends with the fault and asks for
/// nothing more: the chip is left asleep, with the divider it had.
pub proof fn lemma_failed_divider_leaves_chip_asleep(
    registers: Registers,
    prescale: u8,
    fault: Fault,
)
    ensures
        ({
            let asked = Progress::Read(Purpose::Retune { prescale });
            let sleep = asked.next(Reply::Byte(registers.mode1));
            let slept = registers_after(registers, sleep.pending().unwrap(), Reply::Done);
            let divide = sleep.next(Reply::Done);
            let left = registers_after(slept, divide.pending().unwrap(), Reply::Failed(fault));
            let ended = divide.next(Reply::Failed(fault));
            &&& asked.pending() == Some(Command::ReadByte { register: MODE1_REG })
            &&& sleep.pending() == Some(
                Command::WriteByte { register: MODE1_REG, value: asleep(registers.mode1) },
            )
            &&& divide.pending() == Some(
                Command::WriteByte { register: PRESCALE_REG, value: prescale },
            )
            &&& ended == Progress::Finished(Err(Error::I2cError(fault)))
            &&& ended.pending() is None
            &&& left.mode1 & SLEEP == SLEEP
            &&& left.prescale == registers.prescale
        }),
{
    let mode = registers.mode1;
    assert(((mode & 0x7F) | 0x10) & 0x10 == 0x10) by (bit_vector);
}

/// The five transfers that change the divider, in the order in which they
/// are asked for when each goes through. After the last the call is over,
/// the divider is in its register, and the chip is awake with
/// auto-increment on.
pub proof fn lemma_retune_order(registers: Registers, prescale: u8)
    ensures
        ({
            let mode = registers.mode1;
            let p0 = retune_plan(mode, prescale);
            let p1 = p0.next(Reply::Done);
            let p2 = p1.next(Reply::Done);
            let p3 = p2.next(Reply::Done);
            let p4 = p3.next(Reply::Done);
            let r1 = registers_after(registers, p0.pending().unwrap(), Reply::Done);
            let r2 = registers_after(r1, p1.pending().unwrap(), Reply::Done);
            let r3 = registers_after(r2, p2.pending().unwrap(), Reply::Done);
            let r4 = registers_after(r3, p3.pending().unwrap(), Reply::Done);
            let r5 = registers_after(r4, p4.pending().unwrap(), Reply::Done);
            &&& p0.pending() == Some(Command::WriteByte { register: MODE1_REG, value: asleep(mode) })
            &&& p1.pending() == Some(Command::WriteByte { register: PRESCALE_REG, value: prescale })
            &&& p2.pending() == Some(Command::WriteByte { register: MODE1_REG, value: awake(mode) })
            &&& p3.pending() == Some(Command::Settle { millis: OSCILLATOR_SETTLE_MILLIS })
            &&& p4.pending() == Some(
                Command::WriteByte { register: MODE1_REG, value: awake(mode) | AUTO_INCREMENT },
            )
            &&& p4.next(Reply::Done) == Progress::Finished(Ok(Value::Unit))
            &&& r1.mode1 & SLEEP == SLEEP
            &&& r3.mode1 & SLEEP == 0
            &&& r5.prescale == prescale
            &&& r5.mode1 & SLEEP == 0
            &&& r5.mode1 & AUTO_INCREMENT == AUTO_INCREMENT
        }),
{
    let mode = registers.mode1;
    assert(((mode & 0x7F) | 0x10) & 0x10 == 0x10) by (bit_vector);
    assert((mode & !0x10u8) & 0x10 == 0) by (bit_vector);
    assert(((mode & !0x10u8) | 0xa1) & 0x10 == 0) by (bit_vector);
    assert(((mode & !0x10u8) | 0xa1) & 0xa1 == 0xa1) by (bit_vector);
}

/// A frequency that is set and read back: once the divider for `hz` is in
/// its register, reading the frequency gives that of this divider.
pub proof fn lemma_frequency_read_back(clock: u32, hz: u32)
    requires
        prescale_for(clock, hz) >= MIN_PRESCALE,
    ensures
        Progress::Read(Purpose::Frequency { clock }).pending() == Some(
            Command::ReadByte { register: PRESCALE_REG },
        ),
        Progress::Read(Purpose::Frequency { clock }).next(
            Reply::Byte(prescale_for(clock, hz) as u8),
        ) == Progress::Finished(
            Ok(Value::Frequency(frequency_for(clock as int, prescale_for(clock, hz)) as u32)),
        ),
{
}

/// A quotient is at least `a` if `a` times the divisor does not exceed the
/// dividend, and at most `a` if the dividend stays below `a + 1` times the
/// divisor.
proof fn lemma_quotient_bounds(a: int, x: int, d: int)
    requires
        d > 0,
    ensures
        a * d <= x ==> a <= x / d,
        x < (a + 1) * d ==> x / d <= a,
{
    vstd::arithmetic::div_mod::lemma_fundamental_div_mod(x, d);
    vstd::arithmetic::div_mod::lemma_mod_bound(x, d);
    let q = x / d;
    let r = x % d;
    assert(a * d <= x ==> a <= q) by (nonlinear_arith)
        requires
            d > 0,
            x == d * q + r,
            0 <= r < d,
    ;
    assert(x < (a + 1) * d ==> q <= a) by (nonlinear_arith)
        requires
            d > 0,
            x == d * q + r,
            0 <= r < d,
    ;
}

/// On the chip's 25 MHz clock, every frequency from 23 to 2441 hertz gets a
/// divider from 3 to 255, and lies between the frequencies of the next
/// larger and the next smaller divider, as does the frequency that is read
/// back.
pub proof fn lemma_prescale_tracks_frequency(hz: u32)
    requires
        23 <= hz <= 2441,
    ensures
        ({
            let p = prescale_for(25_000_000, hz);
            &&& MIN_PRESCALE <= p <= 255
            &&& frequency_for(25_000_000, p + 1) <= hz <= frequency_for(25_000_000, p - 1)
            &&& frequency_for(25_000_000, p + 1) <= frequency_for(25_000_000, p)
                <= frequency_for(25_000_000, p - 1)
        }),
{
    let h = hz as int;
    let n = (50_000_000 + 4096 * h) / (8192 * h);
    let p = prescale_for(25_000_000, hz);
    assert(25_000_000int / 4096 == 6103);
    vstd::arithmetic::div_mod::lemma_fundamental_div_mod(50_000_000 + 4096 * h, 8192 * h);
    vstd::arithmetic::div_mod::lemma_mod_bound(50_000_000 + 4096 * h, 8192 * h);
    let r = (50_000_000 + 4096 * h) % (8192 * h);
    assert(50_000_000 + 4096 * h == 8192 * (h * n) + r) by (nonlinear_arith)
        requires
            50_000_000 + 4096 * h == (8192 * h) * n + r,
    ;
    lemma_quotient_bounds(3, 50_000_000 + 4096 * h, 8192 * h);
    assert(3 * (8192 * h) <= 50_000_000 + 4096 * h);
    assert(n >= 3);
    if n > 255 {
        assert(h * n >= h * 256) by (nonlinear_arith)
            requires
                h > 0,
                n >= 256,
        ;
        assert(h == 23);
        assert(p == 255);
        assert(6103int / 256 == 23 && 6103int / 255 == 23 && 6103int / 254 == 24);
    } else {
        assert(p == n);
        let t = h * p;
        assert(h * (p - 1) == t - h && h * (p + 1) == t + h && (h + 1) * (p + 1) == t + h + p + 1)
            by (nonlinear_arith)
            requires
                t == h * p,
        ;
        lemma_quotient_bounds(h, 6103, p - 1);
        lemma_quotient_bounds(h, 6103, p + 1);
        vstd::arithmetic::div_mod::lemma_div_is_ordered_by_denominator(6103, p, p + 1);
        vstd::arithmetic::div_mod::lemma_div_is_ordered_by_denominator(6103, p - 1, p);
    }
}

} // verus!
