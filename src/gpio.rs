//! General purpose input output pins.
use crate::error::WiringXError;
use crate::hardware::{is_failure, returned, Board, Hardware, HwCall};
use crate::registry::{spec_claim, spec_release, PinRegistry};
use vstd::prelude::*;

verus! {

/// Digital voltage value of a pin.
#[derive(Debug, Clone, Copy, PartialEq, Eq, Structural)]
pub enum Value {
    /// Low level, "off".
    Low,
    /// High level, "on".
    High,
}

impl Value {
    /// The complementary level.
    pub open spec fn spec_opposite(self) -> Value {
        match self {
            Value::Low => Value::High,
            Value::High => Value::Low,
        }
    }

    /// Returns the opposite value: `Low` for `High` and `High` for `Low`.
    pub fn opposite(&self) -> (r: Value)
        ensures
            r == self.spec_opposite(),
            r != *self,
    {
        match self {
            Value::Low => Value::High,
            Value::High => Value::Low,
        }
    }

    /// The raw level that the hardware takes for this value.
    pub open spec fn spec_level(self) -> u32 {
        match self {
            Value::Low => 0,
            Value::High => 1,
        }
    }

    /// Returns the raw level that the hardware takes for this value.
    pub fn level(&self) -> (r: u32)
        ensures
            r == self.spec_level(),
    {
        match self {
            Value::Low => 0,
            Value::High => 1,
        }
    }
}

impl Default for Value {
    /// `Low` is the default level.
    fn default() -> (r: Value)
        ensures
            r == Value::Low,
    {
        Value::Low
    }
}

/// Taking the opposite value twice gives the value back, and the opposite of a
/// value is written as a different raw level.
pub proof fn lemma_opposite_involution(v: Value)
    ensures
        v.spec_opposite().spec_opposite() == v,
        v.spec_opposite().spec_level() != v.spec_level(),
{
}

/// A pin that reads back the level last written to it reads as the value
/// written; so a toggle on such a pin writes the opposite of that value.
pub proof fn lemma_level_read_back(v: Value)
    ensures
        spec_value_from_raw(v.spec_level() as i32) == v,
        spec_value_from_raw(v.spec_level() as i32).spec_opposite() == v.spec_opposite(),
{
}

/// The value of a raw level read from the hardware: any nonzero level is high.
pub open spec fn spec_value_from_raw(raw: i32) -> Value {
    if raw != 0 {
        Value::High
    } else {
        Value::Low
    }
}

/// Maps a raw level read from the hardware to a value: nonzero is `High`,
/// zero is `Low`.
pub fn value_from_raw(raw: i32) -> (r: Value)
    ensures
        r == spec_value_from_raw(raw),
{
    if raw != 0 {
        Value::High
    } else {
        Value::Low
    }
}

/// Returned when waiting for an interrupt times out.
#[derive(Debug, Clone, Copy, PartialEq, Eq, Structural)]
pub struct InterruptTimeOut;

/// The outcome of waiting for an interrupt, from the hardware's status: a
/// positive status means that an interrupt arrived.
pub fn interrupt_outcome(status: i32) -> (r: Result<(), InterruptTimeOut>)
    ensures
        r is Ok <==> status > 0,
{
    if status < 1 {
        Err(InterruptTimeOut)
    } else {
        Ok(())
    }
}

/// The largest timeout, in milliseconds, that the hardware takes.
pub const MAX_TIMEOUT_MS: u64 = 0x7fff_ffff;

/// Mode for the interrupt service routine: the edges that trigger it.
#[derive(Debug, Clone, Copy, PartialEq, Eq, Structural)]
pub enum IsrMode {
    /// Left as the hardware has it.
    Unknown,
    /// Rising edges trigger the routine.
    Rising,
    /// Falling edges trigger the routine.
    Falling,
    /// Both edges trigger the routine.
    Both,
    /// No edge triggers the routine.
    Disabled,
}

impl IsrMode {
    /// The hardware's encoding of this mode.
    pub open spec fn spec_code(self) -> u32 {
        match self {
            IsrMode::Unknown => 0,
            IsrMode::Rising => 2,
            IsrMode::Falling => 4,
            IsrMode::Both => 8,
            IsrMode::Disabled => 16,
        }
    }

    /// Returns the hardware's encoding of this mode.
    pub fn code(&self) -> (r: u32)
        ensures
            r == self.spec_code(),
    {
        match self {
            IsrMode::Unknown => 0,
            IsrMode::Rising => 2,
            IsrMode::Falling => 4,
            IsrMode::Both => 8,
            IsrMode::Disabled => 16,
        }
    }
}

/// Pin mode output: the pin can be written, and caches the value last written.
#[derive(Debug, Clone, Copy)]
pub struct Output {
    value: Value,
}

/// Pin mode input: the pin's physical value can be read.
#[derive(Debug, Clone, Copy)]
pub struct Input;

/// A claimed GPIO pin, typed by its direction.
#[derive(Debug)]
pub struct Pin<T> {
    number: i32,
    mode: T,
}

impl<T> Pin<T> {
    /// The claimed pin number.
    pub closed spec fn spec_number(&self) -> i32 {
        self.number
    }

    /// Returns the number of this pin.
    pub fn number(&self) -> (r: i32)
        ensures
            r == self.spec_number(),
    {
        self.number
    }

    /// Gives the pin up, releasing its claim in `registry`.
    pub fn release(self, registry: &mut PinRegistry)
        ensures
            final(registry)@ == spec_release(old(registry)@, self.spec_number()),
    {
        registry.release(self.number);
    }
}

impl Pin<Output> {
    /// The value last written to this pin.
    pub closed spec fn spec_written(&self) -> Value {
        self.mode.value
    }

    /// Claims `number` in `registry` as a digital output, with `Low` as its
    /// last written value. A pin that is already claimed gives `PinUsed`.
    pub fn new(registry: &mut PinRegistry, number: i32) -> (r: Result<Pin<Output>, WiringXError>)
        ensures
            (r is Ok, final(registry)@) == spec_claim(old(registry)@, number),
            r is Err ==> r->Err_0 is PinUsed,
            r is Ok ==> r->Ok_0.spec_number() == number && r->Ok_0.spec_written() == Value::Low,
    {
        if registry.claim(number) {
            Ok(Pin { number, mode: Output { value: Value::Low } })
        } else {
            Err(WiringXError::PinUsed)
        }
    }

    /// Drives the pin to `value` and caches it.
    pub fn write<H: Hardware>(&mut self, hw: &mut Board<H>, value: Value)
        ensures
            final(self).spec_number() == old(self).spec_number(),
            final(self).spec_written() == value,
            final(hw).calls() == old(hw).calls().push(
                HwCall::DigitalWrite(old(self).spec_number(), value.spec_level()),
            ),
    {
        self.mode.value = value;
        hw.digital_write(self.number, value.level());
    }

    /// Reads the pin's current level back from the hardware and writes its
    /// opposite, which it caches.
    pub fn toggle<H: Hardware>(&mut self, hw: &mut Board<H>)
        ensures
            final(self).spec_number() == old(self).spec_number(),
            ({
                let n = old(self).spec_number();
                let raw = returned(final(hw).calls()[old(hw).calls().len() as int]);
                let v = spec_value_from_raw(raw).spec_opposite();
                &&& final(hw).calls() == old(hw).calls() + seq![
                    HwCall::DigitalRead(n, raw),
                    HwCall::DigitalWrite(n, v.spec_level()),
                ]
                &&& final(self).spec_written() == v
            }),
    {
        let current = self.read(hw);
        let ghost read_back = hw.calls();
        self.write(hw, current.opposite());
        proof {
            assert(read_back[old(hw).calls().len() as int] == hw.calls()[old(
                hw,
            ).calls().len() as int]);
            assert(hw.calls() =~= old(hw).calls() + seq![
                read_back.last(),
                HwCall::DigitalWrite(self.number, current.spec_opposite().spec_level()),
            ]);
        }
    }

    /// Reads the pin's current output level back from the hardware.
    pub fn read<H: Hardware>(&self, hw: &mut Board<H>) -> (r: Value)
        ensures
            final(hw).calls() == old(hw).calls().push(
                HwCall::DigitalRead(self.spec_number(), returned(final(hw).calls().last())),
            ),
            r == spec_value_from_raw(returned(final(hw).calls().last())),
    {
        value_from_raw(hw.digital_read(self.number))
    }
}

impl Pin<Input> {
    /// Claims `number` in `registry` as a digital input. A pin that is already
    /// claimed gives `PinUsed`.
    pub fn new(registry: &mut PinRegistry, number: i32) -> (r: Result<Pin<Input>, WiringXError>)
        ensures
            (r is Ok, final(registry)@) == spec_claim(old(registry)@, number),
            r is Err ==> r->Err_0 is PinUsed,
            r is Ok ==> r->Ok_0.spec_number() == number,
    {
        if registry.claim(number) {
            Ok(Pin { number, mode: Input })
        } else {
            Err(WiringXError::PinUsed)
        }
    }

    /// Reads the pin's current level from the hardware.
    pub fn read<H: Hardware>(&self, hw: &mut Board<H>) -> (r: Value)
        ensures
            final(hw).calls() == old(hw).calls().push(
                HwCall::DigitalRead(self.spec_number(), returned(final(hw).calls().last())),
            ),
            r == spec_value_from_raw(returned(final(hw).calls().last())),
    {
        value_from_raw(hw.digital_read(self.number))
    }

    /// Sets the interrupt service routine mode of this pin, which decides which
    /// edges `wait_for_interrupt` waits for. A refusal by the hardware gives
    /// `Other`.
    pub fn set_isr_mode<H: Hardware>(&self, hw: &mut Board<H>, mode: IsrMode) -> (r: Result<
        (),
        WiringXError,
    >)
        ensures
            final(hw).calls() == old(hw).calls().push(
                HwCall::SetIsrMode(self.spec_number(), mode.spec_code(), returned(final(hw).calls().last())),
            ),
            r is Ok <==> !is_failure(returned(final(hw).calls().last())),
            r is Err ==> r->Err_0 is Other,
    {
        isr_outcome(hw.set_isr_mode(self.number, mode.code()))
    }

    /// Blocks until an interrupt on this pin or until `timeout_ms` milliseconds
    /// have elapsed; the hardware takes timeouts up to `MAX_TIMEOUT_MS`.
    pub fn wait_for_interrupt<H: Hardware>(&self, hw: &mut Board<H>, timeout_ms: u64) -> (r: Result<
        (),
        InterruptTimeOut,
    >)
        requires
            timeout_ms <= MAX_TIMEOUT_MS,
        ensures
            final(hw).calls() == old(hw).calls().push(
                HwCall::WaitForInterrupt(
                    self.spec_number(),
                    timeout_ms as i32,
                    returned(final(hw).calls().last()),
                ),
            ),
            r is Ok <==> returned(final(hw).calls().last()) > 0,
    {
        interrupt_outcome(hw.wait_for_interrupt(self.number, timeout_ms as i32))
    }
}

/// The outcome of setting an interrupt mode, from the hardware's status: a
/// failure status gives `Other`.
pub fn isr_outcome(status: i32) -> (r: Result<(), WiringXError>)
    ensures
        r is Ok <==> !is_failure(status),
        r is Err ==> r->Err_0 is Other,
{
    if status < 0 {
        Err(WiringXError::Other("Cannot set isr mode of pin to this setting.".to_owned()))
    } else {
        Ok(())
    }
}

} // verus!
