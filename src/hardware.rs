use vstd::prelude::*;

verus! {

/// One call made on the hardware, with what it returned.
#[derive(Debug, Clone, Copy, PartialEq, Eq, Structural)]
pub enum HwCall {
    /// `digital_read(pin)`, which returned the raw level.
    DigitalRead(i32, i32),
    /// `digital_write(pin, level)`.
    DigitalWrite(i32, u32),
    /// `set_isr_mode(pin, mode)`, with its status.
    SetIsrMode(i32, u32, i32),
    /// `wait_for_interrupt(pin, timeout_ms)`, with its status.
    WaitForInterrupt(i32, i32, i32),
    /// `set_pwm_period(pin, period_ns)`, with its status.
    SetPwmPeriod(i32, i64, i32),
    /// `set_pwm_duty(pin, duty_ns)`, with its status.
    SetPwmDuty(i32, i64, i32),
    /// `set_pwm_polarity(pin, polarity)`, with its status.
    SetPwmPolarity(i32, i32, i32),
    /// `enable_pwm(pin, enable)`, with its status.
    EnablePwm(i32, i32, i32),
}

/// What a recorded call returned: the raw level of a read, the status of the
/// others (a write returns nothing and counts as zero).
pub open spec fn returned(call: HwCall) -> i32 {
    match call {
        HwCall::DigitalRead(_, level) => level,
        HwCall::DigitalWrite(_, _) => 0,
        HwCall::SetIsrMode(_, _, s) => s,
        HwCall::WaitForInterrupt(_, _, s) => s,
        HwCall::SetPwmPeriod(_, _, s) => s,
        HwCall::SetPwmDuty(_, _, s) => s,
        HwCall::SetPwmPolarity(_, _, s) => s,
        HwCall::EnablePwm(_, _, s) => s,
    }
}

/// The calls recorded in `after` beyond the first `before.len()`.
pub open spec fn calls_since(before: Seq<HwCall>, after: Seq<HwCall>) -> Seq<HwCall> {
    after.skip(before.len() as int)
}

/// Whether `after` is `before` with more calls recorded behind it.
pub open spec fn extends(before: Seq<HwCall>, after: Seq<HwCall>) -> bool {
    after == before + calls_since(before, after)
}

/// The hardware access interface that pin handles drive.
///
/// Each operation acts directly on the numbered physical pin. Operations that
/// report a status follow the convention that a negative status is a failure;
/// nothing is assumed of the values an implementation returns.
pub trait Hardware {
    /// Reads the raw logic level of a pin.
    fn digital_read(&mut self, pin: i32) -> i32;

    /// Drives a pin to a raw logic level.
    fn digital_write(&mut self, pin: i32, level: u32);

    /// Sets the interrupt trigger condition of a pin.
    fn set_isr_mode(&mut self, pin: i32, mode: u32) -> i32;

    /// Blocks until an interrupt on the pin or the timeout in milliseconds;
    /// a positive status means that an interrupt arrived.
    fn wait_for_interrupt(&mut self, pin: i32, timeout_ms: i32) -> i32;

    /// Sets the PWM period of a pin, in nanoseconds.
    fn set_pwm_period(&mut self, pin: i32, period_ns: i64) -> i32;

    /// Sets the PWM duty (the high time of one period) of a pin, in nanoseconds.
    fn set_pwm_duty(&mut self, pin: i32, duty_ns: i64) -> i32;

    /// Sets the PWM polarity of a pin.
    fn set_pwm_polarity(&mut self, pin: i32, polarity: i32) -> i32;

    /// Enables (1) or disables (0) the PWM output of a pin.
    fn enable_pwm(&mut self, pin: i32, enable: i32) -> i32;
}

/// Whether a hardware status reports failure.
pub open spec fn is_failure(status: i32) -> bool {
    status < 0
}

/// The hardware that pin handles drive, together with the record of every
/// call made on it through this board, with what the call returned.
pub struct Board<H> {
    hw: H,
    log: Ghost<Seq<HwCall>>,
}

impl<H: Hardware> Board<H> {
    /// The calls made through this board so far, oldest first.
    pub closed spec fn calls(&self) -> Seq<HwCall> {
        self.log@
    }

    /// A board over `hw` on which no call has been made yet.
    pub fn new(hw: H) -> (r: Board<H>)
        ensures
            r.calls() == Seq::<HwCall>::empty(),
    {
        Board { hw, log: Ghost(Seq::empty()) }
    }

    /// The hardware this board drives.
    pub fn hardware(&self) -> &H {
        &self.hw
    }

    /// Gives the hardware back.
    pub fn into_hardware(self) -> H {
        self.hw
    }

    /// Reads the raw logic level of a pin.
    pub fn digital_read(&mut self, pin: i32) -> (r: i32)
        ensures
            final(self).calls() == old(self).calls().push(HwCall::DigitalRead(pin, r)),
    {
        let r = self.hw.digital_read(pin);
        self.log = Ghost(self.log@.push(HwCall::DigitalRead(pin, r)));
        r
    }

    /// Drives a pin to a raw logic level.
    pub fn digital_write(&mut self, pin: i32, level: u32)
        ensures
            final(self).calls() == old(self).calls().push(HwCall::DigitalWrite(pin, level)),
    {
        self.hw.digital_write(pin, level);
        self.log = Ghost(self.log@.push(HwCall::DigitalWrite(pin, level)));
    }

    /// Sets the interrupt trigger condition of a pin.
    pub fn set_isr_mode(&mut self, pin: i32, mode: u32) -> (r: i32)
        ensures
            final(self).calls() == old(self).calls().push(HwCall::SetIsrMode(pin, mode, r)),
    {
        let r = self.hw.set_isr_mode(pin, mode);
        self.log = Ghost(self.log@.push(HwCall::SetIsrMode(pin, mode, r)));
        r
    }

    /// Blocks until an interrupt on the pin or the timeout in milliseconds.
    pub fn wait_for_interrupt(&mut self, pin: i32, timeout_ms: i32) -> (r: i32)
        ensures
            final(self).calls() == old(self).calls().push(
                HwCall::WaitForInterrupt(pin, timeout_ms, r),
            ),
    {
        let r = self.hw.wait_for_interrupt(pin, timeout_ms);
        self.log = Ghost(self.log@.push(HwCall::WaitForInterrupt(pin, timeout_ms, r)));
        r
    }

    /// Sets the PWM period of a pin, in nanoseconds.
    pub fn set_pwm_period(&mut self, pin: i32, period_ns: i64) -> (r: i32)
        ensures
            final(self).calls() == old(self).calls().push(HwCall::SetPwmPeriod(pin, period_ns, r)),
    {
        let r = self.hw.set_pwm_period(pin, period_ns);
        self.log = Ghost(self.log@.push(HwCall::SetPwmPeriod(pin, period_ns, r)));
        r
    }

    /// Sets the PWM duty of a pin, in nanoseconds.
    pub fn set_pwm_duty(&mut self, pin: i32, duty_ns: i64) -> (r: i32)
        ensures
            final(self).calls() == old(self).calls().push(HwCall::SetPwmDuty(pin, duty_ns, r)),
    {
        let r = self.hw.set_pwm_duty(pin, duty_ns);
        self.log = Ghost(self.log@.push(HwCall::SetPwmDuty(pin, duty_ns, r)));
        r
    }

    /// Sets the PWM polarity of a pin.
    pub fn set_pwm_polarity(&mut self, pin: i32, polarity: i32) -> (r: i32)
        ensures
            final(self).calls() == old(self).calls().push(
                HwCall::SetPwmPolarity(pin, polarity, r),
            ),
    {
        let r = self.hw.set_pwm_polarity(pin, polarity);
        self.log = Ghost(self.log@.push(HwCall::SetPwmPolarity(pin, polarity, r)));
        r
    }

    /// Enables (1) or disables (0) the PWM output of a pin.
    pub fn enable_pwm(&mut self, pin: i32, enable: i32) -> (r: i32)
        ensures
            final(self).calls() == old(self).calls().push(HwCall::EnablePwm(pin, enable, r)),
    {
        let r = self.hw.enable_pwm(pin, enable);
        self.log = Ghost(self.log@.push(HwCall::EnablePwm(pin, enable, r)));
        r
    }
}

} // verus!
