//! Pulse-width modulated pins.
use crate::error::WiringXError;
use crate::hardware::{calls_since, extends, is_failure, returned, Board, Hardware, HwCall};
use crate::registry::{spec_claim, spec_release, PinRegistry};
use vstd::prelude::*;

verus! {

/// A duty cycle is a fraction of the period, counted in billionths: this many
/// units make a whole period.
pub const DUTY_SCALE: i64 = 1_000_000_000;

/// The largest period, in nanoseconds, that the hardware interface can take.
pub const MAX_PERIOD_NS: u64 = 0x7fff_ffff_ffff_ffff;

/// Whether a period in nanoseconds can be handed to the hardware.
pub open spec fn valid_period(period_ns: u64) -> bool {
    0 < period_ns <= MAX_PERIOD_NS
}

/// Whether a duty cycle lies within one period.
pub open spec fn valid_duty(duty: i64) -> bool {
    0 <= duty <= DUTY_SCALE
}

/// A requested duty cycle clamped to lie within one period.
pub open spec fn spec_clamp_duty(duty: i64) -> i64 {
    if duty < 0 {
        0
    } else if duty > DUTY_SCALE {
        DUTY_SCALE
    } else {
        duty
    }
}

/// The high time, in nanoseconds rounded down, of a duty cycle over a period.
pub open spec fn spec_duty_ns(period_ns: u64, duty: i64) -> int {
    (period_ns as int * duty as int) / (DUTY_SCALE as int)
}

/// Clamps a duty cycle to lie within one period: negative values become zero,
/// values above a whole period become a whole period.
pub fn clamp_duty(duty: i64) -> (r: i64)
    ensures
        r == spec_clamp_duty(duty),
        valid_duty(r),
{
    if duty < 0 {
        0
    } else if duty > DUTY_SCALE {
        DUTY_SCALE
    } else {
        duty
    }
}

/// The high time, in nanoseconds, of a duty cycle over a period.
pub fn duty_ns(period_ns: u64, duty: i64) -> (r: u64)
    requires
        valid_duty(duty),
    ensures
        r == spec_duty_ns(period_ns, duty),
        r <= period_ns,
{
    let p = period_ns as u128;
    let d = duty as u128;
    proof {
        assert(p * d <= p * 1_000_000_000) by (nonlinear_arith)
            requires
                d <= 1_000_000_000,
        ;
        assert(p * 1_000_000_000 <= 0xffff_ffff_ffff_ffff * 1_000_000_000) by (nonlinear_arith)
            requires
                p <= 0xffff_ffff_ffff_ffff,
        ;
        assert((p * d) / 1_000_000_000 <= p) by (nonlinear_arith)
            requires
                p * d <= p * 1_000_000_000,
        ;
    }
    ((p * d) / (DUTY_SCALE as u128)) as u64
}

/// PWM polarity of a pin.
#[derive(Debug, Clone, Copy, PartialEq, Eq, Structural)]
pub enum Polarity {
    /// The high part of each period is active.
    Normal,
    /// The low part of each period is active.
    Inversed,
}

impl Polarity {
    /// The hardware's encoding of this polarity.
    pub open spec fn spec_code(self) -> i32 {
        match self {
            Polarity::Normal => 0,
            Polarity::Inversed => 1,
        }
    }

    /// Returns the hardware's encoding of this polarity.
    pub fn code(&self) -> (r: i32)
        ensures
            r == self.spec_code(),
    {
        match self {
            Polarity::Normal => 0,
            Polarity::Inversed => 1,
        }
    }
}

/// A single PWM configuration call on the hardware.
#[derive(Debug, Clone, Copy, PartialEq, Eq, Structural)]
pub enum PwmCommand {
    /// Set the period, in nanoseconds.
    SetPeriod(i64),
    /// Set the duty (high time), in nanoseconds.
    SetDuty(i64),
    /// Set the polarity, by its hardware code.
    SetPolarity(i32),
    /// Enable (1) or disable (0) the output.
    Enable(i32),
}

/// The recorded call that issuing `command` on `pin` makes, when it returns `status`.
pub open spec fn command_call(command: PwmCommand, pin: i32, status: i32) -> HwCall {
    match command {
        PwmCommand::SetPeriod(ns) => HwCall::SetPwmPeriod(pin, ns, status),
        PwmCommand::SetDuty(ns) => HwCall::SetPwmDuty(pin, ns, status),
        PwmCommand::SetPolarity(code) => HwCall::SetPwmPolarity(pin, code, status),
        PwmCommand::Enable(on) => HwCall::EnablePwm(pin, on, status),
    }
}

/// Issues one PWM command to the hardware and returns its status.
fn issue<H: Hardware>(hw: &mut Board<H>, pin: i32, command: PwmCommand) -> (r: i32)
    ensures
        final(hw).calls() == old(hw).calls().push(command_call(command, pin, r)),
{
    match command {
        PwmCommand::SetPeriod(ns) => hw.set_pwm_period(pin, ns),
        PwmCommand::SetDuty(ns) => hw.set_pwm_duty(pin, ns),
        PwmCommand::SetPolarity(code) => hw.set_pwm_polarity(pin, code),
        PwmCommand::Enable(on) => hw.enable_pwm(pin, on),
    }
}

/// Where the construction of a PWM pin stands.
#[derive(Debug)]
pub enum SetupStep {
    /// Set the requested period.
    SetPeriod,
    /// The period was refused: lower the duty to zero first.
    ZeroDuty,
    /// Set the requested period again, with the duty at zero.
    RetryPeriod,
    /// Set the duty for the clamped duty cycle.
    SetDuty,
    /// Set the polarity.
    SetPolarity,
    /// Enable the output.
    Enable,
    /// Every call succeeded.
    Done,
    /// Construction stopped with this error.
    Failed(WiringXError),
}

/// The step that follows `step` when its hardware call returned `status`.
pub open spec fn spec_setup_next(step: SetupStep, status: i32) -> SetupStep {
    let ok = !is_failure(status);
    match step {
        SetupStep::SetPeriod => if ok {
            SetupStep::SetDuty
        } else {
            SetupStep::ZeroDuty
        },
        SetupStep::ZeroDuty => if ok {
            SetupStep::RetryPeriod
        } else {
            SetupStep::Failed(WiringXError::Unsupported)
        },
        SetupStep::RetryPeriod => if ok {
            SetupStep::SetDuty
        } else {
            SetupStep::Failed(WiringXError::Unsupported)
        },
        SetupStep::SetDuty => if ok {
            SetupStep::SetPolarity
        } else {
            SetupStep::Failed(WiringXError::InvalidArgument)
        },
        SetupStep::SetPolarity => if ok {
            SetupStep::Enable
        } else {
            SetupStep::Failed(WiringXError::InvalidArgument)
        },
        SetupStep::Enable => if ok {
            SetupStep::Done
        } else {
            SetupStep::Failed(WiringXError::InvalidArgument)
        },
        SetupStep::Done => SetupStep::Done,
        SetupStep::Failed(e) => SetupStep::Failed(e),
    }
}

/// The hardware call that `step` makes, for the requested period, the duty
/// in nanoseconds and the polarity; none once construction has ended.
pub open spec fn spec_setup_command(
    step: SetupStep,
    period_ns: u64,
    duty_ns: u64,
    polarity: Polarity,
) -> Option<PwmCommand> {
    match step {
        SetupStep::SetPeriod => Some(PwmCommand::SetPeriod(period_ns as i64)),
        SetupStep::ZeroDuty => Some(PwmCommand::SetDuty(0)),
        SetupStep::RetryPeriod => Some(PwmCommand::SetPeriod(period_ns as i64)),
        SetupStep::SetDuty => Some(PwmCommand::SetDuty(duty_ns as i64)),
        SetupStep::SetPolarity => Some(PwmCommand::SetPolarity(polarity.spec_code())),
        SetupStep::Enable => Some(PwmCommand::Enable(1)),
        SetupStep::Done => None,
        SetupStep::Failed(_) => None,
    }
}

impl SetupStep {
    /// How many hardware calls construction can still make, at most.
    pub open spec fn spec_remaining(&self) -> nat {
        match self {
            SetupStep::SetPeriod => 6,
            SetupStep::ZeroDuty => 5,
            SetupStep::RetryPeriod => 4,
            SetupStep::SetDuty => 3,
            SetupStep::SetPolarity => 2,
            SetupStep::Enable => 1,
            SetupStep::Done => 0,
            SetupStep::Failed(_) => 0,
        }
    }

    /// Whether construction has ended.
    pub open spec fn spec_is_finished(&self) -> bool {
        self is Done || self is Failed
    }

    /// Returns whether construction has ended.
    pub fn is_finished(&self) -> (r: bool)
        ensures
            r == self.spec_is_finished(),
    {
        match self {
            SetupStep::Done => true,
            SetupStep::Failed(_) => true,
            _ => false,
        }
    }

    /// The step that follows this one when its hardware call returned `status`.
    pub fn next(self, status: i32) -> (r: SetupStep)
        ensures
            r == spec_setup_next(self, status),
            !self.spec_is_finished() ==> r.spec_remaining() < self.spec_remaining(),
    {
        let ok = status >= 0;
        match self {
            SetupStep::SetPeriod => if ok {
                SetupStep::SetDuty
            } else {
                SetupStep::ZeroDuty
            },
            SetupStep::ZeroDuty => if ok {
                SetupStep::RetryPeriod
            } else {
                SetupStep::Failed(WiringXError::Unsupported)
            },
            SetupStep::RetryPeriod => if ok {
                SetupStep::SetDuty
            } else {
                SetupStep::Failed(WiringXError::Unsupported)
            },
            SetupStep::SetDuty => if ok {
                SetupStep::SetPolarity
            } else {
                SetupStep::Failed(WiringXError::InvalidArgument)
            },
            SetupStep::SetPolarity => if ok {
                SetupStep::Enable
            } else {
                SetupStep::Failed(WiringXError::InvalidArgument)
            },
            SetupStep::Enable => if ok {
                SetupStep::Done
            } else {
                SetupStep::Failed(WiringXError::InvalidArgument)
            },
            SetupStep::Done => SetupStep::Done,
            SetupStep::Failed(e) => SetupStep::Failed(e),
        }
    }

    /// The hardware call that this step makes, for the requested period, the
    /// duty in nanoseconds and the polarity; none once construction has ended.
    pub fn command(&self, period_ns: u64, duty_ns: u64, polarity: Polarity) -> (r: Option<
        PwmCommand,
    >)
        requires
            valid_period(period_ns),
            duty_ns <= period_ns,
        ensures
            r == spec_setup_command(*self, period_ns, duty_ns, polarity),
    {
        match self {
            SetupStep::SetPeriod => Some(PwmCommand::SetPeriod(period_ns as i64)),
            SetupStep::ZeroDuty => Some(PwmCommand::SetDuty(0)),
            SetupStep::RetryPeriod => Some(PwmCommand::SetPeriod(period_ns as i64)),
            SetupStep::SetDuty => Some(PwmCommand::SetDuty(duty_ns as i64)),
            SetupStep::SetPolarity => Some(PwmCommand::SetPolarity(polarity.code())),
            SetupStep::Enable => Some(PwmCommand::Enable(1)),
            SetupStep::Done => None,
            SetupStep::Failed(_) => None,
        }
    }
}

/// Whether `log` holds exactly the hardware calls that construction makes on
/// `pin`, from step `start`, for the given period, duty in nanoseconds and
/// polarity, each call being the one its step asks for and each status
/// deciding the next step, and whether they bring construction to `end`.
pub open spec fn setup_trace(
    start: SetupStep,
    log: Seq<HwCall>,
    end: SetupStep,
    pin: i32,
    period_ns: u64,
    duty_ns: u64,
    polarity: Polarity,
) -> bool
    decreases log.len(),
{
    if log.len() == 0 {
        start == end
    } else {
        &&& !start.spec_is_finished()
        &&& log[0] == command_call(
            spec_setup_command(start, period_ns, duty_ns, polarity).unwrap(),
            pin,
            returned(log[0]),
        )
        &&& setup_trace(
            spec_setup_next(start, returned(log[0])),
            log.skip(1),
            end,
            pin,
            period_ns,
            duty_ns,
            polarity,
        )
    }
}

proof fn lemma_setup_trace_push(
    start: SetupStep,
    log: Seq<HwCall>,
    end: SetupStep,
    call: HwCall,
    pin: i32,
    period_ns: u64,
    duty_ns: u64,
    polarity: Polarity,
)
    requires
        setup_trace(start, log, end, pin, period_ns, duty_ns, polarity),
        !end.spec_is_finished(),
        call == command_call(
            spec_setup_command(end, period_ns, duty_ns, polarity).unwrap(),
            pin,
            returned(call),
        ),
    ensures
        setup_trace(
            start,
            log.push(call),
            spec_setup_next(end, returned(call)),
            pin,
            period_ns,
            duty_ns,
            polarity,
        ),
    decreases log.len(),
{
    let next_end = spec_setup_next(end, returned(call));
    if log.len() == 0 {
        assert(log.push(call).skip(1) =~= Seq::<HwCall>::empty());
        assert(setup_trace(next_end, Seq::<HwCall>::empty(), next_end, pin, period_ns, duty_ns, polarity));
    } else {
        lemma_setup_trace_push(
            spec_setup_next(start, returned(log[0])),
            log.skip(1),
            end,
            call,
            pin,
            period_ns,
            duty_ns,
            polarity,
        );
        assert(log.push(call).skip(1) =~= log.skip(1).push(call));
    }
}

/// Whether a construction step carries only the errors that hardware calls
/// can cause.
pub open spec fn setup_error_allowed(step: SetupStep) -> bool {
    step is Failed ==> (step->Failed_0 is Unsupported || step->Failed_0 is InvalidArgument)
}

/// A claimed pin configured for PWM output.
///
/// It caches the period, duty cycle and polarity last applied to the hardware;
/// a failed update leaves the cache as it was.
#[derive(Debug)]
pub struct PwmPin {
    number: i32,
    period_ns: u64,
    duty_cycle: i64,
    polarity: Polarity,
}

impl PwmPin {
    /// The claimed pin number.
    pub closed spec fn spec_number(&self) -> i32 {
        self.number
    }

    /// The cached period, in nanoseconds.
    pub closed spec fn spec_period(&self) -> u64 {
        self.period_ns
    }

    /// The cached duty cycle, in billionths of the period.
    pub closed spec fn spec_duty_cycle(&self) -> i64 {
        self.duty_cycle
    }

    /// The cached polarity.
    pub closed spec fn spec_polarity(&self) -> Polarity {
        self.polarity
    }

    /// The period can be handed to the hardware and the duty cycle lies within it.
    pub open spec fn wf(&self) -> bool {
        valid_period(self.spec_period()) && valid_duty(self.spec_duty_cycle())
    }

    /// Claims `number` in `registry` and configures it for PWM output with the
    /// given period, duty cycle (clamped to one period) and polarity.
    ///
    /// A pin that is already claimed gives `PinUsed` before any hardware call.
    /// Otherwise the period is set (lowering the duty to zero and retrying
    /// where the hardware refuses it), then the duty, the polarity, and the
    /// output is enabled. On any failure the claim is released again.
    pub fn new<H: Hardware>(
        registry: &mut PinRegistry,
        hw: &mut Board<H>,
        number: i32,
        period_ns: u64,
        duty_cycle: i64,
        polarity: Polarity,
    ) -> (r: Result<PwmPin, WiringXError>)
        requires
            valid_period(period_ns),
        ensures
            old(registry)@.contains(number) ==> r is Err && r->Err_0 is PinUsed && *final(hw)
                == *old(hw),
            !old(registry)@.contains(number) && r is Err ==> r->Err_0 is Unsupported
                || r->Err_0 is InvalidArgument,
            r is Err ==> final(registry)@ == old(registry)@,
            r is Ok ==> final(registry)@ == spec_claim(old(registry)@, number).1,
            !old(registry)@.contains(number) ==> ({
                let added = calls_since(old(hw).calls(), final(hw).calls());
                let duty = spec_duty_ns(period_ns, spec_clamp_duty(duty_cycle)) as u64;
                &&& extends(old(hw).calls(), final(hw).calls())
                &&& r is Ok ==> setup_trace(
                    SetupStep::SetPeriod,
                    added,
                    SetupStep::Done,
                    number,
                    period_ns,
                    duty,
                    polarity,
                )
                &&& r is Err ==> setup_trace(
                    SetupStep::SetPeriod,
                    added,
                    SetupStep::Failed(r->Err_0),
                    number,
                    period_ns,
                    duty,
                    polarity,
                )
            }),
            r is Ok ==> ({
                let pin = r->Ok_0;
                &&& pin.wf()
                &&& pin.spec_number() == number
                &&& pin.spec_period() == period_ns
                &&& pin.spec_duty_cycle() == spec_clamp_duty(duty_cycle)
                &&& pin.spec_polarity() == polarity
            }),
    {
        if !registry.claim(number) {
            return Err(WiringXError::PinUsed);
        }
        let ghost claimed = registry@;
        let duty = clamp_duty(duty_cycle);
        let high_ns = duty_ns(period_ns, duty);
        let mut step = SetupStep::SetPeriod;
        let ghost base = hw.calls();
        proof {
            assert(calls_since(base, hw.calls()) =~= Seq::<HwCall>::empty());
        }
        while !step.is_finished()
            invariant
                registry@ == claimed,
                valid_period(period_ns),
                high_ns <= period_ns,
                high_ns == spec_duty_ns(period_ns, duty),
                setup_error_allowed(step),
                base == old(hw).calls(),
                extends(base, hw.calls()),
                setup_trace(
                    SetupStep::SetPeriod,
                    calls_since(base, hw.calls()),
                    step,
                    number,
                    period_ns,
                    high_ns,
                    polarity,
                ),
            decreases step.spec_remaining(),
        {
            let ghost before = hw.calls();
            let ghost at = step;
            let status = match step.command(period_ns, high_ns, polarity) {
                Some(command) => issue(hw, number, command),
                None => 0,
            };
            step = step.next(status);
            proof {
                let call = hw.calls().last();
                assert(hw.calls() == before.push(call));
                lemma_setup_trace_push(
                    SetupStep::SetPeriod,
                    calls_since(base, before),
                    at,
                    call,
                    number,
                    period_ns,
                    high_ns,
                    polarity,
                );
                assert(calls_since(base, before).push(call) =~= calls_since(base, hw.calls()));
                assert(hw.calls() =~= base + calls_since(base, hw.calls()));
            }
        }
        match step {
            SetupStep::Failed(e) => {
                registry.release(number);
                proof {
                    assert(registry@ =~= old(registry)@);
                }
                Err(e)
            },
            _ => Ok(PwmPin { number, period_ns, duty_cycle: duty, polarity }),
        }
    }

    /// Returns the number of this pin.
    pub fn number(&self) -> (r: i32)
        ensures
            r == self.spec_number(),
    {
        self.number
    }

    /// Sets the period of a PWM cycle, in nanoseconds.
    ///
    /// The duty for the cached duty cycle over the new period is set first, so
    /// that the high time never exceeds the period, then the period itself.
    /// Either call failing gives `InvalidArgument` and leaves the cache as it was.
    pub fn set_period<H: Hardware>(&mut self, hw: &mut Board<H>, period_ns: u64) -> (r: Result<
        (),
        WiringXError,
    >)
        requires
            old(self).wf(),
            valid_period(period_ns),
        ensures
            final(self).wf(),
            r is Err ==> r->Err_0 is InvalidArgument && *final(self) == *old(self),
            r is Ok ==> final(self).spec_period() == period_ns,
            ({
                let n = old(self).spec_number();
                let added = calls_since(old(hw).calls(), final(hw).calls());
                let duty = spec_duty_ns(period_ns, old(self).spec_duty_cycle()) as i64;
                &&& extends(old(hw).calls(), final(hw).calls())
                &&& if is_failure(returned(added[0])) {
                    &&& added == seq![HwCall::SetPwmDuty(n, duty, returned(added[0]))]
                    &&& r is Err
                } else {
                    &&& added == seq![
                        HwCall::SetPwmDuty(n, duty, returned(added[0])),
                        HwCall::SetPwmPeriod(n, period_ns as i64, returned(added[1])),
                    ]
                    &&& r is Ok <==> !is_failure(returned(added[1]))
                }
            }),
            final(self).spec_number() == old(self).spec_number(),
            final(self).spec_duty_cycle() == old(self).spec_duty_cycle(),
            final(self).spec_polarity() == old(self).spec_polarity(),
    {
        let high_ns = duty_ns(period_ns, self.duty_cycle);
        let ghost base = hw.calls();
        let duty_status = issue(hw, self.number, PwmCommand::SetDuty(high_ns as i64));
        let ghost after_duty = hw.calls();
        proof {
            assert(calls_since(base, hw.calls()) =~= seq![hw.calls().last()]);
            assert(hw.calls() =~= base + calls_since(base, hw.calls()));
        }
        if duty_status < 0 {
            return Err(WiringXError::InvalidArgument);
        }
        let period_status = issue(hw, self.number, PwmCommand::SetPeriod(period_ns as i64));
        proof {
            assert(calls_since(base, hw.calls()) =~= seq![after_duty.last(), hw.calls().last()]);
            assert(hw.calls() =~= base + calls_since(base, hw.calls()));
        }
        if period_status < 0 {
            return Err(WiringXError::InvalidArgument);
        }
        self.period_ns = period_ns;
        Ok(())
    }

    /// Returns the cached period, in nanoseconds.
    pub fn period(&self) -> (r: u64)
        ensures
            r == self.spec_period(),
    {
        self.period_ns
    }

    /// Sets the duty cycle, in billionths of the period, clamped to one period.
    ///
    /// The duty for the clamped value over the cached period is set; a failure
    /// gives `InvalidArgument` and leaves the cache as it was.
    pub fn set_duty_cycle<H: Hardware>(&mut self, hw: &mut Board<H>, duty_cycle: i64) -> (r: Result<
        (),
        WiringXError,
    >)
        requires
            old(self).wf(),
        ensures
            final(self).wf(),
            r is Err ==> r->Err_0 is InvalidArgument && *final(self) == *old(self),
            r is Ok ==> final(self).spec_duty_cycle() == spec_clamp_duty(duty_cycle),
            ({
                let status = returned(final(hw).calls().last());
                let duty = spec_duty_ns(old(self).spec_period(), spec_clamp_duty(duty_cycle));
                &&& final(hw).calls() == old(hw).calls().push(
                    HwCall::SetPwmDuty(old(self).spec_number(), duty as i64, status),
                )
                &&& r is Ok <==> !is_failure(status)
            }),
            final(self).spec_number() == old(self).spec_number(),
            final(self).spec_period() == old(self).spec_period(),
            final(self).spec_polarity() == old(self).spec_polarity(),
    {
        let duty = clamp_duty(duty_cycle);
        let high_ns = duty_ns(self.period_ns, duty);
        if issue(hw, self.number, PwmCommand::SetDuty(high_ns as i64)) < 0 {
            return Err(WiringXError::InvalidArgument);
        }
        self.duty_cycle = duty;
        Ok(())
    }

    /// Returns the cached duty cycle, in billionths of the period.
    pub fn duty_cycle(&self) -> (r: i64)
        ensures
            r == self.spec_duty_cycle(),
    {
        self.duty_cycle
    }

    /// Returns the high time of one period, in nanoseconds rounded down.
    pub fn duty_cycle_as_dur(&self) -> (r: u64)
        requires
            self.wf(),
        ensures
            r == spec_duty_ns(self.spec_period(), self.spec_duty_cycle()),
    {
        duty_ns(self.period_ns, self.duty_cycle)
    }

    /// Sets the polarity; a failure gives `InvalidArgument` and leaves the
    /// cache as it was.
    pub fn set_polarity<H: Hardware>(&mut self, hw: &mut Board<H>, polarity: Polarity) -> (r: Result<
        (),
        WiringXError,
    >)
        requires
            old(self).wf(),
        ensures
            final(self).wf(),
            r is Err ==> r->Err_0 is InvalidArgument && *final(self) == *old(self),
            r is Ok ==> final(self).spec_polarity() == polarity,
            ({
                let status = returned(final(hw).calls().last());
                &&& final(hw).calls() == old(hw).calls().push(
                    HwCall::SetPwmPolarity(old(self).spec_number(), polarity.spec_code(), status),
                )
                &&& r is Ok <==> !is_failure(status)
            }),
            final(self).spec_number() == old(self).spec_number(),
            final(self).spec_period() == old(self).spec_period(),
            final(self).spec_duty_cycle() == old(self).spec_duty_cycle(),
    {
        if issue(hw, self.number, PwmCommand::SetPolarity(polarity.code())) < 0 {
            return Err(WiringXError::InvalidArgument);
        }
        self.polarity = polarity;
        Ok(())
    }

    /// Returns the cached polarity.
    pub fn polarity(&self) -> (r: Polarity)
        ensures
            r == self.spec_polarity(),
    {
        self.polarity
    }

    /// Gives the pin up: releases its claim in `registry`, then disables its
    /// PWM output, ignoring a failure to do so.
    pub fn release<H: Hardware>(self, registry: &mut PinRegistry, hw: &mut Board<H>)
        ensures
            final(registry)@ == spec_release(old(registry)@, self.spec_number()),
            final(hw).calls() == old(hw).calls().push(
                HwCall::EnablePwm(self.spec_number(), 0, returned(final(hw).calls().last())),
            ),
    {
        registry.release(self.number);
        let _ = issue(hw, self.number, PwmCommand::Enable(0));
    }
}

/// Clamping: a duty cycle below zero acts as zero, one above a whole period as
/// a whole period, and one within a period is kept exactly.
pub proof fn lemma_clamp_duty(duty: i64)
    ensures
        duty < 0 ==> spec_clamp_duty(duty) == spec_clamp_duty(0),
        duty > DUTY_SCALE ==> spec_clamp_duty(duty) == spec_clamp_duty(DUTY_SCALE),
        valid_duty(duty) ==> spec_clamp_duty(duty) == duty,
        spec_clamp_duty(spec_clamp_duty(duty)) == spec_clamp_duty(duty),
{
}

/// When the hardware accepts every call, construction sets the period, then
/// the duty, then the polarity, then enables the output, and ends in `Done`.
pub proof fn lemma_setup_accepted(
    log: Seq<HwCall>,
    end: SetupStep,
    pin: i32,
    period_ns: u64,
    duty_ns: u64,
    polarity: Polarity,
)
    requires
        setup_trace(SetupStep::SetPeriod, log, end, pin, period_ns, duty_ns, polarity),
        end.spec_is_finished(),
        forall|i: int| 0 <= i < log.len() ==> !is_failure(returned(#[trigger] log[i])),
    ensures
        end == SetupStep::Done,
        log.len() == 4,
        log[0] == HwCall::SetPwmPeriod(pin, period_ns as i64, returned(log[0])),
        log[1] == HwCall::SetPwmDuty(pin, duty_ns as i64, returned(log[1])),
        log[2] == HwCall::SetPwmPolarity(pin, polarity.spec_code(), returned(log[2])),
        log[3] == HwCall::EnablePwm(pin, 1, returned(log[3])),
{
    assert(!is_failure(returned(log[0])));
    let l1 = log.skip(1);
    assert(setup_trace(SetupStep::SetDuty, l1, end, pin, period_ns, duty_ns, polarity));
    assert(l1[0] == log[1]);
    assert(!is_failure(returned(l1[0])));
    let l2 = l1.skip(1);
    assert(setup_trace(SetupStep::SetPolarity, l2, end, pin, period_ns, duty_ns, polarity));
    assert(l2[0] == log[2]);
    assert(!is_failure(returned(l2[0])));
    let l3 = l2.skip(1);
    assert(setup_trace(SetupStep::Enable, l3, end, pin, period_ns, duty_ns, polarity));
    assert(l3[0] == log[3]);
    assert(!is_failure(returned(l3[0])));
    let l4 = l3.skip(1);
    assert(setup_trace(SetupStep::Done, l4, end, pin, period_ns, duty_ns, polarity));
    assert(l4.len() == 0);
}

/// When the hardware refuses the period, construction lowers the duty to zero
/// and sets the period again; if either of these is refused too, it stops
/// there with `Unsupported`, after two or three calls.
pub proof fn lemma_setup_period_fallback(
    log: Seq<HwCall>,
    end: SetupStep,
    pin: i32,
    period_ns: u64,
    duty_ns: u64,
    polarity: Polarity,
)
    requires
        setup_trace(SetupStep::SetPeriod, log, end, pin, period_ns, duty_ns, polarity),
        end.spec_is_finished(),
        log.len() > 0,
        is_failure(returned(log[0])),
    ensures
        log[0] == HwCall::SetPwmPeriod(pin, period_ns as i64, returned(log[0])),
        log.len() >= 2,
        log[1] == HwCall::SetPwmDuty(pin, 0, returned(log[1])),
        is_failure(returned(log[1])) ==> log.len() == 2 && end == SetupStep::Failed(
            WiringXError::Unsupported,
        ),
        !is_failure(returned(log[1])) ==> log.len() >= 3 && log[2] == HwCall::SetPwmPeriod(
            pin,
            period_ns as i64,
            returned(log[2]),
        ),
        !is_failure(returned(log[1])) && is_failure(returned(log[2])) ==> log.len() == 3 && end
            == SetupStep::Failed(WiringXError::Unsupported),
{
    let l1 = log.skip(1);
    assert(setup_trace(SetupStep::ZeroDuty, l1, end, pin, period_ns, duty_ns, polarity));
    assert(l1.len() > 0);
    assert(l1[0] == log[1]);
    let l2 = l1.skip(1);
    if is_failure(returned(log[1])) {
        let failed = SetupStep::Failed(WiringXError::Unsupported);
        assert(setup_trace(failed, l2, end, pin, period_ns, duty_ns, polarity));
        assert(l2.len() == 0);
    } else {
        assert(setup_trace(SetupStep::RetryPeriod, l2, end, pin, period_ns, duty_ns, polarity));
        assert(l2.len() > 0);
        assert(l2[0] == log[2]);
        let l3 = l2.skip(1);
        if is_failure(returned(log[2])) {
            let failed = SetupStep::Failed(WiringXError::Unsupported);
            assert(setup_trace(failed, l3, end, pin, period_ns, duty_ns, polarity));
            assert(l3.len() == 0);
        }
    }
}

} // verus!
