use std::cell::RefCell;
use std::collections::HashMap;
use std::rc::Rc;

use wiringx::pwm::{clamp_duty, duty_ns, PwmCommand, SetupStep, DUTY_SCALE};
use wiringx::gpio::{interrupt_outcome, isr_outcome, value_from_raw, MAX_TIMEOUT_MS};
use wiringx::{
    Board, Hardware, Input, InterruptTimeOut, IsrMode, Output, Pin, PinRegistry, Polarity, PwmPin,
    Value, WiringXError,
};

#[derive(Debug, Clone, Copy, PartialEq, Eq)]
enum Call {
    Read(i32),
    Write(i32, u32),
    Isr(i32, u32),
    Wait(i32, i32),
    Period(i32, i64),
    Duty(i32, i64),
    Polarity(i32, i32),
    Enable(i32, i32),
}

/// What the hardware double has seen and what it is told to fail.
#[derive(Default)]
struct FakeState {
    calls: Vec<Call>,
    levels: HashMap<i32, i32>,
    period_failures: u32,
    fail_duty: bool,
    fail_polarity: bool,
    fail_enable: bool,
    fail_isr: bool,
    interrupt_status: i32,
}

/// Hardware double that records every call and fails the calls it is told to;
/// its state is shared with the test that made it.
struct FakeHardware(Rc<RefCell<FakeState>>);

type Fake = Rc<RefCell<FakeState>>;

fn board(state: FakeState) -> (Board<FakeHardware>, Fake) {
    let shared = Rc::new(RefCell::new(state));
    (Board::new(FakeHardware(shared.clone())), shared)
}

fn fake_board() -> (Board<FakeHardware>, Fake) {
    board(FakeState::default())
}

impl Hardware for FakeHardware {
    fn digital_read(&mut self, pin: i32) -> i32 {
        let mut st = self.0.borrow_mut();
        st.calls.push(Call::Read(pin));
        *st.levels.get(&pin).unwrap_or(&0)
    }

    fn digital_write(&mut self, pin: i32, level: u32) {
        let mut st = self.0.borrow_mut();
        st.calls.push(Call::Write(pin, level));
        st.levels.insert(pin, level as i32);
    }

    fn set_isr_mode(&mut self, pin: i32, mode: u32) -> i32 {
        let mut st = self.0.borrow_mut();
        st.calls.push(Call::Isr(pin, mode));
        if st.fail_isr { -1 } else { 0 }
    }

    fn wait_for_interrupt(&mut self, pin: i32, timeout_ms: i32) -> i32 {
        let mut st = self.0.borrow_mut();
        st.calls.push(Call::Wait(pin, timeout_ms));
        st.interrupt_status
    }

    fn set_pwm_period(&mut self, pin: i32, period_ns: i64) -> i32 {
        let mut st = self.0.borrow_mut();
        st.calls.push(Call::Period(pin, period_ns));
        if st.period_failures > 0 {
            st.period_failures -= 1;
            -1
        } else {
            0
        }
    }

    fn set_pwm_duty(&mut self, pin: i32, duty_ns: i64) -> i32 {
        let mut st = self.0.borrow_mut();
        st.calls.push(Call::Duty(pin, duty_ns));
        if st.fail_duty { -1 } else { 0 }
    }

    fn set_pwm_polarity(&mut self, pin: i32, polarity: i32) -> i32 {
        let mut st = self.0.borrow_mut();
        st.calls.push(Call::Polarity(pin, polarity));
        if st.fail_polarity { -1 } else { 0 }
    }

    fn enable_pwm(&mut self, pin: i32, enable: i32) -> i32 {
        let mut st = self.0.borrow_mut();
        st.calls.push(Call::Enable(pin, enable));
        if st.fail_enable { -1 } else { 0 }
    }
}

const HALF: i64 = DUTY_SCALE / 2;

#[test]
fn opposite_swaps_values() {
    assert_eq!(Value::Low.opposite(), Value::High);
    assert_eq!(Value::High.opposite(), Value::Low);
    assert_eq!(Value::Low.level(), 0);
    assert_eq!(Value::High.level(), 1);
}

#[test]
fn raw_levels_map_to_values() {
    assert_eq!(value_from_raw(0), Value::Low);
    assert_eq!(value_from_raw(1), Value::High);
    assert_eq!(value_from_raw(7), Value::High);
}

#[test]
fn registry_claims_and_releases() {
    let mut reg = PinRegistry::new();
    assert!(!reg.is_claimed(5));
    assert!(reg.claim(5));
    assert!(reg.is_claimed(5));
    assert!(!reg.claim(5));
    reg.release(5);
    assert!(!reg.is_claimed(5));
    reg.release(5);
    assert!(reg.claim(5));
}

#[test]
fn second_claim_is_refused_without_hardware_calls() {
    let mut reg = PinRegistry::new();
    let (mut hw, fake) = fake_board();
    let first = PwmPin::new(&mut reg, &mut hw, 11, 1000, HALF, Polarity::Normal).unwrap();
    let before = fake.borrow().calls.len();
    let second = PwmPin::new(&mut reg, &mut hw, 11, 1000, HALF, Polarity::Normal);
    assert!(matches!(second, Err(WiringXError::PinUsed)));
    assert_eq!(fake.borrow().calls.len(), before);
    let digital = Pin::<Output>::new(&mut reg, 11);
    assert!(matches!(digital, Err(WiringXError::PinUsed)));
    let input = Pin::<Input>::new(&mut reg, 11);
    assert!(matches!(input, Err(WiringXError::PinUsed)));
    assert_eq!(fake.borrow().calls.len(), before);
    assert_eq!(first.number(), 11);
}

#[test]
fn digital_claims_exclude_each_other() {
    let mut reg = PinRegistry::new();
    let pin = Pin::<Input>::new(&mut reg, 4).unwrap();
    assert_eq!(pin.number(), 4);
    assert!(matches!(Pin::<Output>::new(&mut reg, 4), Err(WiringXError::PinUsed)));
    assert!(Pin::<Output>::new(&mut reg, 5).is_ok());
}

#[test]
fn released_pins_can_be_claimed_again() {
    let mut reg = PinRegistry::new();
    let (mut hw, fake) = fake_board();
    let out = Pin::<Output>::new(&mut reg, 3).unwrap();
    out.release(&mut reg);
    assert!(!reg.is_claimed(3));
    let input = Pin::<Input>::new(&mut reg, 3).unwrap();
    input.release(&mut reg);
    let pwm = PwmPin::new(&mut reg, &mut hw, 3, 1000, 0, Polarity::Normal).unwrap();
    pwm.release(&mut reg, &mut hw);
    assert_eq!(fake.borrow().calls.last(), Some(&Call::Enable(3, 0)));
    assert!(!reg.is_claimed(3));
    assert!(PwmPin::new(&mut reg, &mut hw, 3, 1000, 0, Polarity::Normal).is_ok());
}

#[test]
fn pwm_release_ignores_disable_failure() {
    let mut reg = PinRegistry::new();
    let (mut hw, fake) = fake_board();
    let pwm = PwmPin::new(&mut reg, &mut hw, 8, 1000, 0, Polarity::Normal).unwrap();
    fake.borrow_mut().fail_enable = true;
    pwm.release(&mut reg, &mut hw);
    assert!(!reg.is_claimed(8));
}

#[test]
fn construction_makes_calls_in_order() {
    let mut reg = PinRegistry::new();
    let (mut hw, fake) = fake_board();
    let pin = PwmPin::new(&mut reg, &mut hw, 11, 1000, 250_000_000, Polarity::Inversed).unwrap();
    assert_eq!(
        fake.borrow().calls,
        vec![Call::Period(11, 1000), Call::Duty(11, 250), Call::Polarity(11, 1), Call::Enable(11, 1)]
    );
    assert_eq!(pin.period(), 1000);
    assert_eq!(pin.duty_cycle(), 250_000_000);
    assert_eq!(pin.polarity(), Polarity::Inversed);
    assert_eq!(pin.duty_cycle_as_dur(), 250);
    assert!(reg.is_claimed(11));
}

#[test]
fn construction_clamps_duty_cycle() {
    let mut reg = PinRegistry::new();
    let (mut hw, fake) = fake_board();
    let high = PwmPin::new(&mut reg, &mut hw, 1, 1000, 3 * DUTY_SCALE, Polarity::Normal).unwrap();
    assert_eq!(high.duty_cycle(), DUTY_SCALE);
    assert_eq!(fake.borrow().calls[1], Call::Duty(1, 1000));
    let low = PwmPin::new(&mut reg, &mut hw, 2, 1000, -1, Polarity::Normal).unwrap();
    assert_eq!(low.duty_cycle(), 0);
    assert_eq!(fake.borrow().calls[5], Call::Duty(2, 0));
}

#[test]
fn refused_period_falls_back_to_zero_duty() {
    let mut reg = PinRegistry::new();
    let (mut hw, fake) = board(FakeState { period_failures: 1, ..Default::default() });
    let pin = PwmPin::new(&mut reg, &mut hw, 6, 2000, HALF, Polarity::Normal).unwrap();
    assert_eq!(
        fake.borrow().calls,
        vec![
            Call::Period(6, 2000),
            Call::Duty(6, 0),
            Call::Period(6, 2000),
            Call::Duty(6, 1000),
            Call::Polarity(6, 0),
            Call::Enable(6, 1)
        ]
    );
    assert_eq!(pin.duty_cycle_as_dur(), 1000);
}

#[test]
fn refused_retry_is_unsupported() {
    let mut reg = PinRegistry::new();
    let (mut hw, fake) = board(FakeState { period_failures: 2, ..Default::default() });
    let r = PwmPin::new(&mut reg, &mut hw, 6, 2000, HALF, Polarity::Normal);
    assert!(matches!(r, Err(WiringXError::Unsupported)));
    assert_eq!(fake.borrow().calls.len(), 3);
    assert!(!reg.is_claimed(6));
}

#[test]
fn refused_zero_duty_is_unsupported() {
    let mut reg = PinRegistry::new();
    let (mut hw, fake) = board(FakeState { period_failures: 1, fail_duty: true, ..Default::default() });
    let r = PwmPin::new(&mut reg, &mut hw, 6, 2000, HALF, Polarity::Normal);
    assert!(matches!(r, Err(WiringXError::Unsupported)));
    assert_eq!(fake.borrow().calls, vec![Call::Period(6, 2000), Call::Duty(6, 0)]);
    assert!(!reg.is_claimed(6));
}

#[test]
fn refused_duty_during_construction_is_rolled_back() {
    let mut reg = PinRegistry::new();
    let (mut hw, fake) = board(FakeState { fail_duty: true, ..Default::default() });
    let r = PwmPin::new(&mut reg, &mut hw, 9, 1000, HALF, Polarity::Normal);
    assert!(matches!(r, Err(WiringXError::InvalidArgument)));
    assert!(!reg.is_claimed(9));
}

#[test]
fn refused_polarity_during_construction_is_rolled_back() {
    let mut reg = PinRegistry::new();
    let (mut hw, fake) = board(FakeState { fail_polarity: true, ..Default::default() });
    let r = PwmPin::new(&mut reg, &mut hw, 9, 1000, HALF, Polarity::Normal);
    assert!(matches!(r, Err(WiringXError::InvalidArgument)));
    assert!(!reg.is_claimed(9));
}

#[test]
fn failed_enable_leaves_pin_free() {
    let mut reg = PinRegistry::new();
    let (mut hw, fake) = board(FakeState { fail_enable: true, ..Default::default() });
    let r = PwmPin::new(&mut reg, &mut hw, 12, 1000, HALF, Polarity::Normal);
    assert!(matches!(r, Err(WiringXError::InvalidArgument)));
    assert!(!reg.is_claimed(12));
    assert!(reg.claim(12));
}

#[test]
fn duty_cycle_is_clamped() {
    let mut reg = PinRegistry::new();
    let (mut hw, fake) = fake_board();
    let mut pin = PwmPin::new(&mut reg, &mut hw, 2, 1000, HALF, Polarity::Normal).unwrap();

    pin.set_duty_cycle(&mut hw, -7).unwrap();
    let below = (pin.duty_cycle(), *fake.borrow().calls.last().unwrap());
    pin.set_duty_cycle(&mut hw, 0).unwrap();
    let zero = (pin.duty_cycle(), *fake.borrow().calls.last().unwrap());
    assert_eq!(below, zero);
    assert_eq!(zero, (0, Call::Duty(2, 0)));

    pin.set_duty_cycle(&mut hw, DUTY_SCALE + 1).unwrap();
    let above = (pin.duty_cycle(), *fake.borrow().calls.last().unwrap());
    pin.set_duty_cycle(&mut hw, DUTY_SCALE).unwrap();
    let whole = (pin.duty_cycle(), *fake.borrow().calls.last().unwrap());
    assert_eq!(above, whole);
    assert_eq!(whole, (DUTY_SCALE, Call::Duty(2, 1000)));

    pin.set_duty_cycle(&mut hw, 123_456_789).unwrap();
    assert_eq!(pin.duty_cycle(), 123_456_789);
    assert_eq!(fake.borrow().calls.last(), Some(&Call::Duty(2, 123)));
}

#[test]
fn failed_duty_update_keeps_cache() {
    let mut reg = PinRegistry::new();
    let (mut hw, fake) = fake_board();
    let mut pin = PwmPin::new(&mut reg, &mut hw, 2, 1000, HALF, Polarity::Normal).unwrap();
    fake.borrow_mut().fail_duty = true;
    let r = pin.set_duty_cycle(&mut hw, 100_000_000);
    assert!(matches!(r, Err(WiringXError::InvalidArgument)));
    assert_eq!(pin.duty_cycle(), HALF);
}

#[test]
fn period_update_sets_duty_first() {
    let mut reg = PinRegistry::new();
    let (mut hw, fake) = fake_board();
    let mut pin = PwmPin::new(&mut reg, &mut hw, 2, 1000, HALF, Polarity::Normal).unwrap();
    fake.borrow_mut().calls.clear();
    pin.set_period(&mut hw, 400).unwrap();
    assert_eq!(fake.borrow().calls, vec![Call::Duty(2, 200), Call::Period(2, 400)]);
    assert_eq!(pin.period(), 400);
    assert_eq!(pin.duty_cycle(), HALF);
}

#[test]
fn failed_period_update_keeps_cache() {
    let mut reg = PinRegistry::new();
    let (mut hw, fake) = fake_board();
    let mut pin = PwmPin::new(&mut reg, &mut hw, 2, 1000, HALF, Polarity::Normal).unwrap();
    fake.borrow_mut().period_failures = 1;
    let r = pin.set_period(&mut hw, 400);
    assert!(matches!(r, Err(WiringXError::InvalidArgument)));
    assert_eq!(pin.period(), 1000);
    fake.borrow_mut().fail_duty = true;
    let r = pin.set_period(&mut hw, 400);
    assert!(matches!(r, Err(WiringXError::InvalidArgument)));
    assert_eq!(pin.period(), 1000);
    assert_eq!(pin.duty_cycle_as_dur(), 500);
}

#[test]
fn polarity_updates() {
    let mut reg = PinRegistry::new();
    let (mut hw, fake) = fake_board();
    let mut pin = PwmPin::new(&mut reg, &mut hw, 2, 1000, HALF, Polarity::Normal).unwrap();
    pin.set_polarity(&mut hw, Polarity::Inversed).unwrap();
    assert_eq!(pin.polarity(), Polarity::Inversed);
    assert_eq!(fake.borrow().calls.last(), Some(&Call::Polarity(2, 1)));
    fake.borrow_mut().fail_polarity = true;
    let r = pin.set_polarity(&mut hw, Polarity::Normal);
    assert!(matches!(r, Err(WiringXError::InvalidArgument)));
    assert_eq!(pin.polarity(), Polarity::Inversed);
    assert_eq!(Polarity::Normal.code(), 0);
}

#[test]
fn duty_as_duration_follows_updates() {
    let mut reg = PinRegistry::new();
    let (mut hw, fake) = fake_board();
    let mut pin = PwmPin::new(&mut reg, &mut hw, 2, 1000, HALF, Polarity::Normal).unwrap();
    assert_eq!(pin.duty_cycle_as_dur(), 500);
    pin.set_period(&mut hw, 20_000_000).unwrap();
    assert_eq!(pin.duty_cycle_as_dur(), 10_000_000);
    pin.set_duty_cycle(&mut hw, 75_000_000).unwrap();
    assert_eq!(pin.duty_cycle_as_dur(), 1_500_000);
    pin.set_period(&mut hw, 3).unwrap();
    assert_eq!(pin.duty_cycle_as_dur(), 0);
}

#[test]
fn duty_arithmetic_is_exact() {
    assert_eq!(duty_ns(1000, HALF), 500);
    assert_eq!(duty_ns(u64::MAX, DUTY_SCALE), u64::MAX);
    assert_eq!(duty_ns(999, 1), 0);
    assert_eq!(clamp_duty(i64::MIN), 0);
    assert_eq!(clamp_duty(i64::MAX), DUTY_SCALE);
    assert_eq!(clamp_duty(42), 42);
}

#[test]
fn toggle_flips_output() {
    let mut reg = PinRegistry::new();
    let (mut hw, fake) = fake_board();
    let mut pin = Pin::<Output>::new(&mut reg, 7).unwrap();
    pin.write(&mut hw, Value::Low);
    assert_eq!(pin.read(&mut hw), Value::Low);
    pin.toggle(&mut hw);
    assert_eq!(pin.read(&mut hw), Value::High);
    pin.toggle(&mut hw);
    assert_eq!(pin.read(&mut hw), Value::Low);
    assert_eq!(fake.borrow().calls[0], Call::Write(7, 0));
    assert!(fake.borrow().calls.contains(&Call::Write(7, 1)));
}

#[test]
fn input_reads_hardware_level() {
    let mut reg = PinRegistry::new();
    let (mut hw, fake) = fake_board();
    let pin = Pin::<Input>::new(&mut reg, 5).unwrap();
    assert_eq!(pin.read(&mut hw), Value::Low);
    fake.borrow_mut().levels.insert(5, 1);
    assert_eq!(pin.read(&mut hw), Value::High);
}

#[test]
fn isr_mode_is_sent_and_refusal_is_reported() {
    let mut reg = PinRegistry::new();
    let (mut hw, fake) = fake_board();
    let pin = Pin::<Input>::new(&mut reg, 5).unwrap();
    assert!(pin.set_isr_mode(&mut hw, IsrMode::Both).is_ok());
    assert_eq!(fake.borrow().calls.last(), Some(&Call::Isr(5, 8)));
    assert_eq!(IsrMode::Rising.code(), 2);
    assert_eq!(IsrMode::Falling.code(), 4);
    assert_eq!(IsrMode::Unknown.code(), 0);
    assert_eq!(IsrMode::Disabled.code(), 16);
    fake.borrow_mut().fail_isr = true;
    let r = pin.set_isr_mode(&mut hw, IsrMode::Rising);
    assert!(matches!(r, Err(WiringXError::Other(_))));
}

#[test]
fn interrupt_wait_times_out() {
    let mut reg = PinRegistry::new();
    let (mut hw, fake) = fake_board();
    let pin = Pin::<Input>::new(&mut reg, 5).unwrap();
    assert_eq!(pin.wait_for_interrupt(&mut hw, 250), Err(InterruptTimeOut));
    assert_eq!(fake.borrow().calls.last(), Some(&Call::Wait(5, 250)));
    assert_eq!(pin.wait_for_interrupt(&mut hw, MAX_TIMEOUT_MS), Err(InterruptTimeOut));
    assert_eq!(fake.borrow().calls.last(), Some(&Call::Wait(5, i32::MAX)));
    fake.borrow_mut().interrupt_status = 1;
    assert_eq!(pin.wait_for_interrupt(&mut hw, 250), Ok(()));
}

#[test]
fn interrupt_outcome_reads_status() {
    assert_eq!(interrupt_outcome(1), Ok(()));
    assert_eq!(interrupt_outcome(0), Err(InterruptTimeOut));
    assert_eq!(interrupt_outcome(-1), Err(InterruptTimeOut));
}

#[test]
fn setup_steps_follow_statuses() {
    assert!(matches!(SetupStep::SetPeriod.next(0), SetupStep::SetDuty));
    assert!(matches!(SetupStep::SetPeriod.next(-1), SetupStep::ZeroDuty));
    assert!(matches!(SetupStep::ZeroDuty.next(-1), SetupStep::Failed(WiringXError::Unsupported)));
    assert!(matches!(SetupStep::RetryPeriod.next(0), SetupStep::SetDuty));
    assert!(matches!(
        SetupStep::Enable.next(-3),
        SetupStep::Failed(WiringXError::InvalidArgument)
    ));
    assert!(matches!(SetupStep::Enable.next(0), SetupStep::Done));
    assert!(SetupStep::Done.is_finished());
    assert!(!SetupStep::SetPolarity.is_finished());
    assert_eq!(
        SetupStep::SetPolarity.command(1000, 10, Polarity::Inversed),
        Some(PwmCommand::SetPolarity(1))
    );
    assert_eq!(SetupStep::ZeroDuty.command(1000, 10, Polarity::Normal), Some(PwmCommand::SetDuty(0)));
    assert_eq!(SetupStep::Done.command(1000, 10, Polarity::Normal), None);
}

#[test]
fn isr_outcome_reads_status() {
    assert!(isr_outcome(0).is_ok());
    assert!(isr_outcome(3).is_ok());
    assert!(matches!(isr_outcome(-1), Err(WiringXError::Other(_))));
}

#[test]
fn value_defaults_to_low() {
    assert_eq!(Value::default(), Value::Low);
}
