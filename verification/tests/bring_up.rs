use stm32g4_hal::dividers::DividerField;
use stm32g4_hal::rcc::{ClockError, Clocks, PLLClocks, CFGR};
use stm32g4_hal::registers::{extract, Access, Register, Traced};
use stm32g4_hal::sim::{Rules, SimulatedRcc, State};
use stm32g4_hal::time::Hertz;

fn hardware(hse_startup: u32, pll_lock: u32, pll_release: u32) -> Traced<SimulatedRcc> {
    Traced::new(SimulatedRcc::new(
        Rules { hse_startup, pll_lock, pll_release },
        State::blank(),
    ))
}

fn modify(reg: Register, mask: u32, bits: u32) -> Access {
    Access::Modify { reg, mask, bits }
}

fn read_cr(value: u32) -> Access {
    Access::Read { reg: Register::Cr, value }
}

fn touches_clock_switch(access: &Access) -> bool {
    match access {
        Access::Modify { reg: Register::Cfgr, mask, .. } => mask & 0x3 != 0,
        _ => false,
    }
}

fn sees_lock(access: &Access) -> bool {
    match access {
        Access::Read { reg: Register::Cr, value } => value & 0x0200_0000 != 0,
        _ => false,
    }
}

#[test]
fn freeze_runs_the_sequence_in_order() {
    let mut regs = hardware(2, 1, 0);
    let result = CFGR::default().use_hse(Hertz(8_000_000)).freeze(&mut regs, 100);
    assert!(result.is_ok());
    let expected = vec![
        // oscillator on, polled until ready
        modify(Register::Cr, 0x0001_0000, 0x0001_0000),
        read_cr(0x0001_0000),
        read_cr(0x0001_0000),
        read_cr(0x0003_0000),
        // PLL off, polled until unlocked
        modify(Register::Cr, 0x0100_0000, 0),
        read_cr(0x0003_0000),
        // PLL programmed in one write, then on, polled until locked
        modify(Register::Pllcfgr, 0xFE60_7FF3, 0x6040_4813),
        modify(Register::Cr, 0x0100_0000, 0x0100_0000),
        read_cr(0x0103_0000),
        read_cr(0x0303_0000),
        // PLL outputs
        modify(Register::Pllcfgr, 0x0111_0000, 0x0111_0000),
        // switch behind the larger AHB prescaler, idle, prescaler back
        modify(Register::Cfgr, 0x0000_3FF3, 0x0000_2C83),
        Access::Delay { iterations: 10_000 },
        modify(Register::Cfgr, 0x0000_00F0, 0),
        // clock output
        modify(Register::Cfgr, 0x7000_0000, 0x4000_0000),
        modify(Register::Cfgr, 0x0F00_0000, 0x0100_0000),
        // peripheral clocks
        modify(Register::Apb1enr1, 0x0200_0000, 0x0200_0000),
        modify(Register::Ccipr, 0x0300_0000, 0x0200_0000),
        modify(Register::Ahb2enr, 0x1, 0x1),
        modify(Register::Ahb2enr, 0x2, 0x2),
        modify(Register::Ahb2enr, 0x4, 0x4),
        modify(Register::Ccipr, 0x0C00_0000, 0x0800_0000),
        modify(Register::Apb1enr1, 0x0080_0000, 0x0080_0000),
    ];
    assert_eq!(regs.bank().log(), &expected);
}

#[test]
fn freeze_leaves_the_registers_as_planned() {
    let mut regs = hardware(0, 0, 0);
    let result = CFGR::default().freeze(&mut regs, 10);
    assert!(result.is_ok());
    let sim = regs.into_bank();
    assert_eq!(sim.peek(Register::Cr), 0x0303_0000);
    assert_eq!(sim.peek(Register::Pllcfgr), 0x6151_4813);
    assert_eq!(sim.peek(Register::Cfgr), 0x4100_2C03);
    assert_eq!(sim.peek(Register::Apb1enr1), 0x0280_0000);
    assert_eq!(sim.peek(Register::Ahb2enr), 0x7);
    assert_eq!(sim.peek(Register::Ccipr), 0x0A00_0000);
    assert_eq!(sim.peek(Register::FlashAcr), 0);
}

#[test]
fn freeze_terminates_when_the_pll_locks_at_once() {
    let mut regs = hardware(0, 0, 0);
    let clocks = CFGR::default()
        .use_hse(Hertz(8_000_000))
        .freeze(&mut regs, 1)
        .expect("every wait is met at its first poll");
    let pllcfgr = regs.bank().peek(Register::Pllcfgr);
    let m = DividerField::PllM.decode(extract(pllcfgr, 4, 0x0000_00F0) as u8).unwrap();
    let n = DividerField::PllN.decode(extract(pllcfgr, 8, 0x0000_7F00) as u8).unwrap();
    let r = DividerField::PllR.decode(extract(pllcfgr, 25, 0x0600_0000) as u8).unwrap();
    assert_eq!((m, n, r), (2, 72, 2));
    assert_eq!(clocks.sysclk, Hertz(8_000_000 / m * n / r));
    assert_eq!(Some(clocks.sysclk), stm32g4_hal::rcc::pll_output(Hertz(8_000_000), m, n, r));
}

#[test]
fn freeze_reports_the_clocks_of_the_plan() {
    let mut regs = hardware(3, 5, 0);
    let clocks = CFGR::default().use_hse(Hertz(8_000_000)).freeze(&mut regs, 50);
    assert_eq!(
        clocks,
        Ok(Clocks {
            sysclk: Hertz(144_000_000),
            hclk: Hertz(144_000_000),
            pclk1: Hertz(72_000_000),
            pclk2: Hertz(36_000_000),
            pll_clk: PLLClocks {
                r: Hertz(144_000_000),
                q: Some(Hertz(48_000_000)),
                p: Some(Hertz(24_000_000)),
            },
        })
    );
}

#[test]
fn freeze_assumes_the_nominal_oscillator_where_none_is_named() {
    let mut named = hardware(0, 0, 0);
    let mut unnamed = hardware(0, 0, 0);
    let a = CFGR::default().use_hse(Hertz(8_000_000)).freeze(&mut named, 4);
    let b = CFGR::default().freeze(&mut unnamed, 4);
    assert_eq!(a, b);
    assert_eq!(named.bank().log(), unnamed.bank().log());
}

#[test]
fn freeze_ignores_the_advisory_settings() {
    let mut plain = hardware(1, 1, 0);
    let mut advised = hardware(1, 1, 0);
    let a = CFGR::default().use_hse(Hertz(8_000_000)).freeze(&mut plain, 4);
    let b = CFGR::default()
        .use_hse(Hertz(8_000_000))
        .bypass_hse()
        .enable_css()
        .hclk(Hertz(100_000_000))
        .pclk1(Hertz(50_000_000))
        .pclk2(Hertz(25_000_000))
        .sysclk(Hertz(100_000_000))
        .freeze(&mut advised, 4);
    assert_eq!(a, b);
    assert_eq!(plain.bank().log(), advised.bank().log());
}

#[test]
fn freeze_scales_with_the_oscillator() {
    let mut regs = hardware(0, 0, 0);
    let clocks = CFGR::default().use_hse(Hertz(4_000_000)).freeze(&mut regs, 4).unwrap();
    assert_eq!(clocks.sysclk, Hertz(72_000_000));
    assert_eq!(clocks.pclk1, Hertz(36_000_000));
    assert_eq!(clocks.pclk2, Hertz(18_000_000));
    assert_eq!(clocks.pll_clk.q, Some(Hertz(24_000_000)));
    assert_eq!(clocks.pll_clk.p, Some(Hertz(12_000_000)));
}

#[test]
fn freeze_rounds_the_second_bus_down() {
    let mut regs = hardware(0, 0, 0);
    let clocks = CFGR::default().use_hse(Hertz(1)).freeze(&mut regs, 4).unwrap();
    assert_eq!(clocks.sysclk, Hertz(18));
    assert_eq!(clocks.pclk1, Hertz(9));
    assert_eq!(clocks.pclk2, Hertz(4));
}

#[test]
fn freeze_refuses_a_stopped_oscillator() {
    let mut regs = hardware(0, 0, 0);
    let result = CFGR::default().use_hse(Hertz(0)).freeze(&mut regs, 4);
    assert_eq!(result, Err(ClockError::InvalidFrequency));
    assert!(regs.bank().log().is_empty());
    assert_eq!(regs.bank().state(), State::blank());
}

#[test]
fn freeze_refuses_an_oscillator_too_fast_for_the_plan() {
    let mut regs = hardware(0, 0, 0);
    let result = CFGR::default().use_hse(Hertz(16_000_000)).freeze(&mut regs, 4);
    assert_eq!(result, Err(ClockError::InvalidFrequency));
    assert!(regs.bank().log().is_empty());
}

#[test]
fn freeze_accepts_the_fastest_oscillator_of_the_plan() {
    let mut regs = hardware(0, 0, 0);
    let fastest = 170_000_000 / 18;
    let clocks = CFGR::default().use_hse(Hertz(fastest)).freeze(&mut regs, 4).unwrap();
    assert_eq!(clocks.sysclk, Hertz(169_999_992));
    let mut regs = hardware(0, 0, 0);
    let result = CFGR::default().use_hse(Hertz(fastest + 1)).freeze(&mut regs, 4);
    assert_eq!(result, Err(ClockError::InvalidFrequency));
}

#[test]
fn freeze_gives_up_on_an_oscillator_that_does_not_start() {
    let mut regs = hardware(3, 0, 0);
    let result = CFGR::default().freeze(&mut regs, 3);
    assert_eq!(result, Err(ClockError::OscillatorStartupTimeout));
    let expected = vec![
        modify(Register::Cr, 0x0001_0000, 0x0001_0000),
        read_cr(0x0001_0000),
        read_cr(0x0001_0000),
        read_cr(0x0001_0000),
    ];
    assert_eq!(regs.bank().log(), &expected);
}

#[test]
fn freeze_meets_a_wait_at_its_last_poll() {
    let mut regs = hardware(3, 3, 0);
    let result = CFGR::default().freeze(&mut regs, 4);
    assert!(result.is_ok());
}

#[test]
fn freeze_polls_nothing_with_a_limit_of_zero() {
    let mut regs = hardware(0, 0, 0);
    let result = CFGR::default().freeze(&mut regs, 0);
    assert_eq!(result, Err(ClockError::OscillatorStartupTimeout));
    assert_eq!(regs.bank().log(), &vec![modify(Register::Cr, 0x0001_0000, 0x0001_0000)]);
}

#[test]
fn freeze_gives_up_on_a_pll_that_stays_locked() {
    let running = State { cr: 0x0300_0000, ..State::blank() };
    let rules = Rules { hse_startup: 0, pll_lock: 0, pll_release: 2 };
    let mut regs = Traced::new(SimulatedRcc::new(rules, running));
    let result = CFGR::default().freeze(&mut regs, 2);
    assert_eq!(result, Err(ClockError::PllDisableTimeout));
    let expected = vec![
        modify(Register::Cr, 0x0001_0000, 0x0001_0000),
        read_cr(0x0303_0000),
        modify(Register::Cr, 0x0100_0000, 0),
        read_cr(0x0203_0000),
        read_cr(0x0203_0000),
    ];
    assert_eq!(regs.bank().log(), &expected);
}

#[test]
fn freeze_waits_for_a_running_pll_to_unlock() {
    let running = State { cr: 0x0300_0000, ..State::blank() };
    let rules = Rules { hse_startup: 0, pll_lock: 0, pll_release: 2 };
    let mut regs = Traced::new(SimulatedRcc::new(rules, running));
    let result = CFGR::default().freeze(&mut regs, 3);
    assert!(result.is_ok());
    let log = regs.bank().log();
    assert_eq!(log[3], read_cr(0x0203_0000));
    assert_eq!(log[4], read_cr(0x0203_0000));
    assert_eq!(log[5], read_cr(0x0003_0000));
    assert_eq!(log[6], modify(Register::Pllcfgr, 0xFE60_7FF3, 0x6040_4813));
}

#[test]
fn freeze_gives_up_on_a_pll_that_does_not_lock() {
    let mut regs = hardware(0, 5, 0);
    let result = CFGR::default().freeze(&mut regs, 5);
    assert_eq!(result, Err(ClockError::PllLockTimeout));
    let log = regs.bank().log();
    assert_eq!(log.len(), 11);
    assert_eq!(log[5], modify(Register::Cr, 0x0100_0000, 0x0100_0000));
    assert_eq!(log[10], read_cr(0x0103_0000));
    assert!(log.iter().all(|access| !touches_clock_switch(access)));
    assert_eq!(regs.bank().peek(Register::Cfgr), 0);
}

#[test]
fn freeze_selects_the_pll_only_after_it_saw_the_lock() {
    for pll_lock in 0..6 {
        for hse_startup in 0..3 {
            let mut regs = hardware(hse_startup, pll_lock, 0);
            let result = CFGR::default().freeze(&mut regs, 8);
            assert!(result.is_ok());
            let log = regs.bank().log();
            let switches: Vec<usize> =
                (0..log.len()).filter(|&i| touches_clock_switch(&log[i])).collect();
            assert_eq!(switches.len(), 1);
            let switch = switches[0];
            assert_eq!(switch, (hse_startup + 1 + 1 + pll_lock + 1 + 5) as usize);
            assert_eq!(log[switch], modify(Register::Cfgr, 0x0000_3FF3, 0x0000_2C83));
            let enable = log
                .iter()
                .position(|a| *a == modify(Register::Cr, 0x0100_0000, 0x0100_0000))
                .unwrap();
            let lock = (0..log.len()).find(|&i| i > enable && sees_lock(&log[i])).unwrap();
            assert!(enable < lock && lock < switch);
            assert!(log[..lock].iter().all(|access| !sees_lock(access)));
        }
    }
}

#[test]
fn freeze_never_selects_the_pll_without_a_lock() {
    for limit in 0..4 {
        let mut regs = hardware(0, 4, 0);
        let result = CFGR::default().freeze(&mut regs, limit);
        assert!(result.is_err());
        let log = regs.bank().log();
        assert!(log.iter().all(|access| !touches_clock_switch(access)));
        assert!(log.iter().all(|access| !sees_lock(access)));
    }
}

#[test]
fn freeze_polls_one_more_time_than_the_hardware_takes() {
    for (hse_startup, pll_lock) in [(0u32, 0u32), (1, 0), (0, 1), (4, 7), (9, 9)] {
        let mut regs = hardware(hse_startup, pll_lock, 0);
        let result = CFGR::default().freeze(&mut regs, 10);
        assert_eq!(result.map(|clocks| clocks.sysclk), Ok(Hertz(144_000_000)));
        let log = regs.bank().log();
        let writes: Vec<usize> = (0..log.len())
            .filter(|&i| matches!(log[i], Access::Modify { .. }))
            .collect();
        // oscillator on, PLL off, PLL programmed, PLL on, PLL outputs
        assert_eq!(writes[0], 0);
        assert_eq!(writes[1], (hse_startup + 2) as usize);
        assert_eq!(writes[2], (hse_startup + 4) as usize);
        assert_eq!(writes[3], (hse_startup + 5) as usize);
        assert_eq!(writes[4], (hse_startup + pll_lock + 7) as usize);
        assert_eq!(log.len(), (hse_startup + pll_lock + 20) as usize);
    }
}

#[test]
fn freeze_fails_exactly_where_the_limit_is_not_above_the_rules() {
    for limit in 0..6u32 {
        for hse_startup in 0..6u32 {
            for pll_lock in 0..6u32 {
                let mut regs = hardware(hse_startup, pll_lock, 0);
                let result = CFGR::default().freeze(&mut regs, limit);
                let expected = if hse_startup >= limit {
                    Some(ClockError::OscillatorStartupTimeout)
                } else if pll_lock >= limit {
                    Some(ClockError::PllLockTimeout)
                } else {
                    None
                };
                assert_eq!(result.err(), expected);
            }
        }
    }
}

#[test]
fn run_on_the_model_ends_as_the_rules_fix() {
    for limit in 0..5u32 {
        for hse_startup in 0..5u32 {
            for pll_lock in 0..5u32 {
                let rules = Rules { hse_startup, pll_lock, pll_release: 0 };
                let (result, sim) = SimulatedRcc::run(rules, CFGR::default(), limit);
                if hse_startup >= limit {
                    assert_eq!(result, Err(ClockError::OscillatorStartupTimeout));
                    assert_eq!(sim.log().len(), (1 + limit) as usize);
                } else if pll_lock >= limit {
                    assert_eq!(result, Err(ClockError::PllLockTimeout));
                    assert_eq!(sim.log().len(), (hse_startup + 6 + limit) as usize);
                } else {
                    assert_eq!(result.map(|clocks| clocks.sysclk), Ok(Hertz(144_000_000)));
                    assert_eq!(sim.log().len(), (hse_startup + pll_lock + 20) as usize);
                }
                assert_eq!(sim.rules(), rules);
            }
        }
    }
}

#[test]
fn run_on_the_model_is_a_freeze_on_blank_registers() {
    let rules = Rules { hse_startup: 2, pll_lock: 3, pll_release: 1 };
    let (result, sim) = SimulatedRcc::run(rules, CFGR::default().use_hse(Hertz(4_000_000)), 9);
    let mut regs = hardware(2, 3, 1);
    let direct = CFGR::default().use_hse(Hertz(4_000_000)).freeze(&mut regs, 9);
    assert_eq!(result, direct);
    assert_eq!(sim.log(), regs.bank().log());
    assert_eq!(sim.state(), regs.bank().state());
    assert_eq!(result.unwrap().sysclk, Hertz(72_000_000));
}

#[test]
fn run_on_the_model_refuses_before_it_touches_a_register() {
    let rules = Rules { hse_startup: 0, pll_lock: 0, pll_release: 0 };
    let (result, sim) = SimulatedRcc::run(rules, CFGR::default().use_hse(Hertz(0)), 9);
    assert_eq!(result, Err(ClockError::InvalidFrequency));
    assert!(sim.log().is_empty());
    assert_eq!(sim.state(), State::blank());
}
