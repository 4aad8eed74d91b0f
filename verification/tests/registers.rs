use stm32g4_hal::registers::{extract, merge, place, Access, Register, RegisterBank, Traced};
use stm32g4_hal::sim::{Rules, SimulatedRcc, State};

const ALL: [Register; 13] = [
    Register::Cr,
    Register::Cfgr,
    Register::Pllcfgr,
    Register::Ahb1rstr,
    Register::Ahb2rstr,
    Register::Ahb3rstr,
    Register::Apb1rstr1,
    Register::Ahb1enr,
    Register::Ahb2enr,
    Register::Ahb3enr,
    Register::Apb1enr1,
    Register::Ccipr,
    Register::FlashAcr,
];

const INSTANT: Rules = Rules { hse_startup: 0, pll_lock: 0, pll_release: 0 };

#[test]
fn register_addresses() {
    assert_eq!(Register::Cr.address(), 0x4002_1000);
    assert_eq!(Register::Cfgr.address(), 0x4002_1008);
    assert_eq!(Register::Pllcfgr.address(), 0x4002_100C);
    assert_eq!(Register::Ahb1rstr.address(), 0x4002_1028);
    assert_eq!(Register::Ahb2rstr.address(), 0x4002_102C);
    assert_eq!(Register::Ahb3rstr.address(), 0x4002_1030);
    assert_eq!(Register::Apb1rstr1.address(), 0x4002_1038);
    assert_eq!(Register::Ahb1enr.address(), 0x4002_1048);
    assert_eq!(Register::Ahb2enr.address(), 0x4002_104C);
    assert_eq!(Register::Ahb3enr.address(), 0x4002_1050);
    assert_eq!(Register::Apb1enr1.address(), 0x4002_1058);
    assert_eq!(Register::Ccipr.address(), 0x4002_1088);
    assert_eq!(Register::FlashAcr.address(), 0x4002_2000);
}

#[test]
fn register_addresses_are_distinct() {
    for a in ALL {
        for b in ALL {
            assert_eq!(a.address() == b.address(), a == b);
        }
    }
}

#[test]
fn merge_replaces_only_what_the_mask_selects() {
    assert_eq!(merge(0xFFFF_FFFF, 0x0000_00F0, 0x0000_0080), 0xFFFF_FF8F);
    assert_eq!(merge(0x0000_0000, 0x0000_00F0, 0xFFFF_FFFF), 0x0000_00F0);
    assert_eq!(merge(0x1234_5678, 0, 0xFFFF_FFFF), 0x1234_5678);
    assert_eq!(merge(0x1234_5678, 0xFFFF_FFFF, 0x9ABC_DEF0), 0x9ABC_DEF0);
}

#[test]
fn place_and_extract_are_inverse_for_codes_that_fit() {
    assert_eq!(place(72, 8, 0x0000_7F00), 0x0000_4800);
    assert_eq!(place(12, 27, 0xF800_0000), 0x6000_0000);
    assert_eq!(place(2, 21, 0x0060_0000), 0x0040_0000);
    assert_eq!(place(0, 25, 0x0600_0000), 0);
    assert_eq!(extract(0x6040_4813, 8, 0x0000_7F00), 72);
    assert_eq!(extract(0x6040_4813, 27, 0xF800_0000), 12);
    assert_eq!(extract(0x6040_4813, 21, 0x0060_0000), 2);
    assert_eq!(extract(0x6040_4813, 4, 0x0000_00F0), 1);
    assert_eq!(extract(0x6040_4813, 0, 0x0000_0003), 3);
    for code in 0..16u8 {
        let word = merge(0xFFFF_FFFF, 0x0000_00F0, place(code, 4, 0x0000_00F0));
        assert_eq!(extract(word, 4, 0x0000_00F0), code as u32);
    }
}

#[test]
fn place_drops_what_the_field_has_no_room_for() {
    assert_eq!(place(0x1F, 4, 0x0000_00F0), 0x0000_00F0);
    assert_eq!(place(0xFF, 0, 0x0000_000F), 0x0000_000F);
    assert_eq!(place(0xFF, 31, 0x8000_0000), 0x8000_0000);
}

#[test]
fn simulated_registers_take_the_merged_word() {
    for reg in ALL {
        if reg == Register::Cr {
            continue;
        }
        let before = State::blank().with_word(reg, 0xAAAA_5555);
        let mut sim = SimulatedRcc::new(INSTANT, before);
        sim.modify(reg, 0x0000_FFFF, 0x1234_5678);
        assert_eq!(sim.peek(reg), 0xAAAA_5678);
        assert_eq!(sim.read(reg), 0xAAAA_5678);
        assert_eq!(sim.state(), State::blank().with_word(reg, 0xAAAA_5678));
        assert_eq!(
            sim.log(),
            &vec![
                Access::Modify { reg, mask: 0x0000_FFFF, bits: 0x1234_5678 },
                Access::Read { reg, value: 0xAAAA_5678 },
            ]
        );
    }
}

#[test]
fn simulated_status_bits_cannot_be_written() {
    let mut sim = SimulatedRcc::new(INSTANT, State::blank());
    sim.modify(Register::Cr, 0x0202_0000, 0x0202_0000);
    assert_eq!(sim.peek(Register::Cr), 0);
    assert_eq!(sim.read(Register::Cr), 0);
}

#[test]
fn simulated_oscillator_is_ready_after_its_startup() {
    let rules = Rules { hse_startup: 2, pll_lock: 0, pll_release: 0 };
    let mut sim = SimulatedRcc::new(rules, State::blank());
    assert_eq!(sim.read(Register::Cr), 0);
    sim.modify(Register::Cr, 0x0001_0000, 0x0001_0000);
    assert_eq!(sim.state().hse_wait, 2);
    assert_eq!(sim.read(Register::Cr), 0x0001_0000);
    assert_eq!(sim.read(Register::Cr), 0x0001_0000);
    assert_eq!(sim.read(Register::Cr), 0x0003_0000);
    assert_eq!(sim.read(Register::Cr), 0x0003_0000);
    sim.modify(Register::Cr, 0x0001_0000, 0);
    assert_eq!(sim.peek(Register::Cr), 0);
}

#[test]
fn simulated_pll_follows_its_enable_bit() {
    let rules = Rules { hse_startup: 0, pll_lock: 1, pll_release: 2 };
    let mut sim = SimulatedRcc::new(rules, State::blank());
    sim.modify(Register::Cr, 0x0100_0000, 0x0100_0000);
    assert_eq!(sim.read(Register::Cr), 0x0100_0000);
    assert_eq!(sim.read(Register::Cr), 0x0300_0000);
    sim.modify(Register::Cr, 0x0100_0000, 0);
    assert_eq!(sim.read(Register::Cr), 0x0200_0000);
    assert_eq!(sim.read(Register::Cr), 0x0200_0000);
    assert_eq!(sim.read(Register::Cr), 0);
    assert_eq!(sim.read(Register::Cr), 0);
}

#[test]
fn simulated_reads_of_other_registers_do_not_let_time_pass() {
    let rules = Rules { hse_startup: 1, pll_lock: 0, pll_release: 0 };
    let mut sim = SimulatedRcc::new(rules, State::blank());
    sim.modify(Register::Cr, 0x0001_0000, 0x0001_0000);
    assert_eq!(sim.read(Register::Cfgr), 0);
    assert_eq!(sim.read(Register::Pllcfgr), 0);
    assert_eq!(sim.peek(Register::Cr), 0x0001_0000);
    assert_eq!(sim.read(Register::Cr), 0x0001_0000);
    assert_eq!(sim.read(Register::Cr), 0x0003_0000);
}

#[test]
fn simulated_delay_is_recorded_and_changes_nothing() {
    let mut sim = SimulatedRcc::new(INSTANT, State::blank());
    sim.delay(10_000);
    assert_eq!(sim.state(), State::blank());
    assert_eq!(sim.rules(), INSTANT);
    assert_eq!(sim.log(), &vec![Access::Delay { iterations: 10_000 }]);
}

#[test]
fn traced_bank_passes_every_access_on() {
    let mut regs = Traced::new(SimulatedRcc::new(INSTANT, State::blank()));
    regs.modify(Register::Ahb2enr, 0x1, 0x1);
    assert_eq!(regs.read(Register::Ahb2enr), 1);
    regs.delay(3);
    assert_eq!(regs.bank().peek(Register::Ahb2enr), 1);
    let sim = regs.into_bank();
    assert_eq!(
        sim.log(),
        &vec![
            Access::Modify { reg: Register::Ahb2enr, mask: 1, bits: 1 },
            Access::Read { reg: Register::Ahb2enr, value: 1 },
            Access::Delay { iterations: 3 },
        ]
    );
}
