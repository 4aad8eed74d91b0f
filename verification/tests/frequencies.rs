use stm32g4_hal::rcc::{
    plan_clocks, pll_output, Clocks, PLLClocks, HSE_NOMINAL_FREQ, HSI_FREQ, SYSCLK_MAX,
};
use stm32g4_hal::time::Hertz;

#[test]
fn main_pll_output_is_144_mhz() {
    assert_eq!(pll_output(Hertz(8_000_000), 2, 72, 2), Some(Hertz(144_000_000)));
    assert_eq!(plan_clocks(Hertz(8_000_000)).unwrap().sysclk, Hertz(144_000_000));
    assert_eq!(plan_clocks(Hertz(8_000_000)).unwrap().pll_clk.r, Hertz(144_000_000));
}

#[test]
fn auxiliary_q_output_is_48_mhz() {
    assert_eq!(pll_output(Hertz(8_000_000), 2, 72, 6), Some(Hertz(48_000_000)));
    assert_eq!(plan_clocks(Hertz(8_000_000)).unwrap().pll_clk.q, Some(Hertz(48_000_000)));
}

#[test]
fn auxiliary_p_output_is_24_mhz() {
    assert_eq!(pll_output(Hertz(8_000_000), 2, 72, 12), Some(Hertz(24_000_000)));
    assert_eq!(plan_clocks(Hertz(8_000_000)).unwrap().pll_clk.p, Some(Hertz(24_000_000)));
}

#[test]
fn pll_output_rounds_each_quotient_down() {
    assert_eq!(pll_output(Hertz(10), 3, 8, 2), Some(Hertz(13)));
    assert_eq!(pll_output(Hertz(7), 2, 9, 4), Some(Hertz(7)));
    assert_eq!(pll_output(Hertz(1), 1, 8, 8), Some(Hertz(1)));
}

#[test]
fn pll_output_refuses_what_is_no_frequency() {
    assert_eq!(pll_output(Hertz(8_000_000), 0, 72, 2), None);
    assert_eq!(pll_output(Hertz(8_000_000), 2, 72, 0), None);
    assert_eq!(pll_output(Hertz(0), 2, 72, 2), None);
    assert_eq!(pll_output(Hertz(1), 2, 8, 8), None);
    assert_eq!(pll_output(Hertz(8_000_000), 2, 0, 2), None);
    assert_eq!(pll_output(Hertz(u32::MAX), 1, 2, 1), None);
    assert_eq!(pll_output(Hertz(u32::MAX), 1, u32::MAX, 1), None);
    assert_eq!(pll_output(Hertz(u32::MAX), 1, u32::MAX, u32::MAX), Some(Hertz(u32::MAX)));
    assert_eq!(pll_output(Hertz(u32::MAX), 2, 2, 1), Some(Hertz(u32::MAX)));
}

#[test]
fn plan_gives_the_whole_tree() {
    assert_eq!(
        plan_clocks(Hertz(HSE_NOMINAL_FREQ)),
        Some(Clocks {
            sysclk: Hertz(144_000_000),
            hclk: Hertz(144_000_000),
            pclk1: Hertz(72_000_000),
            pclk2: Hertz(36_000_000),
            pll_clk: PLLClocks {
                r: Hertz(144_000_000),
                q: Some(Hertz(48_000_000)),
                p: Some(Hertz(24_000_000)),
            },
        })
    );
}

#[test]
fn plan_is_valid_up_to_the_rated_system_clock() {
    assert_eq!(plan_clocks(Hertz(0)), None);
    assert!(plan_clocks(Hertz(1)).is_some());
    assert_eq!(SYSCLK_MAX, 170_000_000);
    assert_eq!(plan_clocks(Hertz(9_444_444)).unwrap().sysclk, Hertz(169_999_992));
    assert_eq!(plan_clocks(Hertz(9_444_445)), None);
    assert_eq!(plan_clocks(Hertz(HSI_FREQ)), None);
    assert_eq!(plan_clocks(Hertz(u32::MAX)), None);
}

#[test]
fn hertz_from_larger_units() {
    assert_eq!(Hertz::hz(8_000_000), Hertz(8_000_000));
    assert_eq!(Hertz::khz(8_000), Some(Hertz(8_000_000)));
    assert_eq!(Hertz::mhz(144), Some(Hertz(144_000_000)));
    assert_eq!(Hertz::mhz(0), Some(Hertz(0)));
    assert_eq!(Hertz::khz(4_294_967), Some(Hertz(4_294_967_000)));
    assert_eq!(Hertz::khz(4_294_968), None);
    assert_eq!(Hertz::mhz(4_294), Some(Hertz(4_294_000_000)));
    assert_eq!(Hertz::mhz(4_295), None);
    assert_eq!(Hertz::mhz(u32::MAX), None);
}

#[test]
fn hertz_behind_a_prescaler() {
    assert_eq!(Hertz(144_000_000).divided_by(2), Some(Hertz(72_000_000)));
    assert_eq!(Hertz(144_000_000).divided_by(1), Some(Hertz(144_000_000)));
    assert_eq!(Hertz(18).divided_by(4), Some(Hertz(4)));
    assert_eq!(Hertz(144_000_000).divided_by(0), None);
    assert_eq!(Hertz(3).divided_by(4), None);
    assert_eq!(Hertz(0).divided_by(1), None);
    assert_eq!(Hertz(4).divided_by(4), Some(Hertz(1)));
}
