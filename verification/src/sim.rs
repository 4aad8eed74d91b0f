//! A register model to run the bring-up against on a host.
//!
//! The model keeps a word for every register and a record of every access.
//! It knows one thing about the hardware: the ready bit of the oscillator and
//! the lock bit of the PLL are owned by the hardware, and follow their enable
//! bits after a number of polls that the [`Rules`] set.

use vstd::prelude::*;
use crate::rcc::{
    after_lock, bring_up, oscillator_on, pll_off, pll_on, pll_plan, polls, shows,
    spec_plan_clocks, transcript, wait_expired, wait_met, ClockError, Clocks, CFGR,
};
use crate::registers::{
    merge, spec_merge, Access, History, Register, RegisterBank, Traced, CR_HSEON, CR_HSERDY,
    CR_PLLON, CR_PLLRDY,
};
use crate::time::Hertz;

verus! {

/// How long the simulated hardware takes.
#[derive(Clone, Copy, Debug, PartialEq, Eq, Structural)]
pub struct Rules {
    /// Polls that find the oscillator not ready after it was switched on.
    pub hse_startup: u32,
    /// Polls that find the PLL unlocked after it was switched on.
    pub pll_lock: u32,
    /// Polls that find the PLL still locked after it was switched off.
    pub pll_release: u32,
}

/// The words of the registers, and the polls that the status bits still wait
/// for.
#[derive(Clone, Copy, Debug, PartialEq, Eq, Structural)]
pub struct State {
    /// Clock control.
    pub cr: u32,
    /// Clock configuration.
    pub cfgr: u32,
    /// PLL configuration.
    pub pllcfgr: u32,
    /// AHB1 peripheral reset.
    pub ahb1rstr: u32,
    /// AHB2 peripheral reset.
    pub ahb2rstr: u32,
    /// AHB3 peripheral reset.
    pub ahb3rstr: u32,
    /// APB1 peripheral reset, first word.
    pub apb1rstr1: u32,
    /// AHB1 peripheral clock enable.
    pub ahb1enr: u32,
    /// AHB2 peripheral clock enable.
    pub ahb2enr: u32,
    /// AHB3 peripheral clock enable.
    pub ahb3enr: u32,
    /// APB1 peripheral clock enable, first word.
    pub apb1enr1: u32,
    /// Peripheral independent clock configuration.
    pub ccipr: u32,
    /// Flash access control.
    pub flash_acr: u32,
    /// Polls until the oscillator reports ready.
    pub hse_wait: u32,
    /// Polls until the PLL reports its new state.
    pub pll_wait: u32,
}

/// The bits of the clock control register that only the hardware writes.
pub const CR_STATUS: u32 = 0x0202_0000;

impl State {
    /// The word of a register.
    pub open spec fn spec_word(self, reg: Register) -> u32 {
        match reg {
            Register::Cr => self.cr,
            Register::Cfgr => self.cfgr,
            Register::Pllcfgr => self.pllcfgr,
            Register::Ahb1rstr => self.ahb1rstr,
            Register::Ahb2rstr => self.ahb2rstr,
            Register::Ahb3rstr => self.ahb3rstr,
            Register::Apb1rstr1 => self.apb1rstr1,
            Register::Ahb1enr => self.ahb1enr,
            Register::Ahb2enr => self.ahb2enr,
            Register::Ahb3enr => self.ahb3enr,
            Register::Apb1enr1 => self.apb1enr1,
            Register::Ccipr => self.ccipr,
            Register::FlashAcr => self.flash_acr,
        }
    }

    /// The state with `word` in a register, and all else as it is.
    pub open spec fn spec_with_word(self, reg: Register, word: u32) -> State {
        match reg {
            Register::Cr => State { cr: word, ..self },
            Register::Cfgr => State { cfgr: word, ..self },
            Register::Pllcfgr => State { pllcfgr: word, ..self },
            Register::Ahb1rstr => State { ahb1rstr: word, ..self },
            Register::Ahb2rstr => State { ahb2rstr: word, ..self },
            Register::Ahb3rstr => State { ahb3rstr: word, ..self },
            Register::Apb1rstr1 => State { apb1rstr1: word, ..self },
            Register::Ahb1enr => State { ahb1enr: word, ..self },
            Register::Ahb2enr => State { ahb2enr: word, ..self },
            Register::Ahb3enr => State { ahb3enr: word, ..self },
            Register::Apb1enr1 => State { apb1enr1: word, ..self },
            Register::Ccipr => State { ccipr: word, ..self },
            Register::FlashAcr => State { flash_acr: word, ..self },
        }
    }

    /// The state in which every register holds zero and nothing is waited
    /// for.
    pub open spec fn spec_blank() -> State {
        State {
            cr: 0,
            cfgr: 0,
            pllcfgr: 0,
            ahb1rstr: 0,
            ahb2rstr: 0,
            ahb3rstr: 0,
            apb1rstr1: 0,
            ahb1enr: 0,
            ahb2enr: 0,
            ahb3enr: 0,
            apb1enr1: 0,
            ccipr: 0,
            flash_acr: 0,
            hse_wait: 0,
            pll_wait: 0,
        }
    }

    /// The state after the hardware looked at its enable bits once more, as
    /// it does at every poll of the clock control register.
    ///
    /// An oscillator that is on and not ready becomes ready once nothing is
    /// left to wait for, and is waited for one poll less otherwise.  The PLL
    /// does the same towards the state of its enable bit, locked or unlocked.
    pub open spec fn spec_settled(self) -> State {
        let hse_pending = self.cr & CR_HSEON != 0 && self.cr & CR_HSERDY == 0;
        let pll_rising = self.cr & CR_PLLON != 0 && self.cr & CR_PLLRDY == 0;
        let pll_falling = self.cr & CR_PLLON == 0 && self.cr & CR_PLLRDY != 0;
        let after_hse = if hse_pending && self.hse_wait == 0 {
            self.cr | CR_HSERDY
        } else {
            self.cr
        };
        let after_pll = if pll_rising && self.pll_wait == 0 {
            after_hse | CR_PLLRDY
        } else if pll_falling && self.pll_wait == 0 {
            after_hse & !CR_PLLRDY
        } else {
            after_hse
        };
        State {
            cr: after_pll,
            hse_wait: if hse_pending && self.hse_wait > 0 {
                (self.hse_wait - 1) as u32
            } else {
                self.hse_wait
            },
            pll_wait: if (pll_rising || pll_falling) && self.pll_wait > 0 {
                (self.pll_wait - 1) as u32
            } else {
                self.pll_wait
            },
            ..self
        }
    }

    /// The state after a read of a register: a read of the clock control
    /// register lets the status bits settle first, any other read changes
    /// nothing.
    pub open spec fn spec_after_read(self, reg: Register) -> State {
        if reg == Register::Cr {
            self.spec_settled()
        } else {
            self
        }
    }

    /// The state after a read-modify-write.
    ///
    /// In the clock control register the status bits keep their value
    /// whatever is written, but that the ready bit of the oscillator falls
    /// with its enable bit; an enable bit that changes starts the wait that
    /// the rules give for it.  Any other register takes the merged word.
    pub open spec fn spec_after_modify(
        self,
        rules: Rules,
        reg: Register,
        mask: u32,
        bits: u32,
    ) -> State {
        if reg == Register::Cr {
            let merged = spec_merge(self.cr, mask & !CR_STATUS, bits);
            let hse_was_on = self.cr & CR_HSEON != 0;
            let hse_is_on = merged & CR_HSEON != 0;
            let pll_was_on = self.cr & CR_PLLON != 0;
            let pll_is_on = merged & CR_PLLON != 0;
            State {
                cr: if hse_is_on {
                    merged
                } else {
                    merged & !CR_HSERDY
                },
                hse_wait: if hse_is_on && !hse_was_on {
                    rules.hse_startup
                } else {
                    self.hse_wait
                },
                pll_wait: if pll_is_on && !pll_was_on {
                    rules.pll_lock
                } else if !pll_is_on && pll_was_on {
                    rules.pll_release
                } else {
                    self.pll_wait
                },
                ..self
            }
        } else {
            self.spec_with_word(reg, spec_merge(self.spec_word(reg), mask, bits))
        }
    }

    /// See [`State::spec_blank`].
    pub fn blank() -> (s: State)
        ensures
            s == State::spec_blank(),
    {
        State {
            cr: 0,
            cfgr: 0,
            pllcfgr: 0,
            ahb1rstr: 0,
            ahb2rstr: 0,
            ahb3rstr: 0,
            apb1rstr1: 0,
            ahb1enr: 0,
            ahb2enr: 0,
            ahb3enr: 0,
            apb1enr1: 0,
            ccipr: 0,
            flash_acr: 0,
            hse_wait: 0,
            pll_wait: 0,
        }
    }

    /// See [`State::spec_word`].
    pub fn word(&self, reg: Register) -> (w: u32)
        ensures
            w == self.spec_word(reg),
    {
        match reg {
            Register::Cr => self.cr,
            Register::Cfgr => self.cfgr,
            Register::Pllcfgr => self.pllcfgr,
            Register::Ahb1rstr => self.ahb1rstr,
            Register::Ahb2rstr => self.ahb2rstr,
            Register::Ahb3rstr => self.ahb3rstr,
            Register::Apb1rstr1 => self.apb1rstr1,
            Register::Ahb1enr => self.ahb1enr,
            Register::Ahb2enr => self.ahb2enr,
            Register::Ahb3enr => self.ahb3enr,
            Register::Apb1enr1 => self.apb1enr1,
            Register::Ccipr => self.ccipr,
            Register::FlashAcr => self.flash_acr,
        }
    }

    /// See [`State::spec_with_word`].
    pub fn with_word(self, reg: Register, word: u32) -> (s: State)
        ensures
            s == self.spec_with_word(reg, word),
    {
        let mut s = self;
        match reg {
            Register::Cr => {
                s.cr = word;
            },
            Register::Cfgr => {
                s.cfgr = word;
            },
            Register::Pllcfgr => {
                s.pllcfgr = word;
            },
            Register::Ahb1rstr => {
                s.ahb1rstr = word;
            },
            Register::Ahb2rstr => {
                s.ahb2rstr = word;
            },
            Register::Ahb3rstr => {
                s.ahb3rstr = word;
            },
            Register::Apb1rstr1 => {
                s.apb1rstr1 = word;
            },
            Register::Ahb1enr => {
                s.ahb1enr = word;
            },
            Register::Ahb2enr => {
                s.ahb2enr = word;
            },
            Register::Ahb3enr => {
                s.ahb3enr = word;
            },
            Register::Apb1enr1 => {
                s.apb1enr1 = word;
            },
            Register::Ccipr => {
                s.ccipr = word;
            },
            Register::FlashAcr => {
                s.flash_acr = word;
            },
        }
        s
    }

    /// See [`State::spec_settled`].
    pub fn settled(self) -> (s: State)
        ensures
            s == self.spec_settled(),
    {
        let hse_pending: bool = self.cr & CR_HSEON != 0 && self.cr & CR_HSERDY == 0;
        let pll_rising: bool = self.cr & CR_PLLON != 0 && self.cr & CR_PLLRDY == 0;
        let pll_falling: bool = self.cr & CR_PLLON == 0 && self.cr & CR_PLLRDY != 0;
        let mut s = self;
        if hse_pending {
            if self.hse_wait == 0 {
                s.cr = s.cr | CR_HSERDY;
            } else {
                s.hse_wait = self.hse_wait - 1;
            }
        }
        if pll_rising || pll_falling {
            if self.pll_wait == 0 {
                if pll_rising {
                    s.cr = s.cr | CR_PLLRDY;
                } else {
                    s.cr = s.cr & !CR_PLLRDY;
                }
            } else {
                s.pll_wait = self.pll_wait - 1;
            }
        }
        s
    }

    /// See [`State::spec_after_modify`].
    pub fn after_modify(self, rules: Rules, reg: Register, mask: u32, bits: u32) -> (s: State)
        ensures
            s == self.spec_after_modify(rules, reg, mask, bits),
    {
        match reg {
            Register::Cr => {
                let merged: u32 = merge(self.cr, mask & !CR_STATUS, bits);
                let hse_was_on: bool = self.cr & CR_HSEON != 0;
                let hse_is_on: bool = merged & CR_HSEON != 0;
                let pll_was_on: bool = self.cr & CR_PLLON != 0;
                let pll_is_on: bool = merged & CR_PLLON != 0;
                let mut s = self;
                s.cr = if hse_is_on {
                    merged
                } else {
                    merged & !CR_HSERDY
                };
                if hse_is_on && !hse_was_on {
                    s.hse_wait = rules.hse_startup;
                }
                if pll_is_on && !pll_was_on {
                    s.pll_wait = rules.pll_lock;
                } else if !pll_is_on && pll_was_on {
                    s.pll_wait = rules.pll_release;
                }
                s
            },
            _ => {
                let word: u32 = merge(self.word(reg), mask, bits);
                self.with_word(reg, word)
            },
        }
    }
}

/// The simulated registers of reset and clock control and of the flash
/// interface.
pub struct SimulatedRcc {
    rules: Rules,
    origin: Ghost<State>,
    state: State,
    log: Vec<Access>,
}

impl SimulatedRcc {
    /// The registers hold what the recorded accesses made of what they held
    /// at first, and every recorded read holds what the model handed out.
    #[verifier::type_invariant]
    spec fn consistent(self) -> bool {
        &&& self.state == replay(self.rules, self.origin@, self.log@)
        &&& answers(self.rules, self.origin@, self.log@)
    }

    /// How long this hardware takes.
    pub closed spec fn spec_rules(&self) -> Rules {
        self.rules
    }

    /// What the registers held before the first access.
    pub closed spec fn spec_origin(&self) -> State {
        self.origin@
    }

    /// Whether what is recorded is what happened: the state is the replay of
    /// the record, and the record is one that the model answers.
    pub open spec fn faithful(&self) -> bool {
        &&& self.spec_state() == replay(self.spec_rules(), self.spec_origin(), self.spec_log())
        &&& answers(self.spec_rules(), self.spec_origin(), self.spec_log())
    }

    /// What the registers hold.
    pub closed spec fn spec_state(&self) -> State {
        self.state
    }

    /// The accesses made so far, oldest first.
    pub closed spec fn spec_log(&self) -> Seq<Access> {
        self.log@
    }

    /// Registers that hold `state`, hardware that behaves by `rules`, and no
    /// access made yet.
    pub fn new(rules: Rules, state: State) -> (sim: Self)
        ensures
            sim.spec_rules() == rules,
            sim.spec_origin() == state,
            sim.spec_state() == state,
            sim.spec_log() == Seq::<Access>::empty(),
    {
        SimulatedRcc { rules, origin: Ghost(state), state, log: Vec::new() }
    }

    /// Records an access together with the state it leaves behind.
    fn record(&mut self, state: State, access: Access)
        requires
            state == step(old(self).spec_rules(), old(self).spec_state(), access),
            access matches Access::Read { reg, value } ==> value == state.spec_word(reg),
        ensures
            final(self).spec_rules() == old(self).spec_rules(),
            final(self).spec_origin() == old(self).spec_origin(),
            final(self).spec_state() == state,
            final(self).spec_log() == old(self).spec_log().push(access),
    {
        proof {
            use_type_invariant(&*self);
        }
        let mut taken = SimulatedRcc::new(self.rules, state);
        core::mem::swap(self, &mut taken);
        let SimulatedRcc { rules, origin, state: _, log } = taken;
        let mut log = log;
        log.push(access);
        proof {
            assert(log@.drop_last() =~= old(self).log@);
        }
        *self = SimulatedRcc { rules, origin, state, log };
    }

    /// How long this hardware takes.
    pub fn rules(&self) -> (r: Rules)
        ensures
            r == self.spec_rules(),
    {
        self.rules
    }

    /// What the registers hold: what the recorded accesses made of what they
    /// held at first.
    pub fn state(&self) -> (s: State)
        ensures
            s == self.spec_state(),
            self.faithful(),
    {
        proof {
            use_type_invariant(self);
        }
        self.state
    }

    /// What a register holds, without the hardware noticing.
    pub fn peek(&self, reg: Register) -> (w: u32)
        ensures
            w == self.spec_state().spec_word(reg),
            self.faithful(),
    {
        proof {
            use_type_invariant(self);
        }
        self.state.word(reg)
    }

    /// The accesses made so far, oldest first.  The record is always
    /// faithful.
    pub fn log(&self) -> (l: &Vec<Access>)
        ensures
            l@ == self.spec_log(),
            self.faithful(),
    {
        proof {
            use_type_invariant(self);
        }
        &self.log
    }
}

impl RegisterBank for SimulatedRcc {
    type Setup = (Rules, State);

    /// The rules, and what the registers held before the first access.
    open spec fn setup(&self) -> (Rules, State) {
        (self.spec_rules(), self.spec_origin())
    }

    /// The accesses made so far, oldest first.
    open spec fn history(&self) -> History {
        self.spec_log()
    }

    fn read(&mut self, reg: Register) -> (value: u32)
        ensures
            final(self).spec_rules() == old(self).spec_rules(),
            final(self).spec_origin() == old(self).spec_origin(),
            final(self).spec_state() == old(self).spec_state().spec_after_read(reg),
            value == final(self).spec_state().spec_word(reg),
            final(self).spec_log() == old(self).spec_log().push(Access::Read { reg, value }),
    {
        let state: State = if reg == Register::Cr {
            self.state.settled()
        } else {
            self.state
        };
        let value: u32 = state.word(reg);
        self.record(state, Access::Read { reg, value });
        value
    }

    fn modify(&mut self, reg: Register, mask: u32, bits: u32)
        ensures
            final(self).spec_rules() == old(self).spec_rules(),
            final(self).spec_origin() == old(self).spec_origin(),
            final(self).spec_state() == old(self).spec_state().spec_after_modify(
                old(self).spec_rules(),
                reg,
                mask,
                bits,
            ),
            final(self).spec_log() == old(self).spec_log().push(
                Access::Modify { reg, mask, bits },
            ),
    {
        let state: State = self.state.after_modify(self.rules, reg, mask, bits);
        self.record(state, Access::Modify { reg, mask, bits });
    }

    fn delay(&mut self, iterations: u32)
        ensures
            final(self).spec_rules() == old(self).spec_rules(),
            final(self).spec_origin() == old(self).spec_origin(),
            final(self).spec_state() == old(self).spec_state(),
            final(self).spec_log() == old(self).spec_log().push(Access::Delay { iterations }),
    {
        let state: State = self.state;
        self.record(state, Access::Delay { iterations });
    }
}

/// The state that an access leaves behind.
pub open spec fn step(rules: Rules, state: State, access: Access) -> State {
    match access {
        Access::Read { reg, .. } => state.spec_after_read(reg),
        Access::Modify { reg, mask, bits } => state.spec_after_modify(rules, reg, mask, bits),
        Access::Delay { .. } => state,
    }
}

/// The state after the accesses of `trace`, made one after the other from
/// `state`.
pub open spec fn replay(rules: Rules, state: State, trace: Seq<Access>) -> State
    decreases trace.len(),
{
    if trace.len() == 0 {
        state
    } else {
        step(rules, replay(rules, state, trace.drop_last()), trace.last())
    }
}

/// Whether `trace` is one that the model gives from `state`: every read in it
/// holds the word that the model hands out at that point.
pub open spec fn answers(rules: Rules, state: State, trace: Seq<Access>) -> bool
    decreases trace.len(),
{
    trace.len() == 0 || {
        &&& answers(rules, state, trace.drop_last())
        &&& trace.last() matches Access::Read { reg, value } ==> value == replay(
            rules,
            state,
            trace,
        ).spec_word(reg)
    }
}

/// The state after `k` polls of the clock control register.
pub open spec fn polled(state: State, k: nat) -> State
    decreases k,
{
    if k == 0 {
        state
    } else {
        polled(state, (k - 1) as nat).spec_settled()
    }
}

/// The word that poll number `i`, counted from zero, finds in the clock
/// control register.
pub open spec fn poll_value(state: State, i: int) -> u32 {
    polled(state, (i + 1) as nat).cr
}

/// Accesses made one after the other are replayed one after the other.
pub proof fn lemma_replay_concat(rules: Rules, state: State, first: Seq<Access>, then: Seq<Access>)
    ensures
        replay(rules, state, first + then) == replay(rules, replay(rules, state, first), then),
        answers(rules, state, first + then) <==> answers(rules, state, first) && answers(
            rules,
            replay(rules, state, first),
            then,
        ),
    decreases then.len(),
{
    if then.len() == 0 {
        assert(first + then =~= first);
    } else {
        lemma_replay_concat(rules, state, first, then.drop_last());
        assert((first + then).drop_last() =~= first + then.drop_last());
        assert((first + then).last() == then.last());
    }
}

/// A single access is replayed as one step.
pub proof fn lemma_replay_one(rules: Rules, state: State, access: Access)
    ensures
        replay(rules, state, seq![access]) == step(rules, state, access),
{
    reveal_with_fuel(replay, 2);
    assert(seq![access].drop_last() =~= Seq::<Access>::empty());
}

/// A run of polls leaves the state that as many polls give, and the model
/// answers it exactly where each value is the word that its poll finds.
pub proof fn lemma_replay_polls(rules: Rules, state: State, values: Seq<u32>)
    ensures
        replay(rules, state, polls(values)) == polled(state, values.len()),
        answers(rules, state, polls(values)) <==> forall|i: int|
            0 <= i < values.len() ==> values[i] == #[trigger] poll_value(state, i),
    decreases values.len(),
{
    if values.len() > 0 {
        let fewer = values.drop_last();
        lemma_replay_polls(rules, state, fewer);
        assert(polls(values).drop_last() =~= polls(fewer));
        assert(polls(values).last() == Access::Read { reg: Register::Cr, value: values.last() });
        assert(replay(rules, state, polls(values)) == polled(state, values.len()));
        let n = values.len() - 1;
        assert(values.last() == values[n]);
        if answers(rules, state, polls(values)) {
            assert forall|i: int| 0 <= i < values.len() implies values[i] == #[trigger] poll_value(
                state,
                i,
            ) by {
                if i < n {
                    assert(fewer[i] == values[i]);
                }
            }
        }
        if forall|i: int| 0 <= i < values.len() ==> values[i] == #[trigger] poll_value(state, i) {
            assert forall|i: int| 0 <= i < fewer.len() implies fewer[i] == #[trigger] poll_value(
                state,
                i,
            ) by {
                assert(fewer[i] == values[i]);
            }
            assert(values[n] == poll_value(state, n));
        }
    }
}

/// An oscillator that was switched on, with the PLL off, is found not ready
/// for as many polls as it is waited for, and ready from the next poll on.
pub proof fn lemma_oscillator_starts(state: State, k: nat)
    requires
        state.cr == CR_HSEON,
    ensures
        polled(state, k) == (if k <= state.hse_wait {
            State { hse_wait: (state.hse_wait - k) as u32, ..state }
        } else {
            State { cr: CR_HSEON | CR_HSERDY, hse_wait: 0, ..state }
        }),
    decreases k,
{
    if k > 0 {
        lemma_oscillator_starts(state, (k - 1) as nat);
        assert(CR_HSEON & CR_HSEON != 0 && CR_HSEON & CR_HSERDY == 0 && CR_HSEON & CR_PLLON == 0
            && CR_HSEON & CR_PLLRDY == 0) by (bit_vector);
        lemma_ready_bits();
    }
}

/// With the oscillator ready and the PLL off and unlocked, polls change
/// nothing.
pub proof fn lemma_idle(state: State, k: nat)
    requires
        state.cr == CR_HSEON | CR_HSERDY,
    ensures
        polled(state, k) == state,
    decreases k,
{
    if k > 0 {
        lemma_idle(state, (k - 1) as nat);
        lemma_ready_bits();
    }
}

/// A PLL that was switched on, with the oscillator ready, is found unlocked
/// for as many polls as it is waited for, and locked from the next poll on.
pub proof fn lemma_pll_locks(state: State, k: nat)
    requires
        state.cr == CR_HSEON | CR_HSERDY | CR_PLLON,
    ensures
        polled(state, k) == (if k <= state.pll_wait {
            State { pll_wait: (state.pll_wait - k) as u32, ..state }
        } else {
            State { cr: CR_HSEON | CR_HSERDY | CR_PLLON | CR_PLLRDY, pll_wait: 0, ..state }
        }),
    decreases k,
{
    if k > 0 {
        lemma_pll_locks(state, (k - 1) as nat);
        lemma_locking_bits();
    }
}

/// A wait whose polls show the awaited state from poll number `first` on,
/// counted from zero, and not before: where the limit allows `first + 1`
/// polls it ends well after as many, and where it does not it expires.
pub proof fn lemma_wait_counts(values: Seq<u32>, mask: u32, set: bool, limit: u32, first: u32)
    requires
        forall|i: int|
            0 <= i < values.len() ==> (shows(#[trigger] values[i], mask, set) <==> i >= first),
        wait_met(values, mask, set, limit) || wait_expired(values, mask, set, limit),
    ensures
        first < limit ==> wait_met(values, mask, set, limit) && !wait_expired(
            values,
            mask,
            set,
            limit,
        ) && values.len() == first + 1,
        first >= limit ==> wait_expired(values, mask, set, limit) && !wait_met(
            values,
            mask,
            set,
            limit,
        ),
{
    if wait_met(values, mask, set, limit) {
        assert(shows(values[values.len() - 1], mask, set));
        if values.len() - 1 > first {
            assert(!shows(values[first as int], mask, set));
        }
    }
    if wait_expired(values, mask, set, limit) && first < limit {
        assert(!shows(values[first as int], mask, set));
    }
}

/// How a bring-up from an oscillator at `input` ends on a model that starts
/// with blank registers: refused where the plan is not valid; given up on the
/// oscillator or on the lock of the PLL where the rules ask for as many polls
/// as the limit or more; and well otherwise.
pub open spec fn outcome_on_blank(rules: Rules, input: Hertz, limit: u32) -> Result<
    Clocks,
    ClockError,
> {
    match spec_plan_clocks(input) {
        None => Err(ClockError::InvalidFrequency),
        Some(clocks) => if rules.hse_startup >= limit {
            Err(ClockError::OscillatorStartupTimeout)
        } else if rules.pll_lock >= limit {
            Err(ClockError::PllLockTimeout)
        } else {
            Ok(clocks)
        },
    }
}

/// The model and the bring-up fit together.  From blank registers, every
/// bring-up that the model answers ends as [`outcome_on_blank`] says.  Where
/// it ends well, the oscillator was found ready after its start-up polls and
/// one more, the PLL unlocked at the first poll, and locked after its lock
/// polls and one more.
pub proof fn lemma_bring_up_on_model(
    rules: Rules,
    input: Hertz,
    limit: u32,
    a: Seq<u32>,
    b: Seq<u32>,
    c: Seq<u32>,
    outcome: Result<Clocks, ClockError>,
)
    requires
        bring_up(input, limit, a, b, c, outcome),
        answers(rules, State::spec_blank(), transcript(a, b, c, outcome)),
    ensures
        outcome == outcome_on_blank(rules, input, limit),
        outcome is Ok ==> a.len() == rules.hse_startup + 1 && b.len() == 1 && c.len()
            == rules.pll_lock + 1,
{
    let blank = State::spec_blank();
    let t = transcript(a, b, c, outcome);
    let none = Seq::<Access>::empty();
    lemma_ready_bits();
    lemma_locking_bits();
    if spec_plan_clocks(input) is Some {
        // The oscillator is switched on and polled.
        let after_a = match outcome {
            Err(ClockError::OscillatorStartupTimeout) => none,
            Err(ClockError::PllDisableTimeout) => seq![pll_off()] + polls(b),
            Err(ClockError::PllLockTimeout) => seq![pll_off()] + polls(b) + seq![
                pll_plan(),
                pll_on(),
            ] + polls(c),
            _ => seq![pll_off()] + polls(b) + seq![pll_plan(), pll_on()] + polls(c)
                + after_lock(),
        };
        assert(t =~= seq![oscillator_on()] + polls(a) + after_a);
        lemma_replay_concat(rules, blank, seq![oscillator_on()] + polls(a), after_a);
        lemma_replay_concat(rules, blank, seq![oscillator_on()], polls(a));
        lemma_replay_one(rules, blank, oscillator_on());
        let started = replay(rules, blank, seq![oscillator_on()]);
        assert(started == blank.spec_after_modify(rules, Register::Cr, CR_HSEON, CR_HSEON));
        assert(spec_merge(0, CR_HSEON & !CR_STATUS, CR_HSEON) == CR_HSEON && 0u32 & CR_HSEON == 0
            && 0u32 & CR_PLLON == 0 && CR_HSEON & CR_HSEON != 0 && CR_HSEON & CR_PLLON == 0
            && CR_HSEON & CR_HSERDY == 0) by (bit_vector);
        assert(started == State { cr: CR_HSEON, hse_wait: rules.hse_startup, ..blank });
        lemma_replay_polls(rules, started, a);
        assert forall|i: int| 0 <= i < a.len() implies (shows(#[trigger] a[i], CR_HSERDY, true)
            <==> i >= rules.hse_startup) by {
            assert(a[i] == poll_value(started, i));
            lemma_oscillator_starts(started, (i + 1) as nat);
        }
        lemma_wait_counts(a, CR_HSERDY, true, limit, rules.hse_startup);
        if rules.hse_startup < limit {
            let ready = replay(rules, blank, seq![oscillator_on()] + polls(a));
            lemma_oscillator_starts(started, a.len());
            assert(ready == State { cr: CR_HSEON | CR_HSERDY, hse_wait: 0, ..blank });

            // The PLL is switched off and polled.
            let after_b = match outcome {
                Err(ClockError::PllDisableTimeout) => none,
                Err(ClockError::PllLockTimeout) => seq![pll_plan(), pll_on()] + polls(c),
                _ => seq![pll_plan(), pll_on()] + polls(c) + after_lock(),
            };
            assert(after_a =~= seq![pll_off()] + polls(b) + after_b);
            lemma_replay_concat(rules, ready, seq![pll_off()] + polls(b), after_b);
            lemma_replay_concat(rules, ready, seq![pll_off()], polls(b));
            lemma_replay_one(rules, ready, pll_off());
            let stopped = replay(rules, ready, seq![pll_off()]);
            assert(stopped == ready.spec_after_modify(rules, Register::Cr, CR_PLLON, 0));
            assert(spec_merge(CR_HSEON | CR_HSERDY, CR_PLLON & !CR_STATUS, 0) == CR_HSEON
                | CR_HSERDY) by (bit_vector);
            assert(stopped == ready);
            lemma_replay_polls(rules, stopped, b);
            assert forall|i: int| 0 <= i < b.len() implies (shows(
                #[trigger] b[i],
                CR_PLLRDY,
                false,
            ) <==> i >= 0) by {
                assert(b[i] == poll_value(stopped, i));
                lemma_idle(stopped, (i + 1) as nat);
            }
            lemma_wait_counts(b, CR_PLLRDY, false, limit, 0);
            lemma_idle(stopped, b.len());

            // The PLL is programmed, switched on and polled.
            let after_c = match outcome {
                Err(ClockError::PllLockTimeout) => none,
                _ => after_lock(),
            };
            assert(after_b =~= seq![pll_plan(), pll_on()] + polls(c) + after_c);
            lemma_replay_concat(rules, ready, seq![pll_plan(), pll_on()] + polls(c), after_c);
            lemma_replay_concat(rules, ready, seq![pll_plan(), pll_on()], polls(c));
            assert(seq![pll_plan(), pll_on()].drop_last() =~= seq![pll_plan()]);
            lemma_replay_one(rules, ready, pll_plan());
            let programmed = replay(rules, ready, seq![pll_plan()]);
            assert(programmed.cr == ready.cr && programmed.hse_wait == 0 && programmed.pll_wait
                == 0);
            let running = replay(rules, ready, seq![pll_plan(), pll_on()]);
            assert(running == programmed.spec_after_modify(
                rules,
                Register::Cr,
                CR_PLLON,
                CR_PLLON,
            ));
            assert(spec_merge(CR_HSEON | CR_HSERDY, CR_PLLON & !CR_STATUS, CR_PLLON) == CR_HSEON
                | CR_HSERDY | CR_PLLON) by (bit_vector);
            assert(running == State {
                cr: CR_HSEON | CR_HSERDY | CR_PLLON,
                pll_wait: rules.pll_lock,
                ..programmed
            });
            lemma_replay_polls(rules, running, c);
            assert forall|i: int| 0 <= i < c.len() implies (shows(#[trigger] c[i], CR_PLLRDY, true)
                <==> i >= rules.pll_lock) by {
                assert(c[i] == poll_value(running, i));
                lemma_pll_locks(running, (i + 1) as nat);
            }
            lemma_wait_counts(c, CR_PLLRDY, true, limit, rules.pll_lock);
        }
    }
}

/// A read-modify-write changes the word of no other register.
pub proof fn lemma_modify_is_local(
    rules: Rules,
    state: State,
    reg: Register,
    mask: u32,
    bits: u32,
    other: Register,
)
    requires
        other != reg,
    ensures
        state.spec_after_modify(rules, reg, mask, bits).spec_word(other) == state.spec_word(other),
{
}

impl SimulatedRcc {
    /// Brings the clocks up on a model that is made with `rules` and starts
    /// with blank registers, and hands the model back with the outcome.
    ///
    /// The outcome is the one that the rules and the poll limit fix, and the
    /// record of the model is the transcript of that bring-up.  Where it ends
    /// well, the oscillator was polled once more than its start-up takes, the
    /// PLL once until it was found unlocked, and once more than its lock takes.
    pub fn run(rules: Rules, cfgr: CFGR, poll_limit: u32) -> (r: (
        Result<Clocks, ClockError>,
        SimulatedRcc,
    ))
        ensures
            r.0 == outcome_on_blank(rules, cfgr.spec_oscillator(), poll_limit),
            r.1.spec_rules() == rules,
            r.1.spec_origin() == State::spec_blank(),
            r.1.faithful(),
            (exists|a: Seq<u32>, b: Seq<u32>, c: Seq<u32>|
                #![trigger bring_up(cfgr.spec_oscillator(), poll_limit, a, b, c, r.0)]
                bring_up(cfgr.spec_oscillator(), poll_limit, a, b, c, r.0) && r.1.spec_log()
                    == transcript(a, b, c, r.0) && (r.0 is Ok ==> a.len() == rules.hse_startup + 1
                    && b.len() == 1 && c.len() == rules.pll_lock + 1)),
    {
        let ghost input: Hertz = cfgr.spec_oscillator();
        let mut regs = Traced::new(SimulatedRcc::new(rules, State::blank()));
        let result = cfgr.freeze(&mut regs, poll_limit);
        let sim = regs.into_bank();
        proof {
            use_type_invariant(&sim);
            let (a, b, c) = choose|a: Seq<u32>, b: Seq<u32>, c: Seq<u32>|
                #![trigger bring_up(input, poll_limit, a, b, c, result)]
                bring_up(input, poll_limit, a, b, c, result) && sim.spec_log() == Seq::<
                    Access,
                >::empty() + transcript(a, b, c, result);
            assert(sim.spec_log() =~= transcript(a, b, c, result));
            assert(bring_up(input, poll_limit, a, b, c, result));
            lemma_bring_up_on_model(rules, input, poll_limit, a, b, c, result);
        }
        (result, sim)
    }
}

/// The bits of the clock control register once the oscillator is ready.
proof fn lemma_ready_bits()
    ensures
        (CR_HSEON | CR_HSERDY) & CR_HSEON != 0,
        (CR_HSEON | CR_HSERDY) & CR_HSERDY != 0,
        (CR_HSEON | CR_HSERDY) & CR_PLLON == 0,
        (CR_HSEON | CR_HSERDY) & CR_PLLRDY == 0,
{
    assert((CR_HSEON | CR_HSERDY) & CR_HSEON != 0 && (CR_HSEON | CR_HSERDY) & CR_HSERDY != 0 && (
    CR_HSEON | CR_HSERDY) & CR_PLLON == 0 && (CR_HSEON | CR_HSERDY) & CR_PLLRDY == 0)
        by (bit_vector);
}

/// The bits of the clock control register while the PLL locks, and once it
/// has.
proof fn lemma_locking_bits()
    ensures
        (CR_HSEON | CR_HSERDY | CR_PLLON) & CR_HSEON != 0,
        (CR_HSEON | CR_HSERDY | CR_PLLON) & CR_HSERDY != 0,
        (CR_HSEON | CR_HSERDY | CR_PLLON) & CR_PLLON != 0,
        (CR_HSEON | CR_HSERDY | CR_PLLON) & CR_PLLRDY == 0,
        (CR_HSEON | CR_HSERDY | CR_PLLON) | CR_PLLRDY == CR_HSEON | CR_HSERDY | CR_PLLON
            | CR_PLLRDY,
        (CR_HSEON | CR_HSERDY | CR_PLLON | CR_PLLRDY) & CR_HSEON != 0,
        (CR_HSEON | CR_HSERDY | CR_PLLON | CR_PLLRDY) & CR_HSERDY != 0,
        (CR_HSEON | CR_HSERDY | CR_PLLON | CR_PLLRDY) & CR_PLLON != 0,
        (CR_HSEON | CR_HSERDY | CR_PLLON | CR_PLLRDY) & CR_PLLRDY != 0,
{
    assert((CR_HSEON | CR_HSERDY | CR_PLLON) & CR_HSEON != 0 && (CR_HSEON | CR_HSERDY | CR_PLLON)
        & CR_HSERDY != 0 && (CR_HSEON | CR_HSERDY | CR_PLLON) & CR_PLLON != 0 && (CR_HSEON
        | CR_HSERDY | CR_PLLON) & CR_PLLRDY == 0) by (bit_vector);
    assert((CR_HSEON | CR_HSERDY | CR_PLLON | CR_PLLRDY) & CR_HSEON != 0 && (CR_HSEON | CR_HSERDY
        | CR_PLLON | CR_PLLRDY) & CR_HSERDY != 0 && (CR_HSEON | CR_HSERDY | CR_PLLON | CR_PLLRDY)
        & CR_PLLON != 0 && (CR_HSEON | CR_HSERDY | CR_PLLON | CR_PLLRDY) & CR_PLLRDY != 0)
        by (bit_vector);
}

} // verus!
