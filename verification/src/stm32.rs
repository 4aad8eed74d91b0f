//! The peripherals of the device, as tokens.
//!
//! A token holds nothing.  To own one is to be the only part of the program
//! that may work on the registers of its group.

use vstd::prelude::*;

verus! {

/// A group of registers that one token stands for.
#[derive(Clone, Copy, Debug, PartialEq, Eq, Structural)]
pub enum Group {
    /// Reset and clock control.
    Rcc,
    /// The flash interface.
    Flash,
    /// The USB device.
    Usb,
}

/// Reset and clock control.
pub struct RCC {
    _0: (),
}

/// The flash interface.
pub struct FLASH {
    _0: (),
}

/// The USB device.
pub struct USB {
    _0: (),
}

/// The peripherals of one device, each to be taken once.
///
/// There is to be one such value per device, made at start-up and handed on
/// from there.
pub struct Peripherals {
    rcc: bool,
    flash: bool,
    usb: bool,
}

/// Whether a registry that has handed out `taken` would hand out the token
/// of `group`.
pub open spec fn grants(taken: Set<Group>, group: Group) -> bool {
    !taken.contains(group)
}

/// What a registry that had handed out `taken` has handed out once the token
/// of `group` was asked for.
pub open spec fn after_take(taken: Set<Group>, group: Group) -> Set<Group> {
    taken.insert(group)
}

/// What a registry has handed out once the tokens of `groups` were asked
/// for, one after the other.
pub open spec fn after_takes(taken: Set<Group>, groups: Seq<Group>) -> Set<Group>
    decreases groups.len(),
{
    if groups.len() == 0 {
        taken
    } else {
        after_takes(after_take(taken, groups[0]), groups.drop_first())
    }
}

/// A token that was asked for is not handed out again, whatever is asked
/// for in between.
pub proof fn lemma_token_granted_once(taken: Set<Group>, group: Group, later: Seq<Group>)
    ensures
        !grants(after_takes(after_take(taken, group), later), group),
{
    lemma_taken_stays(after_take(taken, group), group, later);
}

/// What was handed out stays handed out.
proof fn lemma_taken_stays(taken: Set<Group>, group: Group, later: Seq<Group>)
    requires
        taken.contains(group),
    ensures
        after_takes(taken, later).contains(group),
    decreases later.len(),
{
    if later.len() > 0 {
        lemma_taken_stays(after_take(taken, later[0]), group, later.drop_first());
    }
}

impl View for Peripherals {
    type V = Set<Group>;

    /// The groups whose token was handed out.
    closed spec fn view(&self) -> Set<Group> {
        Set::new(
            |g: Group|
                match g {
                    Group::Rcc => self.rcc,
                    Group::Flash => self.flash,
                    Group::Usb => self.usb,
                },
        )
    }
}

impl Peripherals {
    /// The peripherals of a device of which no token is out.
    pub fn new() -> (p: Self)
        ensures
            p@ == Set::<Group>::empty(),
    {
        let p = Peripherals { rcc: false, flash: false, usb: false };
        assert(p@ =~= Set::<Group>::empty());
        p
    }

    /// Whether the token of `group` was handed out.
    pub fn is_taken(&self, group: Group) -> (taken: bool)
        ensures
            taken == self@.contains(group),
    {
        match group {
            Group::Rcc => self.rcc,
            Group::Flash => self.flash,
            Group::Usb => self.usb,
        }
    }

    /// Hands out the token of reset and clock control, once.
    pub fn take_rcc(&mut self) -> (token: Option<RCC>)
        ensures
            token is Some <==> grants(old(self)@, Group::Rcc),
            final(self)@ == after_take(old(self)@, Group::Rcc),
    {
        let free: bool = !self.rcc;
        self.rcc = true;
        assert(self@ =~= after_take(old(self)@, Group::Rcc));
        if free {
            Some(RCC { _0: () })
        } else {
            None
        }
    }

    /// Hands out the token of the flash interface, once.
    pub fn take_flash(&mut self) -> (token: Option<FLASH>)
        ensures
            token is Some <==> grants(old(self)@, Group::Flash),
            final(self)@ == after_take(old(self)@, Group::Flash),
    {
        let free: bool = !self.flash;
        self.flash = true;
        assert(self@ =~= after_take(old(self)@, Group::Flash));
        if free {
            Some(FLASH { _0: () })
        } else {
            None
        }
    }

    /// Hands out the token of the USB device, once.
    pub fn take_usb(&mut self) -> (token: Option<USB>)
        ensures
            token is Some <==> grants(old(self)@, Group::Usb),
            final(self)@ == after_take(old(self)@, Group::Usb),
    {
        let free: bool = !self.usb;
        self.usb = true;
        assert(self@ =~= after_take(old(self)@, Group::Usb));
        if free {
            Some(USB { _0: () })
        } else {
            None
        }
    }
}

} // verus!
