//! Debouncing of the three push buttons: each poll moves a button through
//! low, rising, high and falling, and counts how long it has stayed.
use vstd::prelude::*;

verus! {

/// Where a button is in its press cycle.
#[derive(Copy, Clone, PartialEq, Eq, Structural)]
pub enum PinLevel {
    Low,
    High,
    Rising,
    Falling,
}

impl PinLevel {
    /// The level after one poll that finds the button pressed or not: a
    /// change of reading passes through `Rising` or `Falling` first, and an
    /// edge that is not confirmed by the next reading turns back.
    pub open spec fn next_level(self, pressed: bool) -> PinLevel {
        match self {
            PinLevel::Low => if pressed { PinLevel::Rising } else { PinLevel::Low },
            PinLevel::High => if pressed { PinLevel::High } else { PinLevel::Falling },
            PinLevel::Rising => if pressed { PinLevel::High } else { PinLevel::Falling },
            PinLevel::Falling => if pressed { PinLevel::Rising } else { PinLevel::Low },
        }
    }

    pub fn next(&self, pin_is_pressed: bool) -> (r: PinLevel)
        ensures
            r == self.next_level(pin_is_pressed),
    {
        match self {
            PinLevel::Low if pin_is_pressed => PinLevel::Rising,
            PinLevel::High if !pin_is_pressed => PinLevel::Falling,
            PinLevel::Rising if pin_is_pressed => PinLevel::High,
            PinLevel::Rising => PinLevel::Falling,
            PinLevel::Falling if pin_is_pressed => PinLevel::Rising,
            PinLevel::Falling => PinLevel::Low,
            _ => *self,
        }
    }
}

/// A button's level and the number of polls it has spent at its current
/// steady level (counting the edge that leaves it).
#[derive(Copy, Clone, PartialEq, Eq, Structural)]
pub struct ButtonState {
    pub level: PinLevel,
    pub count: u32,
}

/// Whether a step from `from` to `to` keeps counting: a steady level that
/// stays, or starts to leave.
pub open spec fn keeps_counting(from: PinLevel, to: PinLevel) -> bool {
    ||| from == PinLevel::Low && (to == PinLevel::Low || to == PinLevel::Rising)
    ||| from == PinLevel::High && (to == PinLevel::High || to == PinLevel::Falling)
}

impl ButtonState {
    /// The state after one poll.
    pub open spec fn updated(self, pressed: bool) -> ButtonState {
        let level = self.level.next_level(pressed);
        ButtonState {
            level,
            count: if keeps_counting(self.level, level) {
                (self.count + 1) as u32
            } else {
                0
            },
        }
    }

    /// Whether one more poll can be counted without overflowing the counter.
    pub open spec fn can_update(self, pressed: bool) -> bool {
        keeps_counting(self.level, self.level.next_level(pressed)) ==> self.count < u32::MAX
    }

    /// A button first seen pressed starts high, otherwise low.
    pub fn new(pressed: bool) -> (r: ButtonState)
        ensures
            r.level == (if pressed { PinLevel::High } else { PinLevel::Low }),
            r.count == 0,
    {
        ButtonState {
            level: match pressed {
                true => PinLevel::High,
                false => PinLevel::Low,
            },
            count: 0,
        }
    }

    /// Whether the button is held down and has been for at least `counts` polls.
    pub fn is_pressed(&self, counts: u32) -> (r: bool)
        ensures
            r == (self.level == PinLevel::High && self.count >= counts),
    {
        match self.level {
            PinLevel::High => self.count >= counts,
            _ => false,
        }
    }

    /// Whether `update` can count this reading without overflowing.
    pub fn update_fits(&self, pressed: bool) -> (r: bool)
        ensures
            r == self.can_update(pressed),
    {
        let level = self.level.next(pressed);
        let keeps = match (self.level, level) {
            (PinLevel::Low, PinLevel::Low) | (PinLevel::Low, PinLevel::Rising) => true,
            (PinLevel::High, PinLevel::High) | (PinLevel::High, PinLevel::Falling) => true,
            (_, _) => false,
        };
        !keeps || self.count < u32::MAX
    }

    pub fn update(&mut self, pressed: bool)
        requires
            old(self).can_update(pressed),
        ensures
            *final(self) == old(self).updated(pressed),
    {
        let level = self.level.next(pressed);
        let count = match (self.level, level) {
            (PinLevel::Low, PinLevel::Low) | (PinLevel::Low, PinLevel::Rising) => self.count + 1,
            (PinLevel::High, PinLevel::High) | (PinLevel::High, PinLevel::Falling) => self.count + 1,
            (_, _) => 0,
        };
        *self = ButtonState { level, count };
    }
}

/// The states of the set, up and down buttons.
#[derive(Copy, Clone, PartialEq, Eq, Structural)]
pub struct ButtonStates {
    pub set: ButtonState,
    pub up: ButtonState,
    pub down: ButtonState,
}

/// The three buttons with the pins they are read from. The pins are read
/// outside (a pressed button pulls its pin low); the readings come in as
/// `true` for pressed.
pub struct Buttons<PinSet, PinUp, PinDown> {
    set_pin: PinSet,
    up_pin: PinUp,
    down_pin: PinDown,
    state: ButtonStates,
}

impl<PinSet, PinUp, PinDown> Buttons<PinSet, PinUp, PinDown> {
    /// The current button states.
    pub closed spec fn states(&self) -> ButtonStates {
        self.state
    }

    /// The pins of the set, up and down buttons.
    pub closed spec fn pins_held(&self) -> (PinSet, PinUp, PinDown) {
        (self.set_pin, self.up_pin, self.down_pin)
    }

    /// Takes the pins, with each button's first reading.
    pub fn new(
        set: PinSet,
        up: PinUp,
        down: PinDown,
        set_pressed: bool,
        up_pressed: bool,
        down_pressed: bool,
    ) -> (r: Self)
        ensures
            r.pins_held() == (set, up, down),
            r.states().set.level == (if set_pressed { PinLevel::High } else { PinLevel::Low }),
            r.states().up.level == (if up_pressed { PinLevel::High } else { PinLevel::Low }),
            r.states().down.level == (if down_pressed { PinLevel::High } else { PinLevel::Low }),
            r.states().set.count == 0,
            r.states().up.count == 0,
            r.states().down.count == 0,
    {
        let state = ButtonStates {
            set: ButtonState::new(set_pressed),
            up: ButtonState::new(up_pressed),
            down: ButtonState::new(down_pressed),
        };
        Buttons { set_pin: set, up_pin: up, down_pin: down, state }
    }

    /// The current button states.
    pub fn state(&self) -> (r: ButtonStates)
        ensures
            r == self.states(),
    {
        self.state
    }

    /// The pins of the set, up and down buttons.
    pub fn pins(&self) -> (r: (&PinSet, &PinUp, &PinDown))
        ensures
            (*r.0, *r.1, *r.2) == self.pins_held(),
    {
        (&self.set_pin, &self.up_pin, &self.down_pin)
    }

    /// Feeds one reading of each button and returns the new states.
    pub fn poll_state(&mut self, set_pressed: bool, up_pressed: bool, down_pressed: bool) -> (r:
        ButtonStates)
        requires
            old(self).states().set.can_update(set_pressed),
            old(self).states().up.can_update(up_pressed),
            old(self).states().down.can_update(down_pressed),
        ensures
            r == final(self).states(),
            final(self).pins_held() == old(self).pins_held(),
            r == (ButtonStates {
                set: old(self).states().set.updated(set_pressed),
                up: old(self).states().up.updated(up_pressed),
                down: old(self).states().down.updated(down_pressed),
            }),
    {
        self.state.set.update(set_pressed);
        self.state.up.update(up_pressed);
        self.state.down.update(down_pressed);
        self.state
    }
}

/// Two equal readings in a row settle a button: two pressed readings leave it
/// high, two released readings leave it low, whatever its level before.
pub proof fn law_two_readings_settle(level: PinLevel, pressed: bool)
    ensures
        level.next_level(pressed).next_level(pressed) == if pressed {
            PinLevel::High
        } else {
            PinLevel::Low
        },
{
}

/// The count measures how long a button has been steady: while it is held
/// (high and read pressed) or left alone (low and read released) each poll adds
/// one; a reading that completes an edge (rising to high, falling to low)
/// starts the count again from 0.
pub proof fn law_count_measures_steady_time(b: ButtonState)
    requires
        b.count < u32::MAX,
    ensures
        b.level == PinLevel::High ==> b.updated(true) == (ButtonState { level: PinLevel::High, count: (b.count + 1) as u32 }),
        b.level == PinLevel::Low ==> b.updated(false) == (ButtonState { level: PinLevel::Low, count: (b.count + 1) as u32 }),
        b.level == PinLevel::Rising ==> b.updated(true) == (ButtonState { level: PinLevel::High, count: 0 }),
        b.level == PinLevel::Falling ==> b.updated(false) == (ButtonState { level: PinLevel::Low, count: 0 }),
{
}

} // verus!
