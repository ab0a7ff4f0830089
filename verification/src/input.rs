use crate::interrupt_handler::{InterruptHandler, InterruptLine};
use vstd::prelude::*;

verus! {

/// The eight buttons of the pad.
#[derive(Clone, Copy, Debug, PartialEq, Eq, Structural, Hash)]
pub enum Button {
    A,
    B,
    UP,
    DOWN,
    LEFT,
    RIGHT,
    START,
    SELECT,
}

/// The host input source. The core polls it; implementations live outside
/// the core and carry no contract.
pub trait Controller {
    fn is_pressed(&self, button: Button) -> bool;

    fn tick(&self);
}

/// The P1 register held in active-high form: a set flag means the key line
/// is pressed, or the row is selected. On the wire every bit is inverted.
#[derive(Clone, Copy, Debug, PartialEq, Eq, Structural)]
pub struct P1 {
    /// P10: RIGHT or A.
    pub key0: bool,
    /// P11: LEFT or B.
    pub key1: bool,
    /// P12: UP or SELECT.
    pub key2: bool,
    /// P13: DOWN or START.
    pub key3: bool,
    /// P14: the directional row is selected.
    pub select_directional: bool,
    /// P15: the button row is selected.
    pub select_button: bool,
}

impl P1 {
    /// Reset state: both rows selected, no key line active.
    pub open spec fn spec_initial() -> P1 {
        P1 {
            key0: false,
            key1: false,
            key2: false,
            key3: false,
            select_directional: true,
            select_button: true,
        }
    }

    /// The key lines that the polled buttons drive for this row selection.
    /// With the button row selected the action keys drive the lines; with
    /// only the directional row selected the directions do; with neither
    /// row selected the lines stay as they are.
    pub open spec fn spec_rows_applied(
        self,
        a: bool,
        b: bool,
        up: bool,
        down: bool,
        left: bool,
        right: bool,
        start: bool,
        select: bool,
    ) -> P1 {
        if self.select_button {
            P1 { key0: a, key1: b, key2: select, key3: start, ..self }
        } else if self.select_directional {
            P1 { key0: right, key1: left, key2: up, key3: down, ..self }
        } else {
            self
        }
    }

    /// Whether stepping from `self` to `new` presses some selected key
    /// line: on the wire the line falls from one to zero.
    pub open spec fn spec_press_edge(self, new: P1) -> bool {
        ||| !self.key0 && new.key0
        ||| !self.key1 && new.key1
        ||| !self.key2 && new.key2
        ||| !self.key3 && new.key3
    }

    /// The inverted wire byte: a zero bit means pressed or selected.
    pub open spec fn spec_wire_byte(self) -> u8 {
        (0xC0u8 + (if self.key0 { 0u8 } else { 1u8 }) + (if self.key1 { 0u8 } else { 2u8 }) + (
        if self.key2 { 0u8 } else { 4u8 }) + (if self.key3 { 0u8 } else { 8u8 }) + (
        if self.select_directional { 0u8 } else { 16u8 }) + (if self.select_button {
            0u8
        } else {
            32u8
        })) as u8
    }
}

/// The pressed state of the eight buttons as the host has reported it
/// through key events.
#[derive(Clone, Copy, Debug, PartialEq, Eq, Structural)]
pub struct Buttons {
    pub a: bool,
    pub b: bool,
    pub up: bool,
    pub down: bool,
    pub left: bool,
    pub right: bool,
    pub start: bool,
    pub select: bool,
}

impl Buttons {
    pub open spec fn spec_none() -> Buttons {
        Buttons {
            a: false,
            b: false,
            up: false,
            down: false,
            left: false,
            right: false,
            start: false,
            select: false,
        }
    }

    /// The state with one button set to `pressed`.
    pub open spec fn spec_set(self, button: Button, pressed: bool) -> Buttons {
        match button {
            Button::A => Buttons { a: pressed, ..self },
            Button::B => Buttons { b: pressed, ..self },
            Button::UP => Buttons { up: pressed, ..self },
            Button::DOWN => Buttons { down: pressed, ..self },
            Button::LEFT => Buttons { left: pressed, ..self },
            Button::RIGHT => Buttons { right: pressed, ..self },
            Button::START => Buttons { start: pressed, ..self },
            Button::SELECT => Buttons { select: pressed, ..self },
        }
    }
}

/// The joypad: the P1 register, the host controller behind it, and the
/// buttons the host has reported pressed by events.
pub struct InputController<C: Controller> {
    pub register: P1,
    pub controller: C,
    pub pressed: Buttons,
}

impl<C: Controller> InputController<C> {
    pub fn new(controller: C) -> (r: InputController<C>)
        ensures
            r.register == P1::spec_initial(),
            r.pressed == Buttons::spec_none(),
    {
        InputController {
            register: P1 {
                key0: false,
                key1: false,
                key2: false,
                key3: false,
                select_directional: true,
                select_button: true,
            },
            controller,
            pressed: Buttons {
                a: false,
                b: false,
                up: false,
                down: false,
                left: false,
                right: false,
                start: false,
                select: false,
            },
        }
    }

    /// Record a host key event for one button.
    pub fn set_button(&mut self, button: Button, value: bool)
        ensures
            final(self).register == old(self).register,
            final(self).pressed == old(self).pressed.spec_set(button, value),
    {
        match button {
            Button::A => self.pressed.a = value,
            Button::B => self.pressed.b = value,
            Button::UP => self.pressed.up = value,
            Button::DOWN => self.pressed.down = value,
            Button::LEFT => self.pressed.left = value,
            Button::RIGHT => self.pressed.right = value,
            Button::START => self.pressed.start = value,
            Button::SELECT => self.pressed.select = value,
        }
    }

    /// Poll the controller, join it with the host's key events, and drive
    /// the selected row's key lines. When a selected line becomes
    /// pressed, the JOYPAD interrupt is requested; whatever the host
    /// answered, the row selection bits never move here.
    pub fn update_state(&mut self, interrupts: &mut InterruptHandler)
        ensures
            final(self).pressed == old(self).pressed,
            ({
                let pre = old(self).register;
                let post = final(self).register;
                &&& post.select_directional == pre.select_directional
                &&& post.select_button == pre.select_button
                &&& exists|
                    a: bool,
                    b: bool,
                    up: bool,
                    down: bool,
                    left: bool,
                    right: bool,
                    start: bool,
                    select: bool,
                |
                    post == pre.spec_rows_applied(a, b, up, down, left, right, start, select)
                &&& *final(interrupts) == if pre.spec_press_edge(post) {
                    old(interrupts).spec_request(InterruptLine::Joypad, true)
                } else {
                    *old(interrupts)
                }
            }),
    {
        self.controller.tick();
        let old_reg = self.register;
        let a = self.controller.is_pressed(Button::A) || self.pressed.a;
        let b = self.controller.is_pressed(Button::B) || self.pressed.b;
        let up = self.controller.is_pressed(Button::UP) || self.pressed.up;
        let down = self.controller.is_pressed(Button::DOWN) || self.pressed.down;
        let left = self.controller.is_pressed(Button::LEFT) || self.pressed.left;
        let right = self.controller.is_pressed(Button::RIGHT) || self.pressed.right;
        let start = self.controller.is_pressed(Button::START) || self.pressed.start;
        let select = self.controller.is_pressed(Button::SELECT) || self.pressed.select;
        let mut reg = self.register;
        if reg.select_button {
            reg.key0 = a;
            reg.key1 = b;
            reg.key2 = select;
            reg.key3 = start;
        } else if reg.select_directional {
            reg.key0 = right;
            reg.key1 = left;
            reg.key2 = up;
            reg.key3 = down;
        }
        proof {
            assert(reg == old_reg.spec_rows_applied(a, b, up, down, left, right, start, select));
        }
        self.register = reg;
        let edge = (!old_reg.key0 && reg.key0) || (!old_reg.key1 && reg.key1) || (!old_reg.key2
            && reg.key2) || (!old_reg.key3 && reg.key3);
        if edge {
            interrupts.request(InterruptLine::Joypad, true);
        }
    }

    /// A write to P1 takes the two row-select bits, inverted on the wire
    /// (a zero bit selects the row), and clears the four key lines; they
    /// read released until the next poll refreshes the selected row.
    pub fn write_register(&mut self, value: u8)
        ensures
            final(self).register == (P1 {
                key0: false,
                key1: false,
                key2: false,
                key3: false,
                select_directional: value / 16 % 2 == 0,
                select_button: value / 32 % 2 == 0,
            }),
            final(self).pressed == old(self).pressed,
    {
        self.register = P1 {
            key0: false,
            key1: false,
            key2: false,
            key3: false,
            select_directional: value / 16 % 2 == 0,
            select_button: value / 32 % 2 == 0,
        };
    }

    /// Read P1 in wire form: active-low key lines and row selects, the two
    /// unused high bits reading as one.
    pub fn read_register(&self) -> (r: u8)
        ensures
            r == self.register.spec_wire_byte(),
    {
        let mut v: u8 = 0xC0;
        if !self.register.key0 {
            v += 1;
        }
        if !self.register.key1 {
            v += 2;
        }
        if !self.register.key2 {
            v += 4;
        }
        if !self.register.key3 {
            v += 8;
        }
        if !self.register.select_directional {
            v += 16;
        }
        if !self.register.select_button {
            v += 32;
        }
        v
    }
}

} // verus!
