//! The joypad: eight buttons behind one register (0xFF00).
use vstd::prelude::*;
use super::interrupts::{Interrupt, InterruptMask, InterruptSource};

verus! {

/// The eight buttons. The first four are the action buttons, the last four the d-pad.
#[derive(Clone, Copy, Debug, PartialEq, Eq, Structural)]
pub enum Button {
    A,
    B,
    Select,
    Start,
    Right,
    Left,
    Up,
    Down,
}

impl Button {
    pub open spec fn spec_as_mask(self) -> u8 {
        match self {
            Button::A => 0x01,
            Button::B => 0x02,
            Button::Select => 0x04,
            Button::Start => 0x08,
            Button::Right => 0x10,
            Button::Left => 0x20,
            Button::Up => 0x40,
            Button::Down => 0x80,
        }
    }

    /// The bit of this button in a `Buttons` byte.
    #[verifier::when_used_as_spec(spec_as_mask)]
    pub fn as_mask(self) -> (mask: u8)
        ensures
            mask == self.spec_as_mask(),
    {
        match self {
            Button::A => 0x01,
            Button::B => 0x02,
            Button::Select => 0x04,
            Button::Start => 0x08,
            Button::Right => 0x10,
            Button::Left => 0x20,
            Button::Up => 0x40,
            Button::Down => 0x80,
        }
    }
}

/// The state of the eight buttons, one bit each: a zero bit is a pressed button.
#[derive(Clone, Copy, Debug, PartialEq, Eq, Structural)]
pub struct Buttons(pub u8);

impl Buttons {
    pub open spec fn spec_press(self, button: Button) -> Buttons {
        Buttons(self.0 & !button.spec_as_mask())
    }

    /// Whether a button is held down.
    pub open spec fn is_pressed(self, button: Button) -> bool {
        self.0 & button.spec_as_mask() == 0
    }

    /// The state in which exactly the listed buttons are pressed, built from the left.
    pub open spec fn of(buttons: Seq<Button>) -> Buttons
        decreases buttons.len(),
    {
        if buttons.len() == 0 {
            Buttons(0xff)
        } else {
            Self::of(buttons.drop_last()).spec_press(buttons.last())
        }
    }

    pub open spec fn spec_buttons(self) -> u8 {
        self.0 & 0x0f
    }

    pub open spec fn spec_dpad(self) -> u8 {
        self.0 >> 4
    }

    /// No button pressed.
    pub fn new() -> (state: Self)
        ensures
            state == Buttons(0xff),
    {
        Buttons(0xff)
    }

    /// The state with one more button pressed.
    pub fn press(self, button: Button) -> (state: Self)
        ensures
            state == self.spec_press(button),
    {
        Buttons(self.0 & !button.as_mask())
    }

    /// The nibble of the action buttons.
    #[verifier::when_used_as_spec(spec_buttons)]
    pub fn buttons(self) -> (nibble: u8)
        ensures
            nibble == self.spec_buttons(),
            nibble <= 0x0f,
    {
        let bits: u8 = self.0;
        assert(bits & 0x0f <= 0x0f) by (bit_vector);
        bits & 0x0f
    }

    /// The nibble of the d-pad.
    #[verifier::when_used_as_spec(spec_dpad)]
    pub fn dpad(self) -> (nibble: u8)
        ensures
            nibble == self.spec_dpad(),
            nibble <= 0x0f,
    {
        let bits: u8 = self.0;
        assert(bits >> 4 <= 0x0f) by (bit_vector);
        bits >> 4
    }

    /// The state in which exactly the listed buttons are pressed.
    pub fn from_slice(buttons: &[Button]) -> (state: Self)
        ensures
            state == Self::of(buttons@),
            forall|button: Button| state.is_pressed(button) <==> buttons@.contains(button),
    {
        let mut state = Buttons::new();
        let mut i: usize = 0;
        while i < buttons.len()
            invariant
                i <= buttons.len(),
                state == Self::of(buttons@.take(i as int)),
            decreases buttons.len() - i,
        {
            proof {
                assert(buttons@.take(i + 1).drop_last() =~= buttons@.take(i as int));
            }
            state = state.press(buttons[i]);
            i += 1;
        }
        proof {
            assert(buttons@.take(i as int) =~= buttons@);
            assert forall|button: Button| state.is_pressed(button) <==> buttons@.contains(
                button,
            ) by {
                lemma_pressed_iff_listed(buttons@, button);
            }
        }
        state
    }
}

/// Pressing one button clears its bit and leaves the bits of the others.
pub proof fn lemma_press_bits(state: u8, pressed: Button, asked: Button)
    ensures
        Buttons(state).spec_press(pressed).is_pressed(asked) <==> (pressed == asked || Buttons(
            state,
        ).is_pressed(asked)),
{
    let p = pressed.spec_as_mask();
    let a = asked.spec_as_mask();
    assert(((state & !p) & a == 0) <==> (p == a || state & a == 0)) by (bit_vector)
        requires
            p == 1 || p == 2 || p == 4 || p == 8 || p == 16 || p == 32 || p == 64 || p == 128,
            a == 1 || a == 2 || a == 4 || a == 8 || a == 16 || a == 32 || a == 64 || a == 128,
    ;
}

/// A button is pressed in the state of a list exactly if the list holds it.
pub proof fn lemma_pressed_iff_listed(buttons: Seq<Button>, button: Button)
    ensures
        Buttons::of(buttons).is_pressed(button) <==> buttons.contains(button),
    decreases buttons.len(),
{
    if buttons.len() == 0 {
        assert(0xffu8 & button.spec_as_mask() != 0) by {
            let a = button.spec_as_mask();
            assert(0xffu8 & a != 0) by (bit_vector)
                requires
                    a == 1 || a == 2 || a == 4 || a == 8 || a == 16 || a == 32 || a == 64 || a
                        == 128,
            ;
        }
    } else {
        let front = buttons.drop_last();
        lemma_pressed_iff_listed(front, button);
        lemma_press_bits(Buttons::of(front).0, buttons.last(), button);
        if buttons.contains(button) {
            let k = choose|k: int| 0 <= k < buttons.len() && buttons[k] == button;
            if k < buttons.len() - 1 {
                assert(front[k] == button);
            }
        }
        if front.contains(button) {
            let k = choose|k: int| 0 <= k < front.len() && front[k] == button;
            assert(buttons[k] == button);
        }
        if buttons.last() == button {
            assert(buttons[buttons.len() - 1] == button);
        }
    }
}

/// The joypad.
#[derive(Clone, Copy, Debug, PartialEq, Eq, Structural)]
pub struct Joypad {
    pub buttons: Buttons,
    pub select_buttons: bool,
    pub select_dpad: bool,
    pub irq_pending: bool,
}

impl Joypad {
    /// The register byte: the select bits as written (zero selects) above the nibble of the
    /// selected group, in which a zero bit is a pressed button. With both groups selected
    /// every button reads as pressed; with none selected the byte is 0x3F.
    pub open spec fn spec_read(self) -> u8 {
        if self.select_buttons && !self.select_dpad {
            0x10 | self.buttons.spec_buttons()
        } else if !self.select_buttons && self.select_dpad {
            0x20 | self.buttons.spec_dpad()
        } else if !self.select_buttons && !self.select_dpad {
            0x3f
        } else {
            0x00
        }
    }

    pub open spec fn spec_write(self, val: u8) -> Joypad {
        Joypad { select_buttons: val & 0x20 == 0, select_dpad: val & 0x10 == 0, ..self }
    }

    pub open spec fn spec_pending(self) -> InterruptMask {
        if self.irq_pending {
            Interrupt::Joypad.spec_as_mask()
        } else {
            InterruptMask(0)
        }
    }

    pub open spec fn spec_set_pending(self, mask: InterruptMask) -> Joypad {
        Joypad { irq_pending: mask.spec_is_set(Interrupt::Joypad), ..self }
    }

    /// The joypad at power-on: no button pressed, no group selected.
    pub fn new() -> (joypad: Self)
        ensures
            joypad == (Joypad {
                buttons: Buttons(0xff),
                select_buttons: false,
                select_dpad: false,
                irq_pending: false,
            }),
    {
        Joypad {
            buttons: Buttons::new(),
            select_buttons: false,
            select_dpad: false,
            irq_pending: false,
        }
    }

    /// Takes the buttons that are held down from now on.
    pub fn buttons(&mut self, buttons: &[Button])
        ensures
            *final(self) == (Joypad { buttons: Buttons::of(buttons@), ..*old(self) }),
            forall|button: Button|
                final(self).buttons.is_pressed(button) <==> buttons@.contains(button),
    {
        self.buttons = Buttons::from_slice(buttons);
    }

    /// Reads the joypad register.
    pub fn read(&self) -> (val: u8)
        ensures
            val == self.spec_read(),
    {
        if self.select_buttons && !self.select_dpad {
            0x10 | self.buttons.buttons()
        } else if !self.select_buttons && self.select_dpad {
            0x20 | self.buttons.dpad()
        } else if !self.select_buttons && !self.select_dpad {
            0x3f
        } else {
            0x00
        }
    }

    /// Writes the joypad register: bit 5 clear selects the action buttons, bit 4 clear the d-pad.
    pub fn write(&mut self, val: u8)
        ensures
            *final(self) == old(self).spec_write(val),
    {
        self.select_buttons = (val & 0x20) == 0;
        self.select_dpad = (val & 0x10) == 0;
    }
}

impl InterruptSource for Joypad {
    open spec fn source_wf(&self) -> bool {
        true
    }

    open spec fn pending_at(&self, cycle: u64) -> InterruptMask {
        self.spec_pending()
    }

    open spec fn next_pending_at(&self, cycle: u64) -> u64 {
        u64::MAX
    }

    open spec fn acknowledged(&self, cycle: u64, mask: InterruptMask, after: &Self) -> bool {
        *after == self.spec_set_pending(mask)
    }

    fn pending(&self, _cycle: u64) -> (mask: InterruptMask) {
        if self.irq_pending {
            Interrupt::Joypad.as_mask()
        } else {
            InterruptMask(0)
        }
    }

    fn set_pending(&mut self, _cycle: u64, mask: InterruptMask) {
        self.irq_pending = mask.is_set(Interrupt::Joypad);
    }

    fn next_pending(&self, _cycle: u64) -> (next: u64) {
        u64::MAX
    }
}

} // verus!
