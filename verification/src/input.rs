//! Platform-independent input identifiers and the fixed-capacity touch slot
//! table.

use vstd::prelude::*;

verus! {

/// Maximum gamepads tracked without allocating.
pub const MAX_GAMEPADS: usize = 4;

/// Maximum simultaneous touch contacts tracked without allocating.
pub const MAX_TOUCH_POINTS: usize = 10;

/// A gamepad slot identifier.
#[derive(Clone, Copy, Debug, Default, PartialEq, Eq, Hash, Structural)]
pub struct GamepadId(pub u8);

/// Buttons from the standard browser/native gamepad mapping.
#[derive(Clone, Copy, Debug, PartialEq, Eq, Hash, Structural)]
pub enum GamepadButton {
    South,
    East,
    West,
    North,
    LeftBumper,
    RightBumper,
    LeftTrigger,
    RightTrigger,
    Select,
    Start,
    LeftStick,
    RightStick,
    DPadUp,
    DPadDown,
    DPadLeft,
    DPadRight,
    Home,
}

/// Axes from the standard browser/native gamepad mapping.
#[derive(Clone, Copy, Debug, PartialEq, Eq, Hash, Structural)]
pub enum GamepadAxis {
    /// Left stick horizontal axis.
    LeftX,
    /// Left stick vertical axis.
    LeftY,
    /// Right stick horizontal axis.
    RightX,
    /// Right stick vertical axis.
    RightY,
}

/// Keyboard keys named by their physical position (DOM `KeyboardEvent.code`).
#[derive(Clone, Copy, Debug, PartialEq, Eq, Hash, Structural)]
pub enum KeyCode {
    KeyW,
    KeyA,
    KeyS,
    KeyD,
    KeyQ,
    KeyE,
    Space,
    ShiftLeft,
    ShiftRight,
    ControlLeft,
    ControlRight,
    AltLeft,
    AltRight,
    MetaLeft,
    MetaRight,
    ArrowUp,
    ArrowDown,
    ArrowLeft,
    ArrowRight,
    Escape,
    Enter,
    Tab,
}

/// Pointer buttons.
#[derive(Clone, Copy, Debug, PartialEq, Eq, Hash, Structural)]
pub enum PointerButton {
    /// Primary button.
    Left,
    /// Wheel button.
    Middle,
    /// Secondary button.
    Right,
    /// Browser back button.
    Back,
    /// Browser forward button.
    Forward,
}

impl KeyCode {
    /// Bit position of the key in key sets.
    pub open spec fn bit(self) -> u32 {
        match self {
            KeyCode::KeyW => 0,
            KeyCode::KeyA => 1,
            KeyCode::KeyS => 2,
            KeyCode::KeyD => 3,
            KeyCode::KeyQ => 4,
            KeyCode::KeyE => 5,
            KeyCode::Space => 6,
            KeyCode::ShiftLeft => 7,
            KeyCode::ShiftRight => 8,
            KeyCode::ControlLeft => 9,
            KeyCode::ControlRight => 10,
            KeyCode::AltLeft => 11,
            KeyCode::AltRight => 12,
            KeyCode::MetaLeft => 13,
            KeyCode::MetaRight => 14,
            KeyCode::ArrowUp => 15,
            KeyCode::ArrowDown => 16,
            KeyCode::ArrowLeft => 17,
            KeyCode::ArrowRight => 18,
            KeyCode::Escape => 19,
            KeyCode::Enter => 20,
            KeyCode::Tab => 21,
        }
    }

    /// Returns the bit position of the key in key sets.
    pub fn bit_index(self) -> (bit: u32)
        ensures
            bit == self.bit(),
            bit < 128,
    {
        match self {
            KeyCode::KeyW => 0,
            KeyCode::KeyA => 1,
            KeyCode::KeyS => 2,
            KeyCode::KeyD => 3,
            KeyCode::KeyQ => 4,
            KeyCode::KeyE => 5,
            KeyCode::Space => 6,
            KeyCode::ShiftLeft => 7,
            KeyCode::ShiftRight => 8,
            KeyCode::ControlLeft => 9,
            KeyCode::ControlRight => 10,
            KeyCode::AltLeft => 11,
            KeyCode::AltRight => 12,
            KeyCode::MetaLeft => 13,
            KeyCode::MetaRight => 14,
            KeyCode::ArrowUp => 15,
            KeyCode::ArrowDown => 16,
            KeyCode::ArrowLeft => 17,
            KeyCode::ArrowRight => 18,
            KeyCode::Escape => 19,
            KeyCode::Enter => 20,
            KeyCode::Tab => 21,
        }
    }
}

impl PointerButton {
    /// Bit position of the button in button sets.
    pub open spec fn bit(self) -> u32 {
        match self {
            PointerButton::Left => 0,
            PointerButton::Middle => 1,
            PointerButton::Right => 2,
            PointerButton::Back => 3,
            PointerButton::Forward => 4,
        }
    }

    /// Returns the bit position of the button in button sets.
    pub fn bit_index(self) -> (bit: u32)
        ensures
            bit == self.bit(),
            bit < 8,
    {
        match self {
            PointerButton::Left => 0,
            PointerButton::Middle => 1,
            PointerButton::Right => 2,
            PointerButton::Back => 3,
            PointerButton::Forward => 4,
        }
    }
}

/// Whether bit `b` of a key set is set.
pub open spec fn key_bit(set: u128, b: u32) -> bool {
    set & (1u128 << b) != 0
}

/// Whether bit `b` of a button set is set.
pub open spec fn button_bit(set: u8, b: u32) -> bool {
    set & (1u8 << b) != 0
}

/// Setting a bit makes it (and only it) newly set; clearing a bit makes it
/// (and only it) clear.
proof fn lemma_key_bits(set: u128, a: u32, b: u32)
    requires
        a < 128,
        b < 128,
    ensures
        key_bit(set | (1u128 << a), b) == (key_bit(set, b) || a == b),
        key_bit(set & !(1u128 << a), b) == (key_bit(set, b) && a != b),
        !key_bit(0u128, b),
{
    assert((set | (1u128 << a)) & (1u128 << b) != 0 <==> (set & (1u128 << b) != 0 || a == b))
        by (bit_vector)
        requires
            a < 128,
            b < 128,
    ;
    assert((set & !(1u128 << a)) & (1u128 << b) != 0 <==> (set & (1u128 << b) != 0 && a != b))
        by (bit_vector)
        requires
            a < 128,
            b < 128,
    ;
    assert(0u128 & (1u128 << b) == 0) by (bit_vector);
}

/// Button-set counterpart of the key-set bit facts.
proof fn lemma_button_bits(set: u8, a: u32, b: u32)
    requires
        a < 8,
        b < 8,
    ensures
        button_bit(set | (1u8 << a), b) == (button_bit(set, b) || a == b),
        button_bit(set & !(1u8 << a), b) == (button_bit(set, b) && a != b),
        !button_bit(0u8, b),
{
    assert((set | (1u8 << a)) & (1u8 << b) != 0 <==> (set & (1u8 << b) != 0 || a == b))
        by (bit_vector)
        requires
            a < 8,
            b < 8,
    ;
    assert((set & !(1u8 << a)) & (1u8 << b) != 0 <==> (set & (1u8 << b) != 0 && a != b))
        by (bit_vector)
        requires
            a < 8,
            b < 8,
    ;
    assert(0u8 & (1u8 << b) == 0) by (bit_vector);
}

/// Held keys and pointer buttons, with the press and release transitions
/// recorded since the last frame ended.
#[derive(Clone, Copy, Debug, Default, PartialEq, Eq)]
pub struct ButtonState {
    keys_held: u128,
    keys_pressed: u128,
    keys_released: u128,
    buttons_held: u8,
    buttons_pressed: u8,
    buttons_released: u8,
}

impl ButtonState {
    /// Whether `key` is held.
    pub closed spec fn key_held(self, key: KeyCode) -> bool {
        key_bit(self.keys_held, key.bit())
    }

    /// Whether `key` went down this frame.
    pub closed spec fn key_went_down(self, key: KeyCode) -> bool {
        key_bit(self.keys_pressed, key.bit())
    }

    /// Whether `key` went up this frame.
    pub closed spec fn key_went_up(self, key: KeyCode) -> bool {
        key_bit(self.keys_released, key.bit())
    }

    /// Whether `button` is held.
    pub closed spec fn button_held(self, button: PointerButton) -> bool {
        button_bit(self.buttons_held, button.bit())
    }

    /// Whether `button` went down this frame.
    pub closed spec fn button_went_down(self, button: PointerButton) -> bool {
        button_bit(self.buttons_pressed, button.bit())
    }

    /// Whether `button` went up this frame.
    pub closed spec fn button_went_up(self, button: PointerButton) -> bool {
        button_bit(self.buttons_released, button.bit())
    }

    /// Nothing held and no transitions.
    pub open spec fn is_clear(self) -> bool {
        &&& forall|k: KeyCode|
            !self.key_held(k) && !self.key_went_down(k) && !self.key_went_up(k)
        &&& forall|b: PointerButton|
            !self.button_held(b) && !self.button_went_down(b) && !self.button_went_up(b)
    }

    /// Creates a state with nothing held.
    pub fn new() -> (state: Self)
        ensures
            state.is_clear(),
    {
        let state = ButtonState {
            keys_held: 0,
            keys_pressed: 0,
            keys_released: 0,
            buttons_held: 0,
            buttons_pressed: 0,
            buttons_released: 0,
        };
        proof {
            assert forall|k: KeyCode|
                !state.key_held(k) && !state.key_went_down(k) && !state.key_went_up(k) by {
                lemma_key_bits(0, 0, k.bit());
            }
            assert forall|b: PointerButton|
                !state.button_held(b) && !state.button_went_down(b) && !state.button_went_up(b) by {
                lemma_button_bits(0, 0, b.bit());
            }
        }
        state
    }

    /// Returns whether `key` is held.
    pub fn is_key_held(&self, key: KeyCode) -> (b: bool)
        ensures
            b == self.key_held(key),
    {
        self.keys_held & (1u128 << key.bit_index()) != 0
    }

    /// Applies a keyboard press, recording its transition once per frame.
    pub fn on_key_down(&mut self, key: KeyCode)
        ensures
            forall|k: KeyCode| #[trigger] final(self).key_held(k) == (old(self).key_held(k) || k == key),
            forall|k: KeyCode| #[trigger] final(self).key_went_down(k) == (old(self).key_went_down(k)
                || (k == key && !old(self).key_held(key))),
            forall|k: KeyCode| #[trigger] final(self).key_went_up(k) == old(self).key_went_up(k),
            forall|b: PointerButton| #[trigger] final(self).button_held(b) == old(self).button_held(b)
                && final(self).button_went_down(b) == old(self).button_went_down(b)
                && final(self).button_went_up(b) == old(self).button_went_up(b),
    {
        let bit = 1u128 << key.bit_index();
        let ghost before = *self;
        if self.keys_held & bit == 0 {
            self.keys_pressed = self.keys_pressed | bit;
        }
        self.keys_held = self.keys_held | bit;
        proof {
            assert forall|k: KeyCode| #[trigger] self.key_held(k) == (before.key_held(k) || k == key) by {
                lemma_key_bits(before.keys_held, key.bit(), k.bit());
                lemma_key_code_bit_injective(k, key);
            }
            assert forall|k: KeyCode| #[trigger] self.key_went_down(k) == (before.key_went_down(k) || (k
                == key && !before.key_held(key))) by {
                lemma_key_bits(before.keys_pressed, key.bit(), k.bit());
                lemma_key_code_bit_injective(k, key);
            }
        }
    }

    /// Applies a keyboard release, recording its transition if it was held.
    pub fn on_key_up(&mut self, key: KeyCode)
        ensures
            forall|k: KeyCode| #[trigger] final(self).key_held(k) == (old(self).key_held(k) && k != key),
            forall|k: KeyCode| #[trigger] final(self).key_went_up(k) == (old(self).key_went_up(k) || (k
                == key && old(self).key_held(key))),
            forall|k: KeyCode| #[trigger] final(self).key_went_down(k) == old(self).key_went_down(k),
            forall|b: PointerButton| #[trigger] final(self).button_held(b) == old(self).button_held(b)
                && final(self).button_went_down(b) == old(self).button_went_down(b)
                && final(self).button_went_up(b) == old(self).button_went_up(b),
    {
        let bit = 1u128 << key.bit_index();
        let ghost before = *self;
        if self.keys_held & bit != 0 {
            self.keys_released = self.keys_released | bit;
        }
        self.keys_held = self.keys_held & !bit;
        proof {
            assert forall|k: KeyCode| #[trigger] self.key_held(k) == (before.key_held(k) && k != key) by {
                lemma_key_bits(before.keys_held, key.bit(), k.bit());
                lemma_key_code_bit_injective(k, key);
            }
            assert forall|k: KeyCode| #[trigger] self.key_went_up(k) == (before.key_went_up(k) || (k
                == key && before.key_held(key))) by {
                lemma_key_bits(before.keys_released, key.bit(), k.bit());
                lemma_key_code_bit_injective(k, key);
            }
        }
    }

    /// Returns whether the key transitioned down this frame.
    pub fn was_key_pressed(&self, key: KeyCode) -> (b: bool)
        ensures
            b == self.key_went_down(key),
    {
        self.keys_pressed & (1u128 << key.bit_index()) != 0
    }

    /// Returns whether the key transitioned up this frame.
    pub fn was_key_released(&self, key: KeyCode) -> (b: bool)
        ensures
            b == self.key_went_up(key),
    {
        self.keys_released & (1u128 << key.bit_index()) != 0
    }

    /// Returns whether `button` is held.
    pub fn is_button_held(&self, button: PointerButton) -> (b: bool)
        ensures
            b == self.button_held(button),
    {
        self.buttons_held & (1u8 << button.bit_index()) != 0
    }

    /// Applies a pointer button press, recording its transition once per
    /// frame.
    pub fn on_pointer_down(&mut self, button: PointerButton)
        ensures
            forall|b: PointerButton| #[trigger] final(self).button_held(b) == (old(self).button_held(b)
                || b == button),
            forall|b: PointerButton| #[trigger] final(self).button_went_down(b) == (old(
                self,
            ).button_went_down(b) || (b == button && !old(self).button_held(button))),
            forall|b: PointerButton| #[trigger] final(self).button_went_up(b) == old(self).button_went_up(b),
            forall|k: KeyCode| #[trigger] final(self).key_held(k) == old(self).key_held(k)
                && final(self).key_went_down(k) == old(self).key_went_down(k)
                && final(self).key_went_up(k) == old(self).key_went_up(k),
    {
        let bit = 1u8 << button.bit_index();
        let ghost before = *self;
        if self.buttons_held & bit == 0 {
            self.buttons_pressed = self.buttons_pressed | bit;
        }
        self.buttons_held = self.buttons_held | bit;
        proof {
            assert forall|b: PointerButton| #[trigger] self.button_held(b) == (before.button_held(b)
                || b == button) by {
                lemma_button_bits(before.buttons_held, button.bit(), b.bit());
            }
            assert forall|b: PointerButton| #[trigger] self.button_went_down(b) == (
            before.button_went_down(b) || (b == button && !before.button_held(button))) by {
                lemma_button_bits(before.buttons_pressed, button.bit(), b.bit());
            }
        }
    }

    /// Applies a pointer button release, recording its transition if it was
    /// held.
    pub fn on_pointer_up(&mut self, button: PointerButton)
        ensures
            forall|b: PointerButton| #[trigger] final(self).button_held(b) == (old(self).button_held(b)
                && b != button),
            forall|b: PointerButton| #[trigger] final(self).button_went_up(b) == (old(self).button_went_up(
                b,
            ) || (b == button && old(self).button_held(button))),
            forall|b: PointerButton| #[trigger] final(self).button_went_down(b) == old(
                self,
            ).button_went_down(b),
            forall|k: KeyCode| #[trigger] final(self).key_held(k) == old(self).key_held(k)
                && final(self).key_went_down(k) == old(self).key_went_down(k)
                && final(self).key_went_up(k) == old(self).key_went_up(k),
    {
        let bit = 1u8 << button.bit_index();
        let ghost before = *self;
        if self.buttons_held & bit != 0 {
            self.buttons_released = self.buttons_released | bit;
        }
        self.buttons_held = self.buttons_held & !bit;
        proof {
            assert forall|b: PointerButton| #[trigger] self.button_held(b) == (before.button_held(b)
                && b != button) by {
                lemma_button_bits(before.buttons_held, button.bit(), b.bit());
            }
            assert forall|b: PointerButton| #[trigger] self.button_went_up(b) == (before.button_went_up(
                b,
            ) || (b == button && before.button_held(button))) by {
                lemma_button_bits(before.buttons_released, button.bit(), b.bit());
            }
        }
    }

    /// Returns whether a pointer button transitioned down this frame.
    pub fn was_pointer_pressed(&self, button: PointerButton) -> (b: bool)
        ensures
            b == self.button_went_down(button),
    {
        self.buttons_pressed & (1u8 << button.bit_index()) != 0
    }

    /// Returns whether a pointer button transitioned up this frame.
    pub fn was_pointer_released(&self, button: PointerButton) -> (b: bool)
        ensures
            b == self.button_went_up(button),
    {
        self.buttons_released & (1u8 << button.bit_index()) != 0
    }

    /// Clears this frame's transitions while retaining held state.
    pub fn end_frame(&mut self)
        ensures
            forall|k: KeyCode| #[trigger] final(self).key_held(k) == old(self).key_held(k)
                && !final(self).key_went_down(k) && !final(self).key_went_up(k),
            forall|b: PointerButton| #[trigger] final(self).button_held(b) == old(self).button_held(b)
                && !final(self).button_went_down(b) && !final(self).button_went_up(b),
    {
        self.keys_pressed = 0;
        self.keys_released = 0;
        self.buttons_pressed = 0;
        self.buttons_released = 0;
        proof {
            assert forall|k: KeyCode| !self.key_went_down(k) && !self.key_went_up(k) by {
                lemma_key_bits(0, 0, k.bit());
            }
            assert forall|b: PointerButton| !self.button_went_down(b) && !self.button_went_up(b) by {
                lemma_button_bits(0, 0, b.bit());
            }
        }
    }
}

/// Distinct keys occupy distinct bits.
proof fn lemma_key_code_bit_injective(a: KeyCode, b: KeyCode)
    ensures
        a.bit() == b.bit() <==> a == b,
        a.bit() < 128,
{
}

/// Platform-provided touch contact identifier.
#[derive(Clone, Copy, Debug, Default, PartialEq, Eq, Hash, Structural)]
pub struct TouchId(pub u64);

/// Phase of a touch event.
#[derive(Clone, Copy, Debug, PartialEq, Eq, Hash, Structural)]
pub enum TouchPhase {
    /// A contact started.
    Started,
    /// A contact moved.
    Moved,
    /// A contact ended normally.
    Ended,
    /// A contact was cancelled by the platform.
    Cancelled,
}

/// What a touch event did to the slot table.
#[derive(Clone, Copy, Debug, PartialEq, Eq, Structural)]
pub enum TouchSlotUpdate {
    /// A new contact took the first free slot.
    Started { slot: usize },
    /// A contact that was already active started again in its slot.
    Restarted { slot: usize },
    /// An active contact moved.
    Moved { slot: usize },
    /// An active contact ended or was cancelled; its slot is free again.
    Removed { slot: usize },
    /// A move, end or cancel named a contact that is not active; nothing
    /// changed.
    NotActive,
    /// A new contact could not be stored because every slot is taken.
    Full,
}

impl TouchSlotUpdate {
    /// Whether the event was accepted: only a new contact arriving while
    /// every slot is taken is refused.
    pub fn accepted(self) -> (accepted: bool)
        ensures
            accepted == !(self is Full),
    {
        match self {
            TouchSlotUpdate::Full => false,
            _ => true,
        }
    }
}

/// Whether contact `id` occupies a slot.
pub open spec fn holds_contact(slots: Seq<Option<TouchId>>, id: TouchId) -> bool {
    exists|k: int| 0 <= k < slots.len() && slots[k] == Some(id)
}

/// Whether any slot is free.
pub open spec fn has_free_slot(slots: Seq<Option<TouchId>>) -> bool {
    exists|k: int| 0 <= k < slots.len() && slots[k] is None
}

/// Number of occupied slots.
pub open spec fn occupied(slots: Seq<Option<TouchId>>) -> nat
    decreases slots.len(),
{
    if slots.len() == 0 {
        0
    } else {
        occupied(slots.drop_last()) + if slots.last() is Some {
            1nat
        } else {
            0nat
        }
    }
}

/// Fixed-capacity table of active touch contacts in stable slot order.
///
/// Each active contact occupies exactly one of the `MAX_TOUCH_POINTS` slots;
/// the same contact never occupies two.
#[derive(Clone, Copy, Debug, PartialEq, Eq)]
pub struct TouchSlots {
    slots: [Option<TouchId>; 10],
    len: u8,
}

impl View for TouchSlots {
    type V = Seq<Option<TouchId>>;

    closed spec fn view(&self) -> Seq<Option<TouchId>> {
        self.slots@
    }
}

impl TouchSlots {
    #[verifier::type_invariant]
    spec fn well_formed(self) -> bool {
        &&& self.slots@.len() == MAX_TOUCH_POINTS
        &&& self.len as nat == occupied(self.slots@)
        &&& forall|i: int, j: int|
            0 <= i < j < self.slots@.len() && self.slots@[i] is Some ==> self.slots@[i]
                != self.slots@[j]
    }

    /// Creates an empty table.
    pub fn new() -> (slots: Self)
        ensures
            slots@ == Seq::new(MAX_TOUCH_POINTS as nat, |i: int| None::<TouchId>),
    {
        let empty: [Option<TouchId>; 10] = [None; 10];
        proof {
            assert(empty@ =~= Seq::new(MAX_TOUCH_POINTS as nat, |i: int| None::<TouchId>));
            lemma_occupied_all_free(empty@);
        }
        TouchSlots { slots: empty, len: 0 }
    }

    /// Number of active contacts.
    pub fn len(&self) -> (n: usize)
        ensures
            n == occupied(self@),
            n <= MAX_TOUCH_POINTS,
    {
        proof {
            use_type_invariant(self);
            lemma_occupied_bound(self.slots@);
        }
        self.len as usize
    }

    /// Returns whether no contacts are active.
    pub fn is_empty(&self) -> (b: bool)
        ensures
            b == (occupied(self@) == 0),
    {
        proof {
            use_type_invariant(self);
        }
        self.len == 0
    }

    /// Returns the slot of the contact with the given id.
    pub fn slot_of(&self, id: TouchId) -> (slot: Option<usize>)
        ensures
            match slot {
                Some(k) => k < self@.len() && self@[k as int] == Some(id),
                None => !holds_contact(self@, id),
            },
    {
        proof {
            use_type_invariant(self);
        }
        let mut k: usize = 0;
        while k < 10
            invariant
                k <= 10,
                self.slots@.len() == 10,
                forall|j: int| 0 <= j < k ==> self.slots@[j] != Some(id),
            decreases 10 - k,
        {
            match self.slots[k] {
                Some(other) => {
                    if other.0 == id.0 {
                        return Some(k);
                    }
                },
                None => {},
            }
            k = k + 1;
        }
        None
    }

    /// Applies a platform touch event to the slot table.
    ///
    /// A new contact takes the first free slot; a contact that starts again
    /// keeps its slot; a move, end or cancel for a contact that is not active
    /// changes nothing; a new contact arriving with every slot taken is
    /// refused.
    pub fn on_event(&mut self, id: TouchId, phase: TouchPhase) -> (update: TouchSlotUpdate)
        ensures
            match update {
                TouchSlotUpdate::Started { slot } => {
                    &&& phase == TouchPhase::Started
                    &&& !holds_contact(old(self)@, id)
                    &&& slot < MAX_TOUCH_POINTS
                    &&& old(self)@[slot as int] is None
                    &&& forall|j: int| 0 <= j < slot ==> old(self)@[j] is Some
                    &&& final(self)@ == old(self)@.update(slot as int, Some(id))
                },
                TouchSlotUpdate::Restarted { slot } => {
                    &&& phase == TouchPhase::Started
                    &&& slot < MAX_TOUCH_POINTS
                    &&& old(self)@[slot as int] == Some(id)
                    &&& final(self)@ == old(self)@
                },
                TouchSlotUpdate::Moved { slot } => {
                    &&& phase == TouchPhase::Moved
                    &&& slot < MAX_TOUCH_POINTS
                    &&& old(self)@[slot as int] == Some(id)
                    &&& final(self)@ == old(self)@
                },
                TouchSlotUpdate::Removed { slot } => {
                    &&& (phase == TouchPhase::Ended || phase == TouchPhase::Cancelled)
                    &&& slot < MAX_TOUCH_POINTS
                    &&& old(self)@[slot as int] == Some(id)
                    &&& final(self)@ == old(self)@.update(slot as int, None)
                },
                TouchSlotUpdate::NotActive => {
                    &&& phase != TouchPhase::Started
                    &&& final(self)@ == old(self)@
                    &&& !holds_contact(old(self)@, id)
                },
                TouchSlotUpdate::Full => {
                    &&& phase == TouchPhase::Started
                    &&& final(self)@ == old(self)@
                    &&& !holds_contact(old(self)@, id)
                    &&& !has_free_slot(old(self)@)
                },
            },
    {
        proof {
            use_type_invariant(&*self);
        }
        let existing = self.slot_of(id);
        match phase {
            TouchPhase::Started => {
                if let Some(k) = existing {
                    return TouchSlotUpdate::Restarted { slot: k };
                }
                let mut k: usize = 0;
                while k < 10
                    invariant
                        k <= 10,
                        self.slots@.len() == 10,
                        forall|j: int| 0 <= j < k ==> self.slots@[j] is Some,
                    ensures
                        k <= 10,
                        forall|j: int| 0 <= j < k ==> self.slots@[j] is Some,
                        k < 10 ==> self.slots@[k as int] is None,
                    decreases 10 - k,
                {
                    if self.slots[k].is_none() {
                        break;
                    }
                    k = k + 1;
                }
                if k == 10 {
                    return TouchSlotUpdate::Full;
                }
                let ghost before = self.slots@;
                proof {
                    lemma_occupied_update(before, k as int, Some(id));
                    lemma_occupied_bound(before.update(k as int, Some(id)));
                }
                let mut slots = self.slots;
                slots[k] = Some(id);
                proof {
                    assert(!holds_contact(before, id));
                    assert forall|i: int, j: int|
                        0 <= i < j < slots@.len() && slots@[i] is Some implies slots@[i]
                        != slots@[j] by {
                        if i == k {
                            assert(before[j] != Some(id));
                        } else if j == k {
                            assert(before[i] != Some(id));
                        }
                    }
                }
                let len = self.len + 1;
                *self = TouchSlots { slots, len };
                TouchSlotUpdate::Started { slot: k }
            },
            TouchPhase::Moved => {
                match existing {
                    Some(k) => TouchSlotUpdate::Moved { slot: k },
                    None => TouchSlotUpdate::NotActive,
                }
            },
            TouchPhase::Ended | TouchPhase::Cancelled => {
                match existing {
                    Some(k) => {
                        let ghost before = self.slots@;
                        proof {
                            lemma_occupied_update(before, k as int, None);
                        }
                        let mut slots = self.slots;
                        slots[k] = None;
                        let len = self.len - 1;
                        *self = TouchSlots { slots, len };
                        TouchSlotUpdate::Removed { slot: k }
                    },
                    None => TouchSlotUpdate::NotActive,
                }
            },
        }
    }

    /// Cancels every active contact.
    pub fn cancel_all(&mut self)
        ensures
            final(self)@ == Seq::new(MAX_TOUCH_POINTS as nat, |i: int| None::<TouchId>),
    {
        *self = TouchSlots::new();
    }
}

impl Default for TouchSlots {
    fn default() -> (slots: Self)
        ensures
            slots@ == Seq::new(MAX_TOUCH_POINTS as nat, |i: int| None::<TouchId>),
    {
        TouchSlots::new()
    }
}

/// A table of free slots has no occupied slot.
proof fn lemma_occupied_all_free(s: Seq<Option<TouchId>>)
    requires
        forall|k: int| 0 <= k < s.len() ==> s[k] is None,
    ensures
        occupied(s) == 0,
    decreases s.len(),
{
    if s.len() > 0 {
        lemma_occupied_all_free(s.drop_last());
    }
}

/// The occupied count never exceeds the number of slots.
proof fn lemma_occupied_bound(s: Seq<Option<TouchId>>)
    ensures
        occupied(s) <= s.len(),
    decreases s.len(),
{
    if s.len() > 0 {
        lemma_occupied_bound(s.drop_last());
    }
}

/// Filling a free slot adds one to the occupied count; freeing a taken slot
/// removes one.
proof fn lemma_occupied_update(s: Seq<Option<TouchId>>, k: int, v: Option<TouchId>)
    requires
        0 <= k < s.len(),
    ensures
        occupied(s.update(k, v)) + (if s[k] is Some {
            1int
        } else {
            0int
        }) == occupied(s) + (if v is Some {
            1int
        } else {
            0int
        }),
    decreases s.len(),
{
    if k == s.len() - 1 {
        assert(s.update(k, v).drop_last() =~= s.drop_last());
    } else {
        lemma_occupied_update(s.drop_last(), k, v);
        assert(s.update(k, v).drop_last() =~= s.drop_last().update(k, v));
    }
}

} // verus!
