//! Key bindings: which keys can be bound, and what the operating system is
//! asked to register for a binding.

use crate::layout::Layout;
use vstd::prelude::*;

verus! {

/// Modifier flag of a hotkey: either Alt key.
pub const MOD_ALT: u32 = 0x0001;

/// Modifier flag of a hotkey: either Control key.
pub const MOD_CONTROL: u32 = 0x0002;

/// Modifier flag of a hotkey: either Shift key.
pub const MOD_SHIFT: u32 = 0x0004;

/// Modifier flag of a hotkey: either Windows key.
pub const MOD_WIN: u32 = 0x0008;

/// Flag of a hotkey that is not to fire again while the keys are held down.
pub const MOD_NOREPEAT: u32 = 0x4000;

/// Virtual-key code of the digit 0 in the top row; the other digits follow.
pub const VK_0: u16 = 0x30;

/// Virtual-key code of the digit 0 on the numeric keypad; the other digits
/// follow.
pub const VK_NUMPAD0: u16 = 0x60;

/// A physical key, as a binding names it. `Other` stands for every key that
/// can be neither a hotkey's key nor one of its modifiers.
#[derive(Clone, Copy, Debug, PartialEq, Eq, Structural)]
pub enum KeyCode {
    Digit0,
    Digit1,
    Digit2,
    Digit3,
    Digit4,
    Digit5,
    Digit6,
    Digit7,
    Digit8,
    Digit9,
    Numpad0,
    Numpad1,
    Numpad2,
    Numpad3,
    Numpad4,
    Numpad5,
    Numpad6,
    Numpad7,
    Numpad8,
    Numpad9,
    AltLeft,
    AltRight,
    ControlLeft,
    ControlRight,
    SuperLeft,
    SuperRight,
    ShiftLeft,
    ShiftRight,
    Other,
}

/// The four modifiers a hotkey can ask for. The left and the right key of a
/// pair are one modifier.
#[derive(Clone, Copy, Debug, PartialEq, Eq, Structural)]
pub enum Modifier {
    Alt,
    Control,
    Super,
    Shift,
}

impl Modifier {
    pub open spec fn spec_flag(self) -> u32 {
        match self {
            Modifier::Alt => MOD_ALT,
            Modifier::Control => MOD_CONTROL,
            Modifier::Super => MOD_WIN,
            Modifier::Shift => MOD_SHIFT,
        }
    }

    /// The modifier's flag in a hotkey registration.
    #[verifier::when_used_as_spec(spec_flag)]
    pub fn flag(self) -> (r: u32)
        ensures
            r == self.spec_flag(),
    {
        match self {
            Modifier::Alt => MOD_ALT,
            Modifier::Control => MOD_CONTROL,
            Modifier::Super => MOD_WIN,
            Modifier::Shift => MOD_SHIFT,
        }
    }
}

impl KeyCode {
    /// The digit on a digit key of the top row.
    pub open spec fn top_row_digit(self) -> Option<u16> {
        match self {
            KeyCode::Digit0 => Some(0u16),
            KeyCode::Digit1 => Some(1u16),
            KeyCode::Digit2 => Some(2u16),
            KeyCode::Digit3 => Some(3u16),
            KeyCode::Digit4 => Some(4u16),
            KeyCode::Digit5 => Some(5u16),
            KeyCode::Digit6 => Some(6u16),
            KeyCode::Digit7 => Some(7u16),
            KeyCode::Digit8 => Some(8u16),
            KeyCode::Digit9 => Some(9u16),
            _ => None,
        }
    }

    /// The digit on a digit key of the numeric keypad.
    pub open spec fn numpad_digit(self) -> Option<u16> {
        match self {
            KeyCode::Numpad0 => Some(0u16),
            KeyCode::Numpad1 => Some(1u16),
            KeyCode::Numpad2 => Some(2u16),
            KeyCode::Numpad3 => Some(3u16),
            KeyCode::Numpad4 => Some(4u16),
            KeyCode::Numpad5 => Some(5u16),
            KeyCode::Numpad6 => Some(6u16),
            KeyCode::Numpad7 => Some(7u16),
            KeyCode::Numpad8 => Some(8u16),
            KeyCode::Numpad9 => Some(9u16),
            _ => None,
        }
    }

    /// The virtual-key code of a key that a hotkey can be made of: the twenty
    /// digit keys, each at its digit's distance from the code of its zero.
    pub open spec fn spec_virtual_key(self) -> Option<u16> {
        if let Some(d) = self.top_row_digit() {
            Some((VK_0 + d) as u16)
        } else if let Some(d) = self.numpad_digit() {
            Some((VK_NUMPAD0 + d) as u16)
        } else {
            None
        }
    }

    /// The virtual-key code of this key, if a hotkey can be made of it.
    pub fn virtual_key(self) -> (r: Option<u16>)
        ensures
            r == self.spec_virtual_key(),
    {
        match self {
            KeyCode::Digit0 => Some(VK_0),
            KeyCode::Digit1 => Some(VK_0 + 1),
            KeyCode::Digit2 => Some(VK_0 + 2),
            KeyCode::Digit3 => Some(VK_0 + 3),
            KeyCode::Digit4 => Some(VK_0 + 4),
            KeyCode::Digit5 => Some(VK_0 + 5),
            KeyCode::Digit6 => Some(VK_0 + 6),
            KeyCode::Digit7 => Some(VK_0 + 7),
            KeyCode::Digit8 => Some(VK_0 + 8),
            KeyCode::Digit9 => Some(VK_0 + 9),
            KeyCode::Numpad0 => Some(VK_NUMPAD0),
            KeyCode::Numpad1 => Some(VK_NUMPAD0 + 1),
            KeyCode::Numpad2 => Some(VK_NUMPAD0 + 2),
            KeyCode::Numpad3 => Some(VK_NUMPAD0 + 3),
            KeyCode::Numpad4 => Some(VK_NUMPAD0 + 4),
            KeyCode::Numpad5 => Some(VK_NUMPAD0 + 5),
            KeyCode::Numpad6 => Some(VK_NUMPAD0 + 6),
            KeyCode::Numpad7 => Some(VK_NUMPAD0 + 7),
            KeyCode::Numpad8 => Some(VK_NUMPAD0 + 8),
            KeyCode::Numpad9 => Some(VK_NUMPAD0 + 9),
            _ => None,
        }
    }

    /// The modifier that a key stands for, if it is a modifier key.
    pub open spec fn spec_modifier(self) -> Option<Modifier> {
        match self {
            KeyCode::AltLeft | KeyCode::AltRight => Some(Modifier::Alt),
            KeyCode::ControlLeft | KeyCode::ControlRight => Some(Modifier::Control),
            KeyCode::SuperLeft | KeyCode::SuperRight => Some(Modifier::Super),
            KeyCode::ShiftLeft | KeyCode::ShiftRight => Some(Modifier::Shift),
            _ => None,
        }
    }

    /// The modifier that this key stands for, if it is a modifier key.
    #[verifier::when_used_as_spec(spec_modifier)]
    pub fn modifier(self) -> (r: Option<Modifier>)
        ensures
            r == self.spec_modifier(),
    {
        match self {
            KeyCode::AltLeft | KeyCode::AltRight => Some(Modifier::Alt),
            KeyCode::ControlLeft | KeyCode::ControlRight => Some(Modifier::Control),
            KeyCode::SuperLeft | KeyCode::SuperRight => Some(Modifier::Super),
            KeyCode::ShiftLeft | KeyCode::ShiftRight => Some(Modifier::Shift),
            _ => None,
        }
    }
}

/// Whether one of `keys` stands for the modifier `m`.
pub open spec fn holds(keys: Set<KeyCode>, m: Modifier) -> bool {
    exists|k: KeyCode| #[trigger] keys.contains(k) && k.spec_modifier() == Some(m)
}

/// Whether every one of `keys` is a modifier key.
pub open spec fn all_modifiers(keys: Set<KeyCode>) -> bool {
    forall|k: KeyCode| #[trigger] keys.contains(k) ==> k.spec_modifier() is Some
}

/// The flag of `m` if one of `keys` stands for it, else no flag.
pub open spec fn flag_if_held(keys: Set<KeyCode>, m: Modifier) -> u32 {
    if holds(keys, m) {
        m.spec_flag()
    } else {
        0
    }
}

/// The modifier flags of a set of keys: the flags of the modifiers that the
/// keys stand for, or nothing where the set is empty or holds a key that is
/// no modifier. Which key of a pair is held, and how often a key is named,
/// makes no difference.
pub open spec fn hk_modifier(keys: Set<KeyCode>) -> Option<u32> {
    if keys == Set::<KeyCode>::empty() || !all_modifiers(keys) {
        None
    } else {
        Some(
            flag_if_held(keys, Modifier::Alt) | flag_if_held(keys, Modifier::Control)
                | flag_if_held(keys, Modifier::Shift) | flag_if_held(keys, Modifier::Super),
        )
    }
}

/// The flags of different modifiers share no bit, and none shares one with the
/// auto-repeat flag: combined, they add up.
pub proof fn lemma_flags_add_up(keys: Set<KeyCode>)
    requires
        hk_modifier(keys) is Some,
    ensures
        hk_modifier(keys)->0 == flag_if_held(keys, Modifier::Alt) + flag_if_held(
            keys,
            Modifier::Control,
        ) + flag_if_held(keys, Modifier::Shift) + flag_if_held(keys, Modifier::Super),
        hk_modifier(keys)->0 | MOD_NOREPEAT == hk_modifier(keys)->0 + MOD_NOREPEAT,
{
    let a = flag_if_held(keys, Modifier::Alt);
    let c = flag_if_held(keys, Modifier::Control);
    let s = flag_if_held(keys, Modifier::Shift);
    let w = flag_if_held(keys, Modifier::Super);
    assert((a | c | s | w) == a + c + s + w && ((a | c | s | w) | 0x4000u32) == a + c + s + w
        + 0x4000) by (bit_vector)
        requires
            a == 0 || a == 1,
            c == 0 || c == 2,
            s == 0 || s == 4,
            w == 0 || w == 8,
    ;
}

/// What the operating system is asked to register: the modifier flags,
/// auto-repeat switched off, and the key's virtual-key code.
#[derive(Clone, Copy, Debug, PartialEq, Eq, Structural)]
pub struct Hotkey {
    pub modifiers: u32,
    pub key: u16,
}

/// Why a binding cannot be registered.
#[derive(Clone, Copy, Debug, PartialEq, Eq, Structural)]
pub enum BindError {
    /// The binding names no modifier.
    NoModifier,
    /// One of the binding's modifiers is not a modifier key.
    InvalidModifier,
    /// The binding's key is not one that a hotkey can be made of.
    UnsupportedKey,
}

/// One binding: the modifier keys to hold, the key to press, and where the
/// focused window then goes.
#[derive(Clone, Debug)]
pub struct KeyBind {
    pub modifiers: Vec<KeyCode>,
    pub key: KeyCode,
    pub layout: Layout,
}

impl KeyBind {
    /// The modifier keys as the set that they are.
    pub open spec fn modifier_set(self) -> Set<KeyCode> {
        self.modifiers@.to_set()
    }

    /// The hotkey of this binding, or why it has none. The modifiers are
    /// looked at before the key.
    pub open spec fn spec_hotkey(self) -> Result<Hotkey, BindError> {
        if self.modifier_set() == Set::<KeyCode>::empty() {
            Err(BindError::NoModifier)
        } else if !all_modifiers(self.modifier_set()) {
            Err(BindError::InvalidModifier)
        } else if self.key.spec_virtual_key() is None {
            Err(BindError::UnsupportedKey)
        } else {
            Ok(
                Hotkey {
                    modifiers: hk_modifier(self.modifier_set())->0 | MOD_NOREPEAT,
                    key: self.key.spec_virtual_key()->0,
                },
            )
        }
    }

    /// A modifier is held by the set of keys exactly if it is held by one of
    /// the keys in the list.
    proof fn lemma_held_by_position(self, m: Modifier)
        ensures
            holds(self.modifier_set(), m) <==> exists|j: int|
                0 <= j < self.modifiers@.len() && (#[trigger] self.modifiers@[j]).spec_modifier()
                    == Some(m),
            all_modifiers(self.modifier_set()) <==> forall|j: int|
                0 <= j < self.modifiers@.len() ==> (#[trigger] self.modifiers@[j]).spec_modifier()
                    is Some,
    {
        let keys = self.modifier_set();
        let list = self.modifiers@;
        assert forall|j: int| 0 <= j < list.len() implies keys.contains(#[trigger] list[j]) by {
            assert(list.contains(list[j]));
        }
        if holds(keys, m) {
            let k = choose|k: KeyCode| #[trigger] keys.contains(k) && k.spec_modifier() == Some(m);
            assert(list.contains(k));
        }
        if forall|j: int| 0 <= j < list.len() ==> (#[trigger] list[j]).spec_modifier() is Some {
            assert forall|k: KeyCode| #[trigger] keys.contains(k) implies k.spec_modifier()
                is Some by {
                assert(list.contains(k));
            }
        }
    }

    /// Whether this binding can be registered at all.
    pub open spec fn valid(self) -> bool {
        self.spec_hotkey() is Ok
    }

    /// The virtual-key code of the binding's key, if a hotkey can be made of
    /// it.
    pub fn key_to_virtual_key(&self) -> (r: Option<u16>)
        ensures
            r == self.key.spec_virtual_key(),
    {
        self.key.virtual_key()
    }

    /// The modifier flags of the binding's modifier keys: `None` where it
    /// names none, or one that is no modifier key.
    pub fn modifier_to_hk_modifier(&self) -> (r: Option<u32>)
        ensures
            r == hk_modifier(self.modifier_set()),
    {
        let n = self.modifiers.len();
        let mut alt = false;
        let mut control = false;
        let mut shift = false;
        let mut win = false;
        let mut i: usize = 0;
        while i < n
            invariant
                i <= n,
                n == self.modifiers@.len(),
                forall|j: int| 0 <= j < i ==> (#[trigger] self.modifiers@[j]).spec_modifier() is Some,
                alt <==> exists|j: int|
                    0 <= j < i && (#[trigger] self.modifiers@[j]).spec_modifier() == Some(
                        Modifier::Alt,
                    ),
                control <==> exists|j: int|
                    0 <= j < i && (#[trigger] self.modifiers@[j]).spec_modifier() == Some(
                        Modifier::Control,
                    ),
                shift <==> exists|j: int|
                    0 <= j < i && (#[trigger] self.modifiers@[j]).spec_modifier() == Some(
                        Modifier::Shift,
                    ),
                win <==> exists|j: int|
                    0 <= j < i && (#[trigger] self.modifiers@[j]).spec_modifier() == Some(
                        Modifier::Super,
                    ),
            decreases n - i,
        {
            match self.modifiers[i].modifier() {
                None => {
                    proof {
                        assert(self.modifiers@.contains(self.modifiers@[i as int]));
                        assert(self.modifier_set().contains(self.modifiers@[i as int]));
                    }
                    return None;
                },
                Some(Modifier::Alt) => {
                    alt = true;
                },
                Some(Modifier::Control) => {
                    control = true;
                },
                Some(Modifier::Shift) => {
                    shift = true;
                },
                Some(Modifier::Super) => {
                    win = true;
                },
            }
            i += 1;
        }
        if n == 0 {
            proof {
                assert(self.modifier_set() =~= Set::<KeyCode>::empty());
            }
            return None;
        }
        proof {
            let keys = self.modifier_set();
            assert(self.modifiers@.contains(self.modifiers@[0]));
            assert(keys.contains(self.modifiers@[0]));
            self.lemma_held_by_position(Modifier::Alt);
            self.lemma_held_by_position(Modifier::Control);
            self.lemma_held_by_position(Modifier::Shift);
            self.lemma_held_by_position(Modifier::Super);
        }
        let a: u32 = if alt { MOD_ALT } else { 0 };
        let c: u32 = if control { MOD_CONTROL } else { 0 };
        let s: u32 = if shift { MOD_SHIFT } else { 0 };
        let w: u32 = if win { MOD_WIN } else { 0 };
        Some(a | c | s | w)
    }

    /// What to register for this binding, or why it cannot be registered.
    pub fn hotkey(&self) -> (r: Result<Hotkey, BindError>)
        ensures
            r == self.spec_hotkey(),
    {
        if self.modifiers.len() == 0 {
            proof {
                assert(self.modifier_set() =~= Set::<KeyCode>::empty());
            }
            return Err(BindError::NoModifier);
        }
        proof {
            assert(self.modifier_set().contains(self.modifiers@[0]));
        }
        match self.modifier_to_hk_modifier() {
            None => Err(BindError::InvalidModifier),
            Some(flags) => match self.key_to_virtual_key() {
                None => Err(BindError::UnsupportedKey),
                Some(key) => Ok(Hotkey { modifiers: flags | MOD_NOREPEAT, key }),
            },
        }
    }
}

} // verus!
