use vstd::prelude::*;

verus! {

/// Lowest VST3 virtual key code (`KEY_BACK`). Values below this are not virtual keys.
pub const VKEY_FIRST_CODE: i16 = 1;

/// Highest VST3 virtual key code (`KEY_SUPER`).
pub const VKEY_LAST_CODE: i16 = 77;

/// Key codes from here on encode printable ASCII characters rather than virtual keys.
pub const VKEY_FIRST_ASCII: i16 = 128;

/// The keys a VST3 host reports through virtual key codes.
#[derive(Clone, Copy, Debug, PartialEq, Eq, Structural)]
pub enum VirtualKeyCode {
    Backspace,
    Tab,
    Clear,
    Return,
    Pause,
    Escape,
    Space,
    Next,
    End,
    Home,
    ArrowLeft,
    ArrowUp,
    ArrowRight,
    ArrowDown,
    PageUp,
    PageDown,
    Select,
    Print,
    NumpadEnter,
    Snapshot,
    Insert,
    Delete,
    Help,
    Numpad0,
    Numpad1,
    Numpad2,
    Numpad3,
    Numpad4,
    Numpad5,
    Numpad6,
    Numpad7,
    Numpad8,
    Numpad9,
    NumpadMultiply,
    NumpadAdd,
    NumpadSeparator,
    NumpadSubtract,
    NumpadDecimal,
    NumpadDivide,
    F1,
    F2,
    F3,
    F4,
    F5,
    F6,
    F7,
    F8,
    F9,
    F10,
    F11,
    F12,
    NumLock,
    ScrollLock,
    Shift,
    Control,
    Alt,
    Equals,
    ContextMenu,
    MediaPlay,
    MediaStop,
    MediaPrevTrack,
    MediaNextTrack,
    VolumeUp,
    VolumeDown,
    F13,
    F14,
    F15,
    F16,
    F17,
    F18,
    F19,
    F20,
    F21,
    F22,
    F23,
    F24,
    Super,
}

impl VirtualKeyCode {
    /// The VST3 virtual key code of this key.
    pub open spec fn vst3_code(self) -> int {
        match self {
            VirtualKeyCode::Backspace => 1,
            VirtualKeyCode::Tab => 2,
            VirtualKeyCode::Clear => 3,
            VirtualKeyCode::Return => 4,
            VirtualKeyCode::Pause => 5,
            VirtualKeyCode::Escape => 6,
            VirtualKeyCode::Space => 7,
            VirtualKeyCode::Next => 8,
            VirtualKeyCode::End => 9,
            VirtualKeyCode::Home => 10,
            VirtualKeyCode::ArrowLeft => 11,
            VirtualKeyCode::ArrowUp => 12,
            VirtualKeyCode::ArrowRight => 13,
            VirtualKeyCode::ArrowDown => 14,
            VirtualKeyCode::PageUp => 15,
            VirtualKeyCode::PageDown => 16,
            VirtualKeyCode::Select => 17,
            VirtualKeyCode::Print => 18,
            VirtualKeyCode::NumpadEnter => 19,
            VirtualKeyCode::Snapshot => 20,
            VirtualKeyCode::Insert => 21,
            VirtualKeyCode::Delete => 22,
            VirtualKeyCode::Help => 23,
            VirtualKeyCode::Numpad0 => 24,
            VirtualKeyCode::Numpad1 => 25,
            VirtualKeyCode::Numpad2 => 26,
            VirtualKeyCode::Numpad3 => 27,
            VirtualKeyCode::Numpad4 => 28,
            VirtualKeyCode::Numpad5 => 29,
            VirtualKeyCode::Numpad6 => 30,
            VirtualKeyCode::Numpad7 => 31,
            VirtualKeyCode::Numpad8 => 32,
            VirtualKeyCode::Numpad9 => 33,
            VirtualKeyCode::NumpadMultiply => 34,
            VirtualKeyCode::NumpadAdd => 35,
            VirtualKeyCode::NumpadSeparator => 36,
            VirtualKeyCode::NumpadSubtract => 37,
            VirtualKeyCode::NumpadDecimal => 38,
            VirtualKeyCode::NumpadDivide => 39,
            VirtualKeyCode::F1 => 40,
            VirtualKeyCode::F2 => 41,
            VirtualKeyCode::F3 => 42,
            VirtualKeyCode::F4 => 43,
            VirtualKeyCode::F5 => 44,
            VirtualKeyCode::F6 => 45,
            VirtualKeyCode::F7 => 46,
            VirtualKeyCode::F8 => 47,
            VirtualKeyCode::F9 => 48,
            VirtualKeyCode::F10 => 49,
            VirtualKeyCode::F11 => 50,
            VirtualKeyCode::F12 => 51,
            VirtualKeyCode::NumLock => 52,
            VirtualKeyCode::ScrollLock => 53,
            VirtualKeyCode::Shift => 54,
            VirtualKeyCode::Control => 55,
            VirtualKeyCode::Alt => 56,
            VirtualKeyCode::Equals => 57,
            VirtualKeyCode::ContextMenu => 58,
            VirtualKeyCode::MediaPlay => 59,
            VirtualKeyCode::MediaStop => 60,
            VirtualKeyCode::MediaPrevTrack => 61,
            VirtualKeyCode::MediaNextTrack => 62,
            VirtualKeyCode::VolumeUp => 63,
            VirtualKeyCode::VolumeDown => 64,
            VirtualKeyCode::F13 => 65,
            VirtualKeyCode::F14 => 66,
            VirtualKeyCode::F15 => 67,
            VirtualKeyCode::F16 => 68,
            VirtualKeyCode::F17 => 69,
            VirtualKeyCode::F18 => 70,
            VirtualKeyCode::F19 => 71,
            VirtualKeyCode::F20 => 72,
            VirtualKeyCode::F21 => 73,
            VirtualKeyCode::F22 => 74,
            VirtualKeyCode::F23 => 75,
            VirtualKeyCode::F24 => 76,
            VirtualKeyCode::Super => 77,
        }
    }
}

/// Whether `raw` lies in the range of VST3 virtual key codes.
pub open spec fn is_virtual_key(raw: i16) -> bool {
    VKEY_FIRST_CODE <= raw <= VKEY_LAST_CODE
}

/// Maps a VST3 virtual key code to its key. There is one exactly for the codes from
/// [`VKEY_FIRST_CODE`] to [`VKEY_LAST_CODE`].
pub fn vst3_virtual_key_code(raw: i16) -> (key: Option<VirtualKeyCode>)
    ensures
        key is Some <==> is_virtual_key(raw),
        key is Some <==> 1 <= raw <= 77,
        key matches Some(k) ==> k.vst3_code() == raw,
        forall|k: VirtualKeyCode| key == Some(k) <==> #[trigger] k.vst3_code() == raw,
{
    let key: VirtualKeyCode = match raw {
        1 => VirtualKeyCode::Backspace,
        2 => VirtualKeyCode::Tab,
        3 => VirtualKeyCode::Clear,
        4 => VirtualKeyCode::Return,
        5 => VirtualKeyCode::Pause,
        6 => VirtualKeyCode::Escape,
        7 => VirtualKeyCode::Space,
        8 => VirtualKeyCode::Next,
        9 => VirtualKeyCode::End,
        10 => VirtualKeyCode::Home,
        11 => VirtualKeyCode::ArrowLeft,
        12 => VirtualKeyCode::ArrowUp,
        13 => VirtualKeyCode::ArrowRight,
        14 => VirtualKeyCode::ArrowDown,
        15 => VirtualKeyCode::PageUp,
        16 => VirtualKeyCode::PageDown,
        17 => VirtualKeyCode::Select,
        18 => VirtualKeyCode::Print,
        19 => VirtualKeyCode::NumpadEnter,
        20 => VirtualKeyCode::Snapshot,
        21 => VirtualKeyCode::Insert,
        22 => VirtualKeyCode::Delete,
        23 => VirtualKeyCode::Help,
        24 => VirtualKeyCode::Numpad0,
        25 => VirtualKeyCode::Numpad1,
        26 => VirtualKeyCode::Numpad2,
        27 => VirtualKeyCode::Numpad3,
        28 => VirtualKeyCode::Numpad4,
        29 => VirtualKeyCode::Numpad5,
        30 => VirtualKeyCode::Numpad6,
        31 => VirtualKeyCode::Numpad7,
        32 => VirtualKeyCode::Numpad8,
        33 => VirtualKeyCode::Numpad9,
        34 => VirtualKeyCode::NumpadMultiply,
        35 => VirtualKeyCode::NumpadAdd,
        36 => VirtualKeyCode::NumpadSeparator,
        37 => VirtualKeyCode::NumpadSubtract,
        38 => VirtualKeyCode::NumpadDecimal,
        39 => VirtualKeyCode::NumpadDivide,
        40 => VirtualKeyCode::F1,
        41 => VirtualKeyCode::F2,
        42 => VirtualKeyCode::F3,
        43 => VirtualKeyCode::F4,
        44 => VirtualKeyCode::F5,
        45 => VirtualKeyCode::F6,
        46 => VirtualKeyCode::F7,
        47 => VirtualKeyCode::F8,
        48 => VirtualKeyCode::F9,
        49 => VirtualKeyCode::F10,
        50 => VirtualKeyCode::F11,
        51 => VirtualKeyCode::F12,
        52 => VirtualKeyCode::NumLock,
        53 => VirtualKeyCode::ScrollLock,
        54 => VirtualKeyCode::Shift,
        55 => VirtualKeyCode::Control,
        56 => VirtualKeyCode::Alt,
        57 => VirtualKeyCode::Equals,
        58 => VirtualKeyCode::ContextMenu,
        59 => VirtualKeyCode::MediaPlay,
        60 => VirtualKeyCode::MediaStop,
        61 => VirtualKeyCode::MediaPrevTrack,
        62 => VirtualKeyCode::MediaNextTrack,
        63 => VirtualKeyCode::VolumeUp,
        64 => VirtualKeyCode::VolumeDown,
        65 => VirtualKeyCode::F13,
        66 => VirtualKeyCode::F14,
        67 => VirtualKeyCode::F15,
        68 => VirtualKeyCode::F16,
        69 => VirtualKeyCode::F17,
        70 => VirtualKeyCode::F18,
        71 => VirtualKeyCode::F19,
        72 => VirtualKeyCode::F20,
        73 => VirtualKeyCode::F21,
        74 => VirtualKeyCode::F22,
        75 => VirtualKeyCode::F23,
        76 => VirtualKeyCode::F24,
        77 => VirtualKeyCode::Super,
        _ => return None,
    };
    Some(key)
}

/// The modifier keys held during a key event.
#[derive(Clone, Copy, Debug, PartialEq, Eq, Structural)]
pub struct Modifiers {
    /// `kShiftKey`, bit 0
    pub shift: bool,
    /// `kAlternateKey`, bit 1
    pub alternate: bool,
    /// `kCommandKey`, bit 2
    pub command: bool,
    /// `kControlKey`, bit 3
    pub control: bool,
}

/// `value` if `set`, nothing otherwise.
pub open spec fn weighted(set: bool, value: int) -> int {
    if set {
        value
    } else {
        0
    }
}

impl Modifiers {
    /// The modifiers as a number, one bit each.
    pub open spec fn bits_value(self) -> int {
        weighted(self.shift, 1) + weighted(self.alternate, 2) + weighted(self.command, 4)
            + weighted(self.control, 8)
    }

    /// Reads the modifiers off the low four bits of `bits`. The other bits are dropped.
    pub fn from_bits_truncate(bits: u8) -> (modifiers: Modifiers)
        ensures
            modifiers.bits_value() == bits % 16,
            modifiers.shift <==> bits % 2 == 1,
            modifiers.alternate <==> bits / 2 % 2 == 1,
            modifiers.command <==> bits / 4 % 2 == 1,
            modifiers.control <==> bits / 8 % 2 == 1,
    {
        assert((if bits & 1 != 0 { 1int } else { 0 }) + (if bits & 2 != 0 { 2int } else { 0 }) + (
        if bits & 4 != 0 { 4int } else { 0 }) + (if bits & 8 != 0 { 8int } else { 0 }) == bits % 16)
            by (bit_vector);
        let modifiers: Modifiers = Modifiers {
            shift: bits & 1 != 0,
            alternate: bits & 2 != 0,
            command: bits & 4 != 0,
            control: bits & 8 != 0,
        };
        proof {
            lemma_bits_value_is_bits(modifiers, bits as int);
        }
        modifiers
    }

    /// The modifiers as a bitmask.
    pub fn bits(self) -> (bits: u8)
        ensures
            bits == self.bits_value(),
            self.shift <==> bits % 2 == 1,
            self.alternate <==> bits / 2 % 2 == 1,
            self.command <==> bits / 4 % 2 == 1,
            self.control <==> bits / 8 % 2 == 1,
            bits < 16,
    {
        let shift: u8 = if self.shift { 1 } else { 0 };
        let alternate: u8 = if self.alternate { 2 } else { 0 };
        let command: u8 = if self.command { 4 } else { 0 };
        let control: u8 = if self.control { 8 } else { 0 };
        proof {
            lemma_bits_value_is_bits(self, self.bits_value());
        }
        shift + alternate + command + control
    }
}

/// Reads the raw VST3 modifier bitmask. Only bits 0 to 3 are defined; a host that sets others
/// has them dropped.
pub fn vst3_modifiers(raw: i16) -> (modifiers: Modifiers)
    ensures
        modifiers.bits_value() == raw as int % 16,
        modifiers.shift <==> raw as int % 2 == 1,
        modifiers.alternate <==> raw as int / 2 % 2 == 1,
        modifiers.command <==> raw as int / 4 % 2 == 1,
        modifiers.control <==> raw as int / 8 % 2 == 1,
{
    let low: u32 = (#[verifier::truncate]
    (raw as u32)) & 0x0F;
    assert((raw as u32) & 0x0F == raw % 16) by (bit_vector);
    let modifiers: Modifiers = Modifiers::from_bits_truncate(low as u8);
    proof {
        lemma_bits_value_is_bits(modifiers, raw as int);
    }
    modifiers
}

/// A key event that is forwarded to the editor.
#[derive(Clone, Copy, Debug, PartialEq, Eq, Structural)]
pub struct VirtualKeyEvent {
    pub key_code: VirtualKeyCode,
    pub is_down: bool,
    pub modifiers: Modifiers,
}

impl VirtualKeyEvent {
    /// Whether this is the event that a host describes by a key code, a direction and a modifier
    /// bitmask.
    pub open spec fn describes(self, key_code: i16, is_down: bool, modifiers: i16) -> bool {
        &&& self.key_code.vst3_code() == key_code
        &&& self.is_down == is_down
        &&& self.modifiers.bits_value() == modifiers as int % 16
    }
}

/// Decodes the key event that a host describes, if its key code is a virtual key.
///
/// Virtual keys are those a host may intercept before they reach the native view: space,
/// backspace, arrows, function keys, bare modifiers and the like. Text arrives through the
/// window's own keyboard path, so ASCII codes are left alone.
pub fn virtual_key_event(key_code: i16, is_down: bool, modifiers: i16) -> (event: Option<
    VirtualKeyEvent,
>)
    ensures
        event is Some <==> is_virtual_key(key_code),
        event is Some <==> 1 <= key_code <= 77,
        event matches Some(e) ==> e.describes(key_code, is_down, modifiers),
{
    if !(VKEY_FIRST_CODE <= key_code && key_code <= VKEY_LAST_CODE) {
        return None;
    }
    match vst3_virtual_key_code(key_code) {
        Some(key) => Some(
            VirtualKeyEvent { key_code: key, is_down, modifiers: vst3_modifiers(modifiers) },
        ),
        None => None,
    }
}

/// Every key has a virtual key code of its own.
pub proof fn lemma_key_codes_distinct(a: VirtualKeyCode, b: VirtualKeyCode)
    ensures
        VKEY_FIRST_CODE <= a.vst3_code() <= VKEY_LAST_CODE,
        a.vst3_code() == b.vst3_code() ==> a == b,
{
}

/// Code zero and the codes of printable ASCII characters are not virtual keys.
pub proof fn lemma_text_is_not_virtual(raw: i16)
    requires
        raw == 0 || raw >= VKEY_FIRST_ASCII,
    ensures
        !is_virtual_key(raw),
{
}

/// Modifiers are determined by their bits, and these stay below 16.
pub proof fn lemma_modifier_bits_distinct(a: Modifiers, b: Modifiers)
    ensures
        0 <= a.bits_value() < 16,
        a.bits_value() == b.bits_value() ==> a == b,
{
}

/// A host's key code, direction and low four modifier bits describe at most one event: two
/// events described by bitmasks that agree on those bits are the same.
pub proof fn lemma_event_is_determined(
    a: VirtualKeyEvent,
    b: VirtualKeyEvent,
    key_code: i16,
    is_down: bool,
    modifiers_a: i16,
    modifiers_b: i16,
)
    requires
        a.describes(key_code, is_down, modifiers_a),
        b.describes(key_code, is_down, modifiers_b),
        modifiers_a as int % 16 == modifiers_b as int % 16,
    ensures
        a == b,
{
    lemma_key_codes_distinct(a.key_code, b.key_code);
    lemma_modifier_bits_distinct(a.modifiers, b.modifiers);
}

/// The virtual keys are exactly the codes from 1 to 77.
pub proof fn lemma_virtual_key_range(raw: i16)
    ensures
        is_virtual_key(raw) <==> 1 <= raw <= 77,
{
}

/// The low four bits of a mask are those of its remainder by 16.
proof fn lemma_low_bits(mask: int)
    ensures
        mask % 2 == mask % 16 % 2,
        mask / 2 % 2 == mask % 16 / 2 % 2,
        mask / 4 % 2 == mask % 16 / 4 % 2,
        mask / 8 % 2 == mask % 16 / 8 % 2,
{
    lemma_low_bit(mask, 1);
    lemma_low_bit(mask, 2);
    lemma_low_bit(mask, 4);
    lemma_low_bit(mask, 8);
}

/// A bit of weight `weight` is the same in a mask and in its remainder by 16.
proof fn lemma_low_bit(mask: int, weight: int)
    requires
        weight == 1 || weight == 2 || weight == 4 || weight == 8,
    ensures
        mask / weight % 2 == mask % 16 / weight % 2,
{
    let rest: int = 16int / weight;
    let high = mask / 16;
    let low = mask % 16;
    vstd::arithmetic::div_mod::lemma_fundamental_div_mod(mask, 16);
    assert(mask == weight * (rest * high) + low) by (nonlinear_arith)
        requires
            mask == 16 * high + low,
            weight * rest == 16,
    ;
    vstd::arithmetic::div_mod::lemma_hoist_over_denominator(low, rest * high, weight as nat);
    vstd::arithmetic::mul::lemma_mul_is_commutative(weight, rest * high);
    assert((rest * high) % 2 == 0) by (nonlinear_arith)
        requires
            rest == 16 || rest == 8 || rest == 4 || rest == 2,
    ;
}

/// A number that agrees with a bitmask on the low four bits says of each modifier whether its bit
/// is set.
pub proof fn lemma_bits_value_is_bits(modifiers: Modifiers, mask: int)
    ensures
        modifiers.bits_value() == mask % 16 <==> {
            &&& (modifiers.shift <==> mask % 2 == 1)
            &&& (modifiers.alternate <==> mask / 2 % 2 == 1)
            &&& (modifiers.command <==> mask / 4 % 2 == 1)
            &&& (modifiers.control <==> mask / 8 % 2 == 1)
        },
{
    lemma_low_bits(mask);
    let low = mask % 16;
    assert(0 <= low < 16);
    assert(low == low % 2 + 2 * (low / 2 % 2) + 4 * (low / 4 % 2) + 8 * (low / 8 % 2));
}

/// The editor gets the key whose code the host has passed, in the same direction, and each
/// modifier if and only if its bit is set in the host's mask: shift bit 0, alternate bit 1,
/// command bit 2, control bit 3. No event but that one is described.
pub proof fn lemma_event_holds_what_the_host_said(
    event: VirtualKeyEvent,
    key_code: i16,
    is_down: bool,
    modifiers: i16,
)
    ensures
        event.describes(key_code, is_down, modifiers) <==> {
            &&& event.key_code.vst3_code() == key_code
            &&& event.is_down == is_down
            &&& (event.modifiers.shift <==> modifiers as int % 2 == 1)
            &&& (event.modifiers.alternate <==> modifiers as int / 2 % 2 == 1)
            &&& (event.modifiers.command <==> modifiers as int / 4 % 2 == 1)
            &&& (event.modifiers.control <==> modifiers as int / 8 % 2 == 1)
        },
{
    lemma_bits_value_is_bits(event.modifiers, modifiers as int);
}

/// The codes of the keys that come in rows follow each other: the digits of the numeric pad from
/// 24 on, the function keys from 40 on and, past the twelfth, from 65 on.
pub proof fn lemma_key_rows()
    ensures
        VirtualKeyCode::Backspace.vst3_code() == 1,
        VirtualKeyCode::Super.vst3_code() == 77,
        VirtualKeyCode::Numpad0.vst3_code() == 24,
        VirtualKeyCode::Numpad9.vst3_code() == VirtualKeyCode::Numpad0.vst3_code() + 9,
        VirtualKeyCode::F1.vst3_code() == 40,
        VirtualKeyCode::F12.vst3_code() == VirtualKeyCode::F1.vst3_code() + 11,
        VirtualKeyCode::F13.vst3_code() == 65,
        VirtualKeyCode::F24.vst3_code() == VirtualKeyCode::F13.vst3_code() + 11,
{
}

} // verus!
