use vstd::prelude::*;

verus! {

/// A key by its position on the keyboard, named as in the W3C UI Events
/// `code` values. `Other` stands for every key without an XT scancode here.
#[derive(Clone, Copy, PartialEq, Eq, Structural, Debug)]
pub enum KeyCode {
    Backquote,
    Backslash,
    BracketLeft,
    BracketRight,
    Comma,
    Digit0,
    Digit1,
    Digit2,
    Digit3,
    Digit4,
    Digit5,
    Digit6,
    Digit7,
    Digit8,
    Digit9,
    Equal,
    IntlBackslash,
    IntlRo,
    IntlYen,
    KeyA,
    KeyB,
    KeyC,
    KeyD,
    KeyE,
    KeyF,
    KeyG,
    KeyH,
    KeyI,
    KeyJ,
    KeyK,
    KeyL,
    KeyM,
    KeyN,
    KeyO,
    KeyP,
    KeyQ,
    KeyR,
    KeyS,
    KeyT,
    KeyU,
    KeyV,
    KeyW,
    KeyX,
    KeyY,
    KeyZ,
    Minus,
    Period,
    Quote,
    Semicolon,
    Slash,
    AltLeft,
    AltRight,
    Backspace,
    CapsLock,
    ContextMenu,
    ControlLeft,
    ControlRight,
    Enter,
    SuperLeft,
    SuperRight,
    ShiftLeft,
    ShiftRight,
    Space,
    Tab,
    Convert,
    KanaMode,
    NonConvert,
    Delete,
    End,
    Home,
    Insert,
    PageDown,
    PageUp,
    ArrowDown,
    ArrowLeft,
    ArrowRight,
    ArrowUp,
    NumLock,
    Numpad0,
    Numpad1,
    Numpad2,
    Numpad3,
    Numpad4,
    Numpad5,
    Numpad6,
    Numpad7,
    Numpad8,
    Numpad9,
    NumpadAdd,
    NumpadDecimal,
    NumpadDivide,
    NumpadEnter,
    NumpadMultiply,
    NumpadSubtract,
    Escape,
    F1,
    F2,
    F3,
    F4,
    F5,
    F6,
    F7,
    F8,
    F9,
    F10,
    F11,
    F12,
    PrintScreen,
    ScrollLock,
    Other,
}

/// The PC XT (set 1) scancode of a key as the inputs channel takes it: a
/// code sent after an `0xe0` prefix is given with that prefix dropped and
/// `0x100` added.
pub open spec fn xt_scancode_of(key: KeyCode) -> Option<u32> {
    match key {
        KeyCode::Backquote => Some(0x29),
        KeyCode::Backslash => Some(0x2b),
        KeyCode::BracketLeft => Some(0x1a),
        KeyCode::BracketRight => Some(0x1b),
        KeyCode::Comma => Some(0x33),
        KeyCode::Digit0 => Some(0xb),
        KeyCode::Digit1 => Some(0x2),
        KeyCode::Digit2 => Some(0x3),
        KeyCode::Digit3 => Some(0x4),
        KeyCode::Digit4 => Some(0x5),
        KeyCode::Digit5 => Some(0x6),
        KeyCode::Digit6 => Some(0x7),
        KeyCode::Digit7 => Some(0x8),
        KeyCode::Digit8 => Some(0x9),
        KeyCode::Digit9 => Some(0xa),
        KeyCode::Equal => Some(0xd),
        KeyCode::IntlBackslash => Some(0x56),
        KeyCode::IntlRo => Some(0x73),
        KeyCode::IntlYen => Some(0x7d),
        KeyCode::KeyA => Some(0x1e),
        KeyCode::KeyB => Some(0x30),
        KeyCode::KeyC => Some(0x2e),
        KeyCode::KeyD => Some(0x20),
        KeyCode::KeyE => Some(0x12),
        KeyCode::KeyF => Some(0x21),
        KeyCode::KeyG => Some(0x22),
        KeyCode::KeyH => Some(0x23),
        KeyCode::KeyI => Some(0x17),
        KeyCode::KeyJ => Some(0x24),
        KeyCode::KeyK => Some(0x25),
        KeyCode::KeyL => Some(0x26),
        KeyCode::KeyM => Some(0x32),
        KeyCode::KeyN => Some(0x31),
        KeyCode::KeyO => Some(0x18),
        KeyCode::KeyP => Some(0x19),
        KeyCode::KeyQ => Some(0x10),
        KeyCode::KeyR => Some(0x13),
        KeyCode::KeyS => Some(0x1f),
        KeyCode::KeyT => Some(0x14),
        KeyCode::KeyU => Some(0x16),
        KeyCode::KeyV => Some(0x2f),
        KeyCode::KeyW => Some(0x11),
        KeyCode::KeyX => Some(0x2d),
        KeyCode::KeyY => Some(0x15),
        KeyCode::KeyZ => Some(0x2c),
        KeyCode::Minus => Some(0xc),
        KeyCode::Period => Some(0x34),
        KeyCode::Quote => Some(0x28),
        KeyCode::Semicolon => Some(0x27),
        KeyCode::Slash => Some(0x35),
        KeyCode::AltLeft => Some(0x38),
        KeyCode::AltRight => Some(0x138),
        KeyCode::Backspace => Some(0xe),
        KeyCode::CapsLock => Some(0x3a),
        KeyCode::ContextMenu => Some(0x15d),
        KeyCode::ControlLeft => Some(0x1d),
        KeyCode::ControlRight => Some(0x11d),
        KeyCode::Enter => Some(0x1c),
        KeyCode::SuperLeft => Some(0x15b),
        KeyCode::SuperRight => Some(0x15c),
        KeyCode::ShiftLeft => Some(0x2a),
        KeyCode::ShiftRight => Some(0x36),
        KeyCode::Space => Some(0x39),
        KeyCode::Tab => Some(0xf),
        KeyCode::Convert => Some(0x79),
        KeyCode::KanaMode => Some(0x70),
        KeyCode::NonConvert => Some(0x7b),
        KeyCode::Delete => Some(0x153),
        KeyCode::End => Some(0x14f),
        KeyCode::Home => Some(0x147),
        KeyCode::Insert => Some(0x152),
        KeyCode::PageDown => Some(0x151),
        KeyCode::PageUp => Some(0x149),
        KeyCode::ArrowDown => Some(0x150),
        KeyCode::ArrowLeft => Some(0x14b),
        KeyCode::ArrowRight => Some(0x14d),
        KeyCode::ArrowUp => Some(0x148),
        KeyCode::NumLock => Some(0x45),
        KeyCode::Numpad0 => Some(0x52),
        KeyCode::Numpad1 => Some(0x4f),
        KeyCode::Numpad2 => Some(0x50),
        KeyCode::Numpad3 => Some(0x51),
        KeyCode::Numpad4 => Some(0x4b),
        KeyCode::Numpad5 => Some(0x4c),
        KeyCode::Numpad6 => Some(0x4d),
        KeyCode::Numpad7 => Some(0x47),
        KeyCode::Numpad8 => Some(0x48),
        KeyCode::Numpad9 => Some(0x49),
        KeyCode::NumpadAdd => Some(0x4e),
        KeyCode::NumpadDecimal => Some(0x53),
        KeyCode::NumpadDivide => Some(0x135),
        KeyCode::NumpadEnter => Some(0x11c),
        KeyCode::NumpadMultiply => Some(0x37),
        KeyCode::NumpadSubtract => Some(0x4a),
        KeyCode::Escape => Some(0x1),
        KeyCode::F1 => Some(0x3b),
        KeyCode::F2 => Some(0x3c),
        KeyCode::F3 => Some(0x3d),
        KeyCode::F4 => Some(0x3e),
        KeyCode::F5 => Some(0x3f),
        KeyCode::F6 => Some(0x40),
        KeyCode::F7 => Some(0x41),
        KeyCode::F8 => Some(0x42),
        KeyCode::F9 => Some(0x43),
        KeyCode::F10 => Some(0x44),
        KeyCode::F11 => Some(0x57),
        KeyCode::F12 => Some(0x58),
        KeyCode::PrintScreen => Some(0x137),
        KeyCode::ScrollLock => Some(0x46),
        KeyCode::Other => None,
    }
}

/// Gives the XT scancode of a key.
pub fn scancode_to_xt(key: KeyCode) -> (code: Option<u32>)
    ensures
        code == xt_scancode_of(key),
{
    match key {
        KeyCode::Backquote => Some(0x29),
        KeyCode::Backslash => Some(0x2b),
        KeyCode::BracketLeft => Some(0x1a),
        KeyCode::BracketRight => Some(0x1b),
        KeyCode::Comma => Some(0x33),
        KeyCode::Digit0 => Some(0xb),
        KeyCode::Digit1 => Some(0x2),
        KeyCode::Digit2 => Some(0x3),
        KeyCode::Digit3 => Some(0x4),
        KeyCode::Digit4 => Some(0x5),
        KeyCode::Digit5 => Some(0x6),
        KeyCode::Digit6 => Some(0x7),
        KeyCode::Digit7 => Some(0x8),
        KeyCode::Digit8 => Some(0x9),
        KeyCode::Digit9 => Some(0xa),
        KeyCode::Equal => Some(0xd),
        KeyCode::IntlBackslash => Some(0x56),
        KeyCode::IntlRo => Some(0x73),
        KeyCode::IntlYen => Some(0x7d),
        KeyCode::KeyA => Some(0x1e),
        KeyCode::KeyB => Some(0x30),
        KeyCode::KeyC => Some(0x2e),
        KeyCode::KeyD => Some(0x20),
        KeyCode::KeyE => Some(0x12),
        KeyCode::KeyF => Some(0x21),
        KeyCode::KeyG => Some(0x22),
        KeyCode::KeyH => Some(0x23),
        KeyCode::KeyI => Some(0x17),
        KeyCode::KeyJ => Some(0x24),
        KeyCode::KeyK => Some(0x25),
        KeyCode::KeyL => Some(0x26),
        KeyCode::KeyM => Some(0x32),
        KeyCode::KeyN => Some(0x31),
        KeyCode::KeyO => Some(0x18),
        KeyCode::KeyP => Some(0x19),
        KeyCode::KeyQ => Some(0x10),
        KeyCode::KeyR => Some(0x13),
        KeyCode::KeyS => Some(0x1f),
        KeyCode::KeyT => Some(0x14),
        KeyCode::KeyU => Some(0x16),
        KeyCode::KeyV => Some(0x2f),
        KeyCode::KeyW => Some(0x11),
        KeyCode::KeyX => Some(0x2d),
        KeyCode::KeyY => Some(0x15),
        KeyCode::KeyZ => Some(0x2c),
        KeyCode::Minus => Some(0xc),
        KeyCode::Period => Some(0x34),
        KeyCode::Quote => Some(0x28),
        KeyCode::Semicolon => Some(0x27),
        KeyCode::Slash => Some(0x35),
        KeyCode::AltLeft => Some(0x38),
        KeyCode::AltRight => Some(0x138),
        KeyCode::Backspace => Some(0xe),
        KeyCode::CapsLock => Some(0x3a),
        KeyCode::ContextMenu => Some(0x15d),
        KeyCode::ControlLeft => Some(0x1d),
        KeyCode::ControlRight => Some(0x11d),
        KeyCode::Enter => Some(0x1c),
        KeyCode::SuperLeft => Some(0x15b),
        KeyCode::SuperRight => Some(0x15c),
        KeyCode::ShiftLeft => Some(0x2a),
        KeyCode::ShiftRight => Some(0x36),
        KeyCode::Space => Some(0x39),
        KeyCode::Tab => Some(0xf),
        KeyCode::Convert => Some(0x79),
        KeyCode::KanaMode => Some(0x70),
        KeyCode::NonConvert => Some(0x7b),
        KeyCode::Delete => Some(0x153),
        KeyCode::End => Some(0x14f),
        KeyCode::Home => Some(0x147),
        KeyCode::Insert => Some(0x152),
        KeyCode::PageDown => Some(0x151),
        KeyCode::PageUp => Some(0x149),
        KeyCode::ArrowDown => Some(0x150),
        KeyCode::ArrowLeft => Some(0x14b),
        KeyCode::ArrowRight => Some(0x14d),
        KeyCode::ArrowUp => Some(0x148),
        KeyCode::NumLock => Some(0x45),
        KeyCode::Numpad0 => Some(0x52),
        KeyCode::Numpad1 => Some(0x4f),
        KeyCode::Numpad2 => Some(0x50),
        KeyCode::Numpad3 => Some(0x51),
        KeyCode::Numpad4 => Some(0x4b),
        KeyCode::Numpad5 => Some(0x4c),
        KeyCode::Numpad6 => Some(0x4d),
        KeyCode::Numpad7 => Some(0x47),
        KeyCode::Numpad8 => Some(0x48),
        KeyCode::Numpad9 => Some(0x49),
        KeyCode::NumpadAdd => Some(0x4e),
        KeyCode::NumpadDecimal => Some(0x53),
        KeyCode::NumpadDivide => Some(0x135),
        KeyCode::NumpadEnter => Some(0x11c),
        KeyCode::NumpadMultiply => Some(0x37),
        KeyCode::NumpadSubtract => Some(0x4a),
        KeyCode::Escape => Some(0x1),
        KeyCode::F1 => Some(0x3b),
        KeyCode::F2 => Some(0x3c),
        KeyCode::F3 => Some(0x3d),
        KeyCode::F4 => Some(0x3e),
        KeyCode::F5 => Some(0x3f),
        KeyCode::F6 => Some(0x40),
        KeyCode::F7 => Some(0x41),
        KeyCode::F8 => Some(0x42),
        KeyCode::F9 => Some(0x43),
        KeyCode::F10 => Some(0x44),
        KeyCode::F11 => Some(0x57),
        KeyCode::F12 => Some(0x58),
        KeyCode::PrintScreen => Some(0x137),
        KeyCode::ScrollLock => Some(0x46),
        KeyCode::Other => None,
    }
}

/// Distinct keys have distinct scancodes, so the server tells them apart.
pub proof fn lemma_scancodes_distinct(a: KeyCode, b: KeyCode)
    requires
        xt_scancode_of(a) is Some,
        xt_scancode_of(a) == xt_scancode_of(b),
    ensures
        a == b,
{
}

/// Every scancode is a set-1 make code (below `0x80`), with `0x100` added
/// exactly for the keys sent after an `0xe0` prefix.
pub proof fn lemma_scancodes_are_make_codes(key: KeyCode)
    ensures
        xt_scancode_of(key) matches Some(c) ==> 0 < c % 0x100 < 0x80 && c < 0x200,
{
}

/// The keys of each row of a PC keyboard have consecutive set-1 codes in
/// their left-to-right order: `1`..`9`, `0`, `-`, `=`, Backspace; Tab,
/// `Q`..`P`, `[`, `]`, Enter; `A`..`L`, `;`, `'`, `` ` ``; `\`, `Z`..`M`,
/// `,`, `.`, `/`; and `F1`..`F10`. Escape is 1 and Space `0x39`.
pub proof fn lemma_scancode_rows()
    ensures
        xt_scancode_of(KeyCode::Digit2) == Some((xt_scancode_of(KeyCode::Digit1)->0 + 1) as u32),
        xt_scancode_of(KeyCode::Digit3) == Some((xt_scancode_of(KeyCode::Digit2)->0 + 1) as u32),
        xt_scancode_of(KeyCode::Digit4) == Some((xt_scancode_of(KeyCode::Digit3)->0 + 1) as u32),
        xt_scancode_of(KeyCode::Digit5) == Some((xt_scancode_of(KeyCode::Digit4)->0 + 1) as u32),
        xt_scancode_of(KeyCode::Digit6) == Some((xt_scancode_of(KeyCode::Digit5)->0 + 1) as u32),
        xt_scancode_of(KeyCode::Digit7) == Some((xt_scancode_of(KeyCode::Digit6)->0 + 1) as u32),
        xt_scancode_of(KeyCode::Digit8) == Some((xt_scancode_of(KeyCode::Digit7)->0 + 1) as u32),
        xt_scancode_of(KeyCode::Digit9) == Some((xt_scancode_of(KeyCode::Digit8)->0 + 1) as u32),
        xt_scancode_of(KeyCode::Digit0) == Some((xt_scancode_of(KeyCode::Digit9)->0 + 1) as u32),
        xt_scancode_of(KeyCode::Minus) == Some((xt_scancode_of(KeyCode::Digit0)->0 + 1) as u32),
        xt_scancode_of(KeyCode::Equal) == Some((xt_scancode_of(KeyCode::Minus)->0 + 1) as u32),
        xt_scancode_of(KeyCode::Backspace) == Some((xt_scancode_of(KeyCode::Equal)->0 + 1) as u32),
        xt_scancode_of(KeyCode::Tab) == Some((xt_scancode_of(KeyCode::Backspace)->0 + 1) as u32),
        xt_scancode_of(KeyCode::KeyQ) == Some((xt_scancode_of(KeyCode::Tab)->0 + 1) as u32),
        xt_scancode_of(KeyCode::KeyW) == Some((xt_scancode_of(KeyCode::KeyQ)->0 + 1) as u32),
        xt_scancode_of(KeyCode::KeyE) == Some((xt_scancode_of(KeyCode::KeyW)->0 + 1) as u32),
        xt_scancode_of(KeyCode::KeyR) == Some((xt_scancode_of(KeyCode::KeyE)->0 + 1) as u32),
        xt_scancode_of(KeyCode::KeyT) == Some((xt_scancode_of(KeyCode::KeyR)->0 + 1) as u32),
        xt_scancode_of(KeyCode::KeyY) == Some((xt_scancode_of(KeyCode::KeyT)->0 + 1) as u32),
        xt_scancode_of(KeyCode::KeyU) == Some((xt_scancode_of(KeyCode::KeyY)->0 + 1) as u32),
        xt_scancode_of(KeyCode::KeyI) == Some((xt_scancode_of(KeyCode::KeyU)->0 + 1) as u32),
        xt_scancode_of(KeyCode::KeyO) == Some((xt_scancode_of(KeyCode::KeyI)->0 + 1) as u32),
        xt_scancode_of(KeyCode::KeyP) == Some((xt_scancode_of(KeyCode::KeyO)->0 + 1) as u32),
        xt_scancode_of(KeyCode::BracketLeft) == Some((xt_scancode_of(KeyCode::KeyP)->0 + 1) as u32),
        xt_scancode_of(KeyCode::BracketRight) == Some((xt_scancode_of(KeyCode::BracketLeft)->0 + 1) as u32),
        xt_scancode_of(KeyCode::Enter) == Some((xt_scancode_of(KeyCode::BracketRight)->0 + 1) as u32),
        xt_scancode_of(KeyCode::KeyS) == Some((xt_scancode_of(KeyCode::KeyA)->0 + 1) as u32),
        xt_scancode_of(KeyCode::KeyD) == Some((xt_scancode_of(KeyCode::KeyS)->0 + 1) as u32),
        xt_scancode_of(KeyCode::KeyF) == Some((xt_scancode_of(KeyCode::KeyD)->0 + 1) as u32),
        xt_scancode_of(KeyCode::KeyG) == Some((xt_scancode_of(KeyCode::KeyF)->0 + 1) as u32),
        xt_scancode_of(KeyCode::KeyH) == Some((xt_scancode_of(KeyCode::KeyG)->0 + 1) as u32),
        xt_scancode_of(KeyCode::KeyJ) == Some((xt_scancode_of(KeyCode::KeyH)->0 + 1) as u32),
        xt_scancode_of(KeyCode::KeyK) == Some((xt_scancode_of(KeyCode::KeyJ)->0 + 1) as u32),
        xt_scancode_of(KeyCode::KeyL) == Some((xt_scancode_of(KeyCode::KeyK)->0 + 1) as u32),
        xt_scancode_of(KeyCode::Semicolon) == Some((xt_scancode_of(KeyCode::KeyL)->0 + 1) as u32),
        xt_scancode_of(KeyCode::Quote) == Some((xt_scancode_of(KeyCode::Semicolon)->0 + 1) as u32),
        xt_scancode_of(KeyCode::Backquote) == Some((xt_scancode_of(KeyCode::Quote)->0 + 1) as u32),
        xt_scancode_of(KeyCode::KeyZ) == Some((xt_scancode_of(KeyCode::Backslash)->0 + 1) as u32),
        xt_scancode_of(KeyCode::KeyX) == Some((xt_scancode_of(KeyCode::KeyZ)->0 + 1) as u32),
        xt_scancode_of(KeyCode::KeyC) == Some((xt_scancode_of(KeyCode::KeyX)->0 + 1) as u32),
        xt_scancode_of(KeyCode::KeyV) == Some((xt_scancode_of(KeyCode::KeyC)->0 + 1) as u32),
        xt_scancode_of(KeyCode::KeyB) == Some((xt_scancode_of(KeyCode::KeyV)->0 + 1) as u32),
        xt_scancode_of(KeyCode::KeyN) == Some((xt_scancode_of(KeyCode::KeyB)->0 + 1) as u32),
        xt_scancode_of(KeyCode::KeyM) == Some((xt_scancode_of(KeyCode::KeyN)->0 + 1) as u32),
        xt_scancode_of(KeyCode::Comma) == Some((xt_scancode_of(KeyCode::KeyM)->0 + 1) as u32),
        xt_scancode_of(KeyCode::Period) == Some((xt_scancode_of(KeyCode::Comma)->0 + 1) as u32),
        xt_scancode_of(KeyCode::Slash) == Some((xt_scancode_of(KeyCode::Period)->0 + 1) as u32),
        xt_scancode_of(KeyCode::F2) == Some((xt_scancode_of(KeyCode::F1)->0 + 1) as u32),
        xt_scancode_of(KeyCode::F3) == Some((xt_scancode_of(KeyCode::F2)->0 + 1) as u32),
        xt_scancode_of(KeyCode::F4) == Some((xt_scancode_of(KeyCode::F3)->0 + 1) as u32),
        xt_scancode_of(KeyCode::F5) == Some((xt_scancode_of(KeyCode::F4)->0 + 1) as u32),
        xt_scancode_of(KeyCode::F6) == Some((xt_scancode_of(KeyCode::F5)->0 + 1) as u32),
        xt_scancode_of(KeyCode::F7) == Some((xt_scancode_of(KeyCode::F6)->0 + 1) as u32),
        xt_scancode_of(KeyCode::F8) == Some((xt_scancode_of(KeyCode::F7)->0 + 1) as u32),
        xt_scancode_of(KeyCode::F9) == Some((xt_scancode_of(KeyCode::F8)->0 + 1) as u32),
        xt_scancode_of(KeyCode::F10) == Some((xt_scancode_of(KeyCode::F9)->0 + 1) as u32),
        xt_scancode_of(KeyCode::Escape) == Some(1u32),
        xt_scancode_of(KeyCode::Digit1) == Some(2u32),
        xt_scancode_of(KeyCode::KeyA) == Some(0x1eu32),
        xt_scancode_of(KeyCode::Backslash) == Some(0x2bu32),
        xt_scancode_of(KeyCode::F1) == Some(0x3bu32),
        xt_scancode_of(KeyCode::Space) == Some(0x39u32),
{
}

/// The set-1 make code of every key with one, `0x100` added for the keys
/// sent after an `0xe0` prefix; every other key has none.
pub proof fn lemma_scancode_table()
    ensures
        xt_scancode_of(KeyCode::Backquote) == Some(0x29u32),
        xt_scancode_of(KeyCode::Backslash) == Some(0x2bu32),
        xt_scancode_of(KeyCode::BracketLeft) == Some(0x1au32),
        xt_scancode_of(KeyCode::BracketRight) == Some(0x1bu32),
        xt_scancode_of(KeyCode::Comma) == Some(0x33u32),
        xt_scancode_of(KeyCode::Digit0) == Some(0xbu32),
        xt_scancode_of(KeyCode::Digit1) == Some(0x2u32),
        xt_scancode_of(KeyCode::Digit2) == Some(0x3u32),
        xt_scancode_of(KeyCode::Digit3) == Some(0x4u32),
        xt_scancode_of(KeyCode::Digit4) == Some(0x5u32),
        xt_scancode_of(KeyCode::Digit5) == Some(0x6u32),
        xt_scancode_of(KeyCode::Digit6) == Some(0x7u32),
        xt_scancode_of(KeyCode::Digit7) == Some(0x8u32),
        xt_scancode_of(KeyCode::Digit8) == Some(0x9u32),
        xt_scancode_of(KeyCode::Digit9) == Some(0xau32),
        xt_scancode_of(KeyCode::Equal) == Some(0xdu32),
        xt_scancode_of(KeyCode::IntlBackslash) == Some(0x56u32),
        xt_scancode_of(KeyCode::IntlRo) == Some(0x73u32),
        xt_scancode_of(KeyCode::IntlYen) == Some(0x7du32),
        xt_scancode_of(KeyCode::KeyA) == Some(0x1eu32),
        xt_scancode_of(KeyCode::KeyB) == Some(0x30u32),
        xt_scancode_of(KeyCode::KeyC) == Some(0x2eu32),
        xt_scancode_of(KeyCode::KeyD) == Some(0x20u32),
        xt_scancode_of(KeyCode::KeyE) == Some(0x12u32),
        xt_scancode_of(KeyCode::KeyF) == Some(0x21u32),
        xt_scancode_of(KeyCode::KeyG) == Some(0x22u32),
        xt_scancode_of(KeyCode::KeyH) == Some(0x23u32),
        xt_scancode_of(KeyCode::KeyI) == Some(0x17u32),
        xt_scancode_of(KeyCode::KeyJ) == Some(0x24u32),
        xt_scancode_of(KeyCode::KeyK) == Some(0x25u32),
        xt_scancode_of(KeyCode::KeyL) == Some(0x26u32),
        xt_scancode_of(KeyCode::KeyM) == Some(0x32u32),
        xt_scancode_of(KeyCode::KeyN) == Some(0x31u32),
        xt_scancode_of(KeyCode::KeyO) == Some(0x18u32),
        xt_scancode_of(KeyCode::KeyP) == Some(0x19u32),
        xt_scancode_of(KeyCode::KeyQ) == Some(0x10u32),
        xt_scancode_of(KeyCode::KeyR) == Some(0x13u32),
        xt_scancode_of(KeyCode::KeyS) == Some(0x1fu32),
        xt_scancode_of(KeyCode::KeyT) == Some(0x14u32),
        xt_scancode_of(KeyCode::KeyU) == Some(0x16u32),
        xt_scancode_of(KeyCode::KeyV) == Some(0x2fu32),
        xt_scancode_of(KeyCode::KeyW) == Some(0x11u32),
        xt_scancode_of(KeyCode::KeyX) == Some(0x2du32),
        xt_scancode_of(KeyCode::KeyY) == Some(0x15u32),
        xt_scancode_of(KeyCode::KeyZ) == Some(0x2cu32),
        xt_scancode_of(KeyCode::Minus) == Some(0xcu32),
        xt_scancode_of(KeyCode::Period) == Some(0x34u32),
        xt_scancode_of(KeyCode::Quote) == Some(0x28u32),
        xt_scancode_of(KeyCode::Semicolon) == Some(0x27u32),
        xt_scancode_of(KeyCode::Slash) == Some(0x35u32),
        xt_scancode_of(KeyCode::AltLeft) == Some(0x38u32),
        xt_scancode_of(KeyCode::AltRight) == Some(0x138u32),
        xt_scancode_of(KeyCode::Backspace) == Some(0xeu32),
        xt_scancode_of(KeyCode::CapsLock) == Some(0x3au32),
        xt_scancode_of(KeyCode::ContextMenu) == Some(0x15du32),
        xt_scancode_of(KeyCode::ControlLeft) == Some(0x1du32),
        xt_scancode_of(KeyCode::ControlRight) == Some(0x11du32),
        xt_scancode_of(KeyCode::Enter) == Some(0x1cu32),
        xt_scancode_of(KeyCode::SuperLeft) == Some(0x15bu32),
        xt_scancode_of(KeyCode::SuperRight) == Some(0x15cu32),
        xt_scancode_of(KeyCode::ShiftLeft) == Some(0x2au32),
        xt_scancode_of(KeyCode::ShiftRight) == Some(0x36u32),
        xt_scancode_of(KeyCode::Space) == Some(0x39u32),
        xt_scancode_of(KeyCode::Tab) == Some(0xfu32),
        xt_scancode_of(KeyCode::Convert) == Some(0x79u32),
        xt_scancode_of(KeyCode::KanaMode) == Some(0x70u32),
        xt_scancode_of(KeyCode::NonConvert) == Some(0x7bu32),
        xt_scancode_of(KeyCode::Delete) == Some(0x153u32),
        xt_scancode_of(KeyCode::End) == Some(0x14fu32),
        xt_scancode_of(KeyCode::Home) == Some(0x147u32),
        xt_scancode_of(KeyCode::Insert) == Some(0x152u32),
        xt_scancode_of(KeyCode::PageDown) == Some(0x151u32),
        xt_scancode_of(KeyCode::PageUp) == Some(0x149u32),
        xt_scancode_of(KeyCode::ArrowDown) == Some(0x150u32),
        xt_scancode_of(KeyCode::ArrowLeft) == Some(0x14bu32),
        xt_scancode_of(KeyCode::ArrowRight) == Some(0x14du32),
        xt_scancode_of(KeyCode::ArrowUp) == Some(0x148u32),
        xt_scancode_of(KeyCode::NumLock) == Some(0x45u32),
        xt_scancode_of(KeyCode::Numpad0) == Some(0x52u32),
        xt_scancode_of(KeyCode::Numpad1) == Some(0x4fu32),
        xt_scancode_of(KeyCode::Numpad2) == Some(0x50u32),
        xt_scancode_of(KeyCode::Numpad3) == Some(0x51u32),
        xt_scancode_of(KeyCode::Numpad4) == Some(0x4bu32),
        xt_scancode_of(KeyCode::Numpad5) == Some(0x4cu32),
        xt_scancode_of(KeyCode::Numpad6) == Some(0x4du32),
        xt_scancode_of(KeyCode::Numpad7) == Some(0x47u32),
        xt_scancode_of(KeyCode::Numpad8) == Some(0x48u32),
        xt_scancode_of(KeyCode::Numpad9) == Some(0x49u32),
        xt_scancode_of(KeyCode::NumpadAdd) == Some(0x4eu32),
        xt_scancode_of(KeyCode::NumpadDecimal) == Some(0x53u32),
        xt_scancode_of(KeyCode::NumpadDivide) == Some(0x135u32),
        xt_scancode_of(KeyCode::NumpadEnter) == Some(0x11cu32),
        xt_scancode_of(KeyCode::NumpadMultiply) == Some(0x37u32),
        xt_scancode_of(KeyCode::NumpadSubtract) == Some(0x4au32),
        xt_scancode_of(KeyCode::Escape) == Some(0x1u32),
        xt_scancode_of(KeyCode::F1) == Some(0x3bu32),
        xt_scancode_of(KeyCode::F2) == Some(0x3cu32),
        xt_scancode_of(KeyCode::F3) == Some(0x3du32),
        xt_scancode_of(KeyCode::F4) == Some(0x3eu32),
        xt_scancode_of(KeyCode::F5) == Some(0x3fu32),
        xt_scancode_of(KeyCode::F6) == Some(0x40u32),
        xt_scancode_of(KeyCode::F7) == Some(0x41u32),
        xt_scancode_of(KeyCode::F8) == Some(0x42u32),
        xt_scancode_of(KeyCode::F9) == Some(0x43u32),
        xt_scancode_of(KeyCode::F10) == Some(0x44u32),
        xt_scancode_of(KeyCode::F11) == Some(0x57u32),
        xt_scancode_of(KeyCode::F12) == Some(0x58u32),
        xt_scancode_of(KeyCode::PrintScreen) == Some(0x137u32),
        xt_scancode_of(KeyCode::ScrollLock) == Some(0x46u32),
        xt_scancode_of(KeyCode::Other) is None,
{
}

} // verus!
