use vstd::prelude::*;

verus! {

/// The GLFW key code of the space bar.
pub const KEY_SPACE: i32 = 32;

/// The GLFW key code of the escape key.
pub const KEY_ESCAPE: i32 = 256;

// GLFW key codes, as `glfw3.h` defines them.
pub const GLFW_KEY_TAB: i32 = 258;
pub const GLFW_KEY_LEFT: i32 = 263;
pub const GLFW_KEY_RIGHT: i32 = 262;
pub const GLFW_KEY_UP: i32 = 265;
pub const GLFW_KEY_DOWN: i32 = 264;
pub const GLFW_KEY_PAGE_UP: i32 = 266;
pub const GLFW_KEY_PAGE_DOWN: i32 = 267;
pub const GLFW_KEY_HOME: i32 = 268;
pub const GLFW_KEY_END: i32 = 269;
pub const GLFW_KEY_INSERT: i32 = 260;
pub const GLFW_KEY_DELETE: i32 = 261;
pub const GLFW_KEY_BACKSPACE: i32 = 259;
pub const GLFW_KEY_SPACE: i32 = 32;
pub const GLFW_KEY_ENTER: i32 = 257;
pub const GLFW_KEY_ESCAPE: i32 = 256;
pub const GLFW_KEY_LEFT_CONTROL: i32 = 341;
pub const GLFW_KEY_LEFT_SHIFT: i32 = 340;
pub const GLFW_KEY_LEFT_ALT: i32 = 342;
pub const GLFW_KEY_LEFT_SUPER: i32 = 343;
pub const GLFW_KEY_RIGHT_CONTROL: i32 = 345;
pub const GLFW_KEY_RIGHT_SHIFT: i32 = 344;
pub const GLFW_KEY_RIGHT_ALT: i32 = 346;
pub const GLFW_KEY_RIGHT_SUPER: i32 = 347;
pub const GLFW_KEY_MENU: i32 = 348;
pub const GLFW_KEY_0: i32 = 48;
pub const GLFW_KEY_1: i32 = 49;
pub const GLFW_KEY_2: i32 = 50;
pub const GLFW_KEY_3: i32 = 51;
pub const GLFW_KEY_4: i32 = 52;
pub const GLFW_KEY_5: i32 = 53;
pub const GLFW_KEY_6: i32 = 54;
pub const GLFW_KEY_7: i32 = 55;
pub const GLFW_KEY_8: i32 = 56;
pub const GLFW_KEY_9: i32 = 57;
pub const GLFW_KEY_A: i32 = 65;
pub const GLFW_KEY_B: i32 = 66;
pub const GLFW_KEY_C: i32 = 67;
pub const GLFW_KEY_D: i32 = 68;
pub const GLFW_KEY_E: i32 = 69;
pub const GLFW_KEY_F: i32 = 70;
pub const GLFW_KEY_G: i32 = 71;
pub const GLFW_KEY_H: i32 = 72;
pub const GLFW_KEY_I: i32 = 73;
pub const GLFW_KEY_J: i32 = 74;
pub const GLFW_KEY_K: i32 = 75;
pub const GLFW_KEY_L: i32 = 76;
pub const GLFW_KEY_M: i32 = 77;
pub const GLFW_KEY_N: i32 = 78;
pub const GLFW_KEY_O: i32 = 79;
pub const GLFW_KEY_P: i32 = 80;
pub const GLFW_KEY_Q: i32 = 81;
pub const GLFW_KEY_R: i32 = 82;
pub const GLFW_KEY_S: i32 = 83;
pub const GLFW_KEY_T: i32 = 84;
pub const GLFW_KEY_U: i32 = 85;
pub const GLFW_KEY_V: i32 = 86;
pub const GLFW_KEY_W: i32 = 87;
pub const GLFW_KEY_X: i32 = 88;
pub const GLFW_KEY_Y: i32 = 89;
pub const GLFW_KEY_Z: i32 = 90;
pub const GLFW_KEY_F1: i32 = 290;
pub const GLFW_KEY_F2: i32 = 291;
pub const GLFW_KEY_F3: i32 = 292;
pub const GLFW_KEY_F4: i32 = 293;
pub const GLFW_KEY_F5: i32 = 294;
pub const GLFW_KEY_F6: i32 = 295;
pub const GLFW_KEY_F7: i32 = 296;
pub const GLFW_KEY_F8: i32 = 297;
pub const GLFW_KEY_F9: i32 = 298;
pub const GLFW_KEY_F10: i32 = 299;
pub const GLFW_KEY_F11: i32 = 300;
pub const GLFW_KEY_F12: i32 = 301;
pub const GLFW_KEY_APOSTROPHE: i32 = 39;
pub const GLFW_KEY_COMMA: i32 = 44;
pub const GLFW_KEY_MINUS: i32 = 45;
pub const GLFW_KEY_PERIOD: i32 = 46;
pub const GLFW_KEY_SLASH: i32 = 47;
pub const GLFW_KEY_SEMICOLON: i32 = 59;
pub const GLFW_KEY_EQUAL: i32 = 61;
pub const GLFW_KEY_LEFT_BRACKET: i32 = 91;
pub const GLFW_KEY_BACKSLASH: i32 = 92;
pub const GLFW_KEY_RIGHT_BRACKET: i32 = 93;
pub const GLFW_KEY_GRAVE_ACCENT: i32 = 96;
pub const GLFW_KEY_CAPS_LOCK: i32 = 280;
pub const GLFW_KEY_SCROLL_LOCK: i32 = 281;
pub const GLFW_KEY_NUM_LOCK: i32 = 282;
pub const GLFW_KEY_PRINT_SCREEN: i32 = 283;
pub const GLFW_KEY_PAUSE: i32 = 284;
pub const GLFW_KEY_KP_0: i32 = 320;
pub const GLFW_KEY_KP_1: i32 = 321;
pub const GLFW_KEY_KP_2: i32 = 322;
pub const GLFW_KEY_KP_3: i32 = 323;
pub const GLFW_KEY_KP_4: i32 = 324;
pub const GLFW_KEY_KP_5: i32 = 325;
pub const GLFW_KEY_KP_6: i32 = 326;
pub const GLFW_KEY_KP_7: i32 = 327;
pub const GLFW_KEY_KP_8: i32 = 328;
pub const GLFW_KEY_KP_9: i32 = 329;
pub const GLFW_KEY_KP_DECIMAL: i32 = 330;
pub const GLFW_KEY_KP_DIVIDE: i32 = 331;
pub const GLFW_KEY_KP_MULTIPLY: i32 = 332;
pub const GLFW_KEY_KP_SUBTRACT: i32 = 333;
pub const GLFW_KEY_KP_ADD: i32 = 334;
pub const GLFW_KEY_KP_ENTER: i32 = 335;
pub const GLFW_KEY_KP_EQUAL: i32 = 336;
pub const GLFW_KEY_UNKNOWN: i32 = -1;
pub const GLFW_KEY_WORLD_1: i32 = 161;
pub const GLFW_KEY_WORLD_2: i32 = 162;
pub const GLFW_KEY_F13: i32 = 302;
pub const GLFW_KEY_F14: i32 = 303;
pub const GLFW_KEY_F15: i32 = 304;
pub const GLFW_KEY_F16: i32 = 305;
pub const GLFW_KEY_F17: i32 = 306;
pub const GLFW_KEY_F18: i32 = 307;
pub const GLFW_KEY_F19: i32 = 308;
pub const GLFW_KEY_F20: i32 = 309;
pub const GLFW_KEY_F21: i32 = 310;
pub const GLFW_KEY_F22: i32 = 311;
pub const GLFW_KEY_F23: i32 = 312;
pub const GLFW_KEY_F24: i32 = 313;
pub const GLFW_KEY_F25: i32 = 314;

/// A key as the GUI knows it.
#[derive(Clone, Copy, Debug, PartialEq, Eq, Structural)]
pub enum ImGuiKey {
    Tab,
    LeftArrow,
    RightArrow,
    UpArrow,
    DownArrow,
    PageUp,
    PageDown,
    Home,
    End,
    Insert,
    Delete,
    Backspace,
    Space,
    Enter,
    Escape,
    LeftCtrl,
    LeftShift,
    LeftAlt,
    LeftSuper,
    RightCtrl,
    RightShift,
    RightAlt,
    RightSuper,
    Menu,
    Alpha0,
    Alpha1,
    Alpha2,
    Alpha3,
    Alpha4,
    Alpha5,
    Alpha6,
    Alpha7,
    Alpha8,
    Alpha9,
    A,
    B,
    C,
    D,
    E,
    F,
    G,
    H,
    I,
    J,
    K,
    L,
    M,
    N,
    O,
    P,
    Q,
    R,
    S,
    T,
    U,
    V,
    W,
    X,
    Y,
    Z,
    F1,
    F2,
    F3,
    F4,
    F5,
    F6,
    F7,
    F8,
    F9,
    F10,
    F11,
    F12,
    Apostrophe,
    Comma,
    Minus,
    Period,
    Slash,
    Semicolon,
    Equal,
    LeftBracket,
    Backslash,
    RightBracket,
    GraveAccent,
    CapsLock,
    ScrollLock,
    NumLock,
    PrintScreen,
    Pause,
    Keypad0,
    Keypad1,
    Keypad2,
    Keypad3,
    Keypad4,
    Keypad5,
    Keypad6,
    Keypad7,
    Keypad8,
    Keypad9,
    KeypadDecimal,
    KeypadDivide,
    KeypadMultiply,
    KeypadSubtract,
    KeypadAdd,
    KeypadEnter,
    KeypadEqual,
}

/// The GUI key that the GLFW key with code `code` stands for, if any.
pub open spec fn key_table(code: i32) -> Option<ImGuiKey> {
    match code {
        258 => Some(ImGuiKey::Tab),
        263 => Some(ImGuiKey::LeftArrow),
        262 => Some(ImGuiKey::RightArrow),
        265 => Some(ImGuiKey::UpArrow),
        264 => Some(ImGuiKey::DownArrow),
        266 => Some(ImGuiKey::PageUp),
        267 => Some(ImGuiKey::PageDown),
        268 => Some(ImGuiKey::Home),
        269 => Some(ImGuiKey::End),
        260 => Some(ImGuiKey::Insert),
        261 => Some(ImGuiKey::Delete),
        259 => Some(ImGuiKey::Backspace),
        32 => Some(ImGuiKey::Space),
        257 => Some(ImGuiKey::Enter),
        256 => Some(ImGuiKey::Escape),
        341 => Some(ImGuiKey::LeftCtrl),
        340 => Some(ImGuiKey::LeftShift),
        342 => Some(ImGuiKey::LeftAlt),
        343 => Some(ImGuiKey::LeftSuper),
        345 => Some(ImGuiKey::RightCtrl),
        344 => Some(ImGuiKey::RightShift),
        346 => Some(ImGuiKey::RightAlt),
        347 => Some(ImGuiKey::RightSuper),
        348 => Some(ImGuiKey::Menu),
        48 => Some(ImGuiKey::Alpha0),
        49 => Some(ImGuiKey::Alpha1),
        50 => Some(ImGuiKey::Alpha2),
        51 => Some(ImGuiKey::Alpha3),
        52 => Some(ImGuiKey::Alpha4),
        53 => Some(ImGuiKey::Alpha5),
        54 => Some(ImGuiKey::Alpha6),
        55 => Some(ImGuiKey::Alpha7),
        56 => Some(ImGuiKey::Alpha8),
        57 => Some(ImGuiKey::Alpha9),
        65 => Some(ImGuiKey::A),
        66 => Some(ImGuiKey::B),
        67 => Some(ImGuiKey::C),
        68 => Some(ImGuiKey::D),
        69 => Some(ImGuiKey::E),
        70 => Some(ImGuiKey::F),
        71 => Some(ImGuiKey::G),
        72 => Some(ImGuiKey::H),
        73 => Some(ImGuiKey::I),
        74 => Some(ImGuiKey::J),
        75 => Some(ImGuiKey::K),
        76 => Some(ImGuiKey::L),
        77 => Some(ImGuiKey::M),
        78 => Some(ImGuiKey::N),
        79 => Some(ImGuiKey::O),
        80 => Some(ImGuiKey::P),
        81 => Some(ImGuiKey::Q),
        82 => Some(ImGuiKey::R),
        83 => Some(ImGuiKey::S),
        84 => Some(ImGuiKey::T),
        85 => Some(ImGuiKey::U),
        86 => Some(ImGuiKey::V),
        87 => Some(ImGuiKey::W),
        88 => Some(ImGuiKey::X),
        89 => Some(ImGuiKey::Y),
        90 => Some(ImGuiKey::Z),
        290 => Some(ImGuiKey::F1),
        291 => Some(ImGuiKey::F2),
        292 => Some(ImGuiKey::F3),
        293 => Some(ImGuiKey::F4),
        294 => Some(ImGuiKey::F5),
        295 => Some(ImGuiKey::F6),
        296 => Some(ImGuiKey::F7),
        297 => Some(ImGuiKey::F8),
        298 => Some(ImGuiKey::F9),
        299 => Some(ImGuiKey::F10),
        300 => Some(ImGuiKey::F11),
        301 => Some(ImGuiKey::F12),
        39 => Some(ImGuiKey::Apostrophe),
        44 => Some(ImGuiKey::Comma),
        45 => Some(ImGuiKey::Minus),
        46 => Some(ImGuiKey::Period),
        47 => Some(ImGuiKey::Slash),
        59 => Some(ImGuiKey::Semicolon),
        61 => Some(ImGuiKey::Equal),
        91 => Some(ImGuiKey::LeftBracket),
        92 => Some(ImGuiKey::Backslash),
        93 => Some(ImGuiKey::RightBracket),
        96 => Some(ImGuiKey::GraveAccent),
        280 => Some(ImGuiKey::CapsLock),
        281 => Some(ImGuiKey::ScrollLock),
        282 => Some(ImGuiKey::NumLock),
        283 => Some(ImGuiKey::PrintScreen),
        284 => Some(ImGuiKey::Pause),
        320 => Some(ImGuiKey::Keypad0),
        321 => Some(ImGuiKey::Keypad1),
        322 => Some(ImGuiKey::Keypad2),
        323 => Some(ImGuiKey::Keypad3),
        324 => Some(ImGuiKey::Keypad4),
        325 => Some(ImGuiKey::Keypad5),
        326 => Some(ImGuiKey::Keypad6),
        327 => Some(ImGuiKey::Keypad7),
        328 => Some(ImGuiKey::Keypad8),
        329 => Some(ImGuiKey::Keypad9),
        330 => Some(ImGuiKey::KeypadDecimal),
        331 => Some(ImGuiKey::KeypadDivide),
        332 => Some(ImGuiKey::KeypadMultiply),
        333 => Some(ImGuiKey::KeypadSubtract),
        334 => Some(ImGuiKey::KeypadAdd),
        335 => Some(ImGuiKey::KeypadEnter),
        336 => Some(ImGuiKey::KeypadEqual),
        _ => None,
    }
}

/// The GUI key that the GLFW key with code `code` stands for; `None` for keys
/// the GUI does not take.
pub fn map_glfw_key(code: i32) -> (key: Option<ImGuiKey>)
    ensures
        key == key_table(code),
{
    match code {
        258 => Some(ImGuiKey::Tab),
        263 => Some(ImGuiKey::LeftArrow),
        262 => Some(ImGuiKey::RightArrow),
        265 => Some(ImGuiKey::UpArrow),
        264 => Some(ImGuiKey::DownArrow),
        266 => Some(ImGuiKey::PageUp),
        267 => Some(ImGuiKey::PageDown),
        268 => Some(ImGuiKey::Home),
        269 => Some(ImGuiKey::End),
        260 => Some(ImGuiKey::Insert),
        261 => Some(ImGuiKey::Delete),
        259 => Some(ImGuiKey::Backspace),
        32 => Some(ImGuiKey::Space),
        257 => Some(ImGuiKey::Enter),
        256 => Some(ImGuiKey::Escape),
        341 => Some(ImGuiKey::LeftCtrl),
        340 => Some(ImGuiKey::LeftShift),
        342 => Some(ImGuiKey::LeftAlt),
        343 => Some(ImGuiKey::LeftSuper),
        345 => Some(ImGuiKey::RightCtrl),
        344 => Some(ImGuiKey::RightShift),
        346 => Some(ImGuiKey::RightAlt),
        347 => Some(ImGuiKey::RightSuper),
        348 => Some(ImGuiKey::Menu),
        48 => Some(ImGuiKey::Alpha0),
        49 => Some(ImGuiKey::Alpha1),
        50 => Some(ImGuiKey::Alpha2),
        51 => Some(ImGuiKey::Alpha3),
        52 => Some(ImGuiKey::Alpha4),
        53 => Some(ImGuiKey::Alpha5),
        54 => Some(ImGuiKey::Alpha6),
        55 => Some(ImGuiKey::Alpha7),
        56 => Some(ImGuiKey::Alpha8),
        57 => Some(ImGuiKey::Alpha9),
        65 => Some(ImGuiKey::A),
        66 => Some(ImGuiKey::B),
        67 => Some(ImGuiKey::C),
        68 => Some(ImGuiKey::D),
        69 => Some(ImGuiKey::E),
        70 => Some(ImGuiKey::F),
        71 => Some(ImGuiKey::G),
        72 => Some(ImGuiKey::H),
        73 => Some(ImGuiKey::I),
        74 => Some(ImGuiKey::J),
        75 => Some(ImGuiKey::K),
        76 => Some(ImGuiKey::L),
        77 => Some(ImGuiKey::M),
        78 => Some(ImGuiKey::N),
        79 => Some(ImGuiKey::O),
        80 => Some(ImGuiKey::P),
        81 => Some(ImGuiKey::Q),
        82 => Some(ImGuiKey::R),
        83 => Some(ImGuiKey::S),
        84 => Some(ImGuiKey::T),
        85 => Some(ImGuiKey::U),
        86 => Some(ImGuiKey::V),
        87 => Some(ImGuiKey::W),
        88 => Some(ImGuiKey::X),
        89 => Some(ImGuiKey::Y),
        90 => Some(ImGuiKey::Z),
        290 => Some(ImGuiKey::F1),
        291 => Some(ImGuiKey::F2),
        292 => Some(ImGuiKey::F3),
        293 => Some(ImGuiKey::F4),
        294 => Some(ImGuiKey::F5),
        295 => Some(ImGuiKey::F6),
        296 => Some(ImGuiKey::F7),
        297 => Some(ImGuiKey::F8),
        298 => Some(ImGuiKey::F9),
        299 => Some(ImGuiKey::F10),
        300 => Some(ImGuiKey::F11),
        301 => Some(ImGuiKey::F12),
        39 => Some(ImGuiKey::Apostrophe),
        44 => Some(ImGuiKey::Comma),
        45 => Some(ImGuiKey::Minus),
        46 => Some(ImGuiKey::Period),
        47 => Some(ImGuiKey::Slash),
        59 => Some(ImGuiKey::Semicolon),
        61 => Some(ImGuiKey::Equal),
        91 => Some(ImGuiKey::LeftBracket),
        92 => Some(ImGuiKey::Backslash),
        93 => Some(ImGuiKey::RightBracket),
        96 => Some(ImGuiKey::GraveAccent),
        280 => Some(ImGuiKey::CapsLock),
        281 => Some(ImGuiKey::ScrollLock),
        282 => Some(ImGuiKey::NumLock),
        283 => Some(ImGuiKey::PrintScreen),
        284 => Some(ImGuiKey::Pause),
        320 => Some(ImGuiKey::Keypad0),
        321 => Some(ImGuiKey::Keypad1),
        322 => Some(ImGuiKey::Keypad2),
        323 => Some(ImGuiKey::Keypad3),
        324 => Some(ImGuiKey::Keypad4),
        325 => Some(ImGuiKey::Keypad5),
        326 => Some(ImGuiKey::Keypad6),
        327 => Some(ImGuiKey::Keypad7),
        328 => Some(ImGuiKey::Keypad8),
        329 => Some(ImGuiKey::Keypad9),
        330 => Some(ImGuiKey::KeypadDecimal),
        331 => Some(ImGuiKey::KeypadDivide),
        332 => Some(ImGuiKey::KeypadMultiply),
        333 => Some(ImGuiKey::KeypadSubtract),
        334 => Some(ImGuiKey::KeypadAdd),
        335 => Some(ImGuiKey::KeypadEnter),
        336 => Some(ImGuiKey::KeypadEqual),
        _ => None,
    }
}

/// Law: each GLFW key stands for the GUI key of the same name: the arrows
/// for the arrows, `0`-`9` for `Alpha0`-`Alpha9`, the keypad keys for the
/// keypad keys, and so on; unknown keys, the "world" keys and F13-F25 stand
/// for none.
pub proof fn lemma_key_table_names(code: i32)
    ensures
        key_table(GLFW_KEY_TAB) == Some(ImGuiKey::Tab),
        key_table(GLFW_KEY_LEFT) == Some(ImGuiKey::LeftArrow),
        key_table(GLFW_KEY_RIGHT) == Some(ImGuiKey::RightArrow),
        key_table(GLFW_KEY_UP) == Some(ImGuiKey::UpArrow),
        key_table(GLFW_KEY_DOWN) == Some(ImGuiKey::DownArrow),
        key_table(GLFW_KEY_PAGE_UP) == Some(ImGuiKey::PageUp),
        key_table(GLFW_KEY_PAGE_DOWN) == Some(ImGuiKey::PageDown),
        key_table(GLFW_KEY_HOME) == Some(ImGuiKey::Home),
        key_table(GLFW_KEY_END) == Some(ImGuiKey::End),
        key_table(GLFW_KEY_INSERT) == Some(ImGuiKey::Insert),
        key_table(GLFW_KEY_DELETE) == Some(ImGuiKey::Delete),
        key_table(GLFW_KEY_BACKSPACE) == Some(ImGuiKey::Backspace),
        key_table(GLFW_KEY_SPACE) == Some(ImGuiKey::Space),
        key_table(GLFW_KEY_ENTER) == Some(ImGuiKey::Enter),
        key_table(GLFW_KEY_ESCAPE) == Some(ImGuiKey::Escape),
        key_table(GLFW_KEY_LEFT_CONTROL) == Some(ImGuiKey::LeftCtrl),
        key_table(GLFW_KEY_LEFT_SHIFT) == Some(ImGuiKey::LeftShift),
        key_table(GLFW_KEY_LEFT_ALT) == Some(ImGuiKey::LeftAlt),
        key_table(GLFW_KEY_LEFT_SUPER) == Some(ImGuiKey::LeftSuper),
        key_table(GLFW_KEY_RIGHT_CONTROL) == Some(ImGuiKey::RightCtrl),
        key_table(GLFW_KEY_RIGHT_SHIFT) == Some(ImGuiKey::RightShift),
        key_table(GLFW_KEY_RIGHT_ALT) == Some(ImGuiKey::RightAlt),
        key_table(GLFW_KEY_RIGHT_SUPER) == Some(ImGuiKey::RightSuper),
        key_table(GLFW_KEY_MENU) == Some(ImGuiKey::Menu),
        key_table(GLFW_KEY_0) == Some(ImGuiKey::Alpha0),
        key_table(GLFW_KEY_1) == Some(ImGuiKey::Alpha1),
        key_table(GLFW_KEY_2) == Some(ImGuiKey::Alpha2),
        key_table(GLFW_KEY_3) == Some(ImGuiKey::Alpha3),
        key_table(GLFW_KEY_4) == Some(ImGuiKey::Alpha4),
        key_table(GLFW_KEY_5) == Some(ImGuiKey::Alpha5),
        key_table(GLFW_KEY_6) == Some(ImGuiKey::Alpha6),
        key_table(GLFW_KEY_7) == Some(ImGuiKey::Alpha7),
        key_table(GLFW_KEY_8) == Some(ImGuiKey::Alpha8),
        key_table(GLFW_KEY_9) == Some(ImGuiKey::Alpha9),
        key_table(GLFW_KEY_A) == Some(ImGuiKey::A),
        key_table(GLFW_KEY_B) == Some(ImGuiKey::B),
        key_table(GLFW_KEY_C) == Some(ImGuiKey::C),
        key_table(GLFW_KEY_D) == Some(ImGuiKey::D),
        key_table(GLFW_KEY_E) == Some(ImGuiKey::E),
        key_table(GLFW_KEY_F) == Some(ImGuiKey::F),
        key_table(GLFW_KEY_G) == Some(ImGuiKey::G),
        key_table(GLFW_KEY_H) == Some(ImGuiKey::H),
        key_table(GLFW_KEY_I) == Some(ImGuiKey::I),
        key_table(GLFW_KEY_J) == Some(ImGuiKey::J),
        key_table(GLFW_KEY_K) == Some(ImGuiKey::K),
        key_table(GLFW_KEY_L) == Some(ImGuiKey::L),
        key_table(GLFW_KEY_M) == Some(ImGuiKey::M),
        key_table(GLFW_KEY_N) == Some(ImGuiKey::N),
        key_table(GLFW_KEY_O) == Some(ImGuiKey::O),
        key_table(GLFW_KEY_P) == Some(ImGuiKey::P),
        key_table(GLFW_KEY_Q) == Some(ImGuiKey::Q),
        key_table(GLFW_KEY_R) == Some(ImGuiKey::R),
        key_table(GLFW_KEY_S) == Some(ImGuiKey::S),
        key_table(GLFW_KEY_T) == Some(ImGuiKey::T),
        key_table(GLFW_KEY_U) == Some(ImGuiKey::U),
        key_table(GLFW_KEY_V) == Some(ImGuiKey::V),
        key_table(GLFW_KEY_W) == Some(ImGuiKey::W),
        key_table(GLFW_KEY_X) == Some(ImGuiKey::X),
        key_table(GLFW_KEY_Y) == Some(ImGuiKey::Y),
        key_table(GLFW_KEY_Z) == Some(ImGuiKey::Z),
        key_table(GLFW_KEY_F1) == Some(ImGuiKey::F1),
        key_table(GLFW_KEY_F2) == Some(ImGuiKey::F2),
        key_table(GLFW_KEY_F3) == Some(ImGuiKey::F3),
        key_table(GLFW_KEY_F4) == Some(ImGuiKey::F4),
        key_table(GLFW_KEY_F5) == Some(ImGuiKey::F5),
        key_table(GLFW_KEY_F6) == Some(ImGuiKey::F6),
        key_table(GLFW_KEY_F7) == Some(ImGuiKey::F7),
        key_table(GLFW_KEY_F8) == Some(ImGuiKey::F8),
        key_table(GLFW_KEY_F9) == Some(ImGuiKey::F9),
        key_table(GLFW_KEY_F10) == Some(ImGuiKey::F10),
        key_table(GLFW_KEY_F11) == Some(ImGuiKey::F11),
        key_table(GLFW_KEY_F12) == Some(ImGuiKey::F12),
        key_table(GLFW_KEY_APOSTROPHE) == Some(ImGuiKey::Apostrophe),
        key_table(GLFW_KEY_COMMA) == Some(ImGuiKey::Comma),
        key_table(GLFW_KEY_MINUS) == Some(ImGuiKey::Minus),
        key_table(GLFW_KEY_PERIOD) == Some(ImGuiKey::Period),
        key_table(GLFW_KEY_SLASH) == Some(ImGuiKey::Slash),
        key_table(GLFW_KEY_SEMICOLON) == Some(ImGuiKey::Semicolon),
        key_table(GLFW_KEY_EQUAL) == Some(ImGuiKey::Equal),
        key_table(GLFW_KEY_LEFT_BRACKET) == Some(ImGuiKey::LeftBracket),
        key_table(GLFW_KEY_BACKSLASH) == Some(ImGuiKey::Backslash),
        key_table(GLFW_KEY_RIGHT_BRACKET) == Some(ImGuiKey::RightBracket),
        key_table(GLFW_KEY_GRAVE_ACCENT) == Some(ImGuiKey::GraveAccent),
        key_table(GLFW_KEY_CAPS_LOCK) == Some(ImGuiKey::CapsLock),
        key_table(GLFW_KEY_SCROLL_LOCK) == Some(ImGuiKey::ScrollLock),
        key_table(GLFW_KEY_NUM_LOCK) == Some(ImGuiKey::NumLock),
        key_table(GLFW_KEY_PRINT_SCREEN) == Some(ImGuiKey::PrintScreen),
        key_table(GLFW_KEY_PAUSE) == Some(ImGuiKey::Pause),
        key_table(GLFW_KEY_KP_0) == Some(ImGuiKey::Keypad0),
        key_table(GLFW_KEY_KP_1) == Some(ImGuiKey::Keypad1),
        key_table(GLFW_KEY_KP_2) == Some(ImGuiKey::Keypad2),
        key_table(GLFW_KEY_KP_3) == Some(ImGuiKey::Keypad3),
        key_table(GLFW_KEY_KP_4) == Some(ImGuiKey::Keypad4),
        key_table(GLFW_KEY_KP_5) == Some(ImGuiKey::Keypad5),
        key_table(GLFW_KEY_KP_6) == Some(ImGuiKey::Keypad6),
        key_table(GLFW_KEY_KP_7) == Some(ImGuiKey::Keypad7),
        key_table(GLFW_KEY_KP_8) == Some(ImGuiKey::Keypad8),
        key_table(GLFW_KEY_KP_9) == Some(ImGuiKey::Keypad9),
        key_table(GLFW_KEY_KP_DECIMAL) == Some(ImGuiKey::KeypadDecimal),
        key_table(GLFW_KEY_KP_DIVIDE) == Some(ImGuiKey::KeypadDivide),
        key_table(GLFW_KEY_KP_MULTIPLY) == Some(ImGuiKey::KeypadMultiply),
        key_table(GLFW_KEY_KP_SUBTRACT) == Some(ImGuiKey::KeypadSubtract),
        key_table(GLFW_KEY_KP_ADD) == Some(ImGuiKey::KeypadAdd),
        key_table(GLFW_KEY_KP_ENTER) == Some(ImGuiKey::KeypadEnter),
        key_table(GLFW_KEY_KP_EQUAL) == Some(ImGuiKey::KeypadEqual),
        key_table(GLFW_KEY_UNKNOWN) is None,
        key_table(GLFW_KEY_WORLD_1) is None,
        key_table(GLFW_KEY_WORLD_2) is None,
        key_table(GLFW_KEY_F13) is None,
        key_table(GLFW_KEY_F14) is None,
        key_table(GLFW_KEY_F15) is None,
        key_table(GLFW_KEY_F16) is None,
        key_table(GLFW_KEY_F17) is None,
        key_table(GLFW_KEY_F18) is None,
        key_table(GLFW_KEY_F19) is None,
        key_table(GLFW_KEY_F20) is None,
        key_table(GLFW_KEY_F21) is None,
        key_table(GLFW_KEY_F22) is None,
        key_table(GLFW_KEY_F23) is None,
        key_table(GLFW_KEY_F24) is None,
        key_table(GLFW_KEY_F25) is None,
        0 <= code < 32 ==> key_table(code) is None,
        code > 348 ==> key_table(code) is None,
        code < -1 ==> key_table(code) is None,
{
}

/// Law: no two keys stand for the same GUI key.
pub proof fn lemma_key_table_injective(a: i32, b: i32)
    requires
        key_table(a) is Some,
        key_table(a) == key_table(b),
    ensures
        a == b,
{
}

/// What the renderer does with the mouse cursor.
#[derive(Clone, Copy, Debug, PartialEq, Eq, Structural)]
pub enum CursorMode {
    /// The cursor is shown and moves freely.
    Normal,
    /// The cursor is hidden and captured, for steering the camera.
    Disabled,
}

/// A window event, as far as the renderer's own handling reads it.
#[derive(Clone, Copy, Debug, PartialEq, Eq, Structural)]
pub enum WindowInput {
    /// The key with this GLFW key code went down.
    KeyPress(i32),
    /// Any other event.
    Other,
}

/// Whether the GUI has the input, and whether the next cursor position
/// starts a new mouse drag.
#[derive(Clone, Copy, Debug, PartialEq, Eq, Structural)]
pub struct InputState {
    pub ui_mode: bool,
    pub first_mouse: bool,
}

/// What to do about one window event.
#[derive(Clone, Copy, Debug, PartialEq, Eq, Structural)]
pub struct InputResponse {
    /// The cursor mode to switch to, if it changes.
    pub cursor: Option<CursorMode>,
    /// Whether the window should close.
    pub close: bool,
    /// Whether the event goes on to the GUI.
    pub to_ui: bool,
}

/// The state after `event`: space toggles the GUI mode, and leaving the GUI
/// mode ends any mouse drag.
pub open spec fn next_input_state(state: InputState, event: WindowInput) -> InputState {
    if event == WindowInput::KeyPress(KEY_SPACE) {
        if state.ui_mode {
            InputState { ui_mode: false, first_mouse: false }
        } else {
            InputState { ui_mode: true, first_mouse: state.first_mouse }
        }
    } else {
        state
    }
}

/// The response to `event` in `state`: space shows the cursor when entering
/// the GUI mode and captures it when leaving; escape closes the window; in
/// the GUI mode (after any toggle) the event goes on to the GUI.
pub open spec fn input_response(state: InputState, event: WindowInput) -> InputResponse {
    let next = next_input_state(state, event);
    InputResponse {
        cursor: if event == WindowInput::KeyPress(KEY_SPACE) {
            if next.ui_mode {
                Some(CursorMode::Normal)
            } else {
                Some(CursorMode::Disabled)
            }
        } else {
            None
        },
        close: event == WindowInput::KeyPress(KEY_ESCAPE),
        to_ui: next.ui_mode,
    }
}

/// Handles one window event: updates `state` and says what to do.
pub fn handle_window_input(state: &mut InputState, event: WindowInput) -> (response: InputResponse)
    ensures
        *final(state) == next_input_state(*old(state), event),
        response == input_response(*old(state), event),
        response.close == (event == WindowInput::KeyPress(KEY_ESCAPE)),
        final(state).ui_mode == (old(state).ui_mode != (event == WindowInput::KeyPress(KEY_SPACE))),
        response.to_ui == final(state).ui_mode,
{
    let mut cursor: Option<CursorMode> = None;
    let mut close = false;
    if let WindowInput::KeyPress(code) = event {
        if code == KEY_SPACE {
            state.ui_mode = !state.ui_mode;
            if state.ui_mode {
                cursor = Some(CursorMode::Normal);
            } else {
                cursor = Some(CursorMode::Disabled);
                state.first_mouse = false;
            }
        }
        if code == KEY_ESCAPE {
            close = true;
        }
    }
    InputResponse { cursor, close, to_ui: state.ui_mode }
}

/// Law: for every state and event, escape (code 256) closes the window,
/// whether or not the GUI has the input; space (code 32) flips the GUI mode
/// and sets the cursor to match it (shown in GUI mode, captured otherwise);
/// leaving the GUI mode ends any mouse drag, and nothing else changes the
/// state; the event goes on to the GUI exactly when the GUI mode holds
/// after it.
pub proof fn lemma_input_handling(state: InputState, event: WindowInput)
    ensures
        input_response(state, event).close <==> event == WindowInput::KeyPress(256),
        next_input_state(state, event).ui_mode == (state.ui_mode != (event
            == WindowInput::KeyPress(32))),
        event == WindowInput::KeyPress(32) && state.ui_mode ==> input_response(state, event).cursor
            == Some(CursorMode::Disabled) && !next_input_state(state, event).first_mouse,
        event == WindowInput::KeyPress(32) && !state.ui_mode ==> input_response(
            state,
            event,
        ).cursor == Some(CursorMode::Normal) && next_input_state(state, event).first_mouse
            == state.first_mouse,
        event != WindowInput::KeyPress(32) ==> input_response(state, event).cursor is None
            && next_input_state(state, event) == state,
        input_response(state, event).to_ui == (state.ui_mode != (event == WindowInput::KeyPress(
            32,
        ))),
{
}

} // verus!
