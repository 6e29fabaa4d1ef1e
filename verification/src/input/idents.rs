//! The identifier taxonomy: the closed set of control categories and, for
//! each category, the finite set of identifiers naming one concrete control.

use vstd::prelude::*;

verus! {

/// The closed set of control categories. Each category owns a disjoint
/// identifier space, enumerated by one of the identifier types below.
#[derive(Clone, Copy, Debug, PartialEq, Eq, Hash, Structural)]
pub enum Category {
    KeyboardButton,
    MouseButton,
    MouseAxis,
    GamepadButton,
    GamepadAxis,
}

/// One concrete control, tagged with its category: the key under which the
/// state store and the listener registry file everything.
#[derive(Clone, Copy, Debug, PartialEq, Eq, Hash, Structural)]
pub enum InputEnum {
    GamepadAxis(GamepadAxis),
    GamepadButton(GamepadButton),
    KeyboardButton(KeyboardButton),
    MouseButton(MouseButton),
    MouseAxis(MouseAxis),
}

impl InputEnum {
    /// The category that owns this identifier.
    pub open spec fn category(self) -> Category {
        match self {
            InputEnum::GamepadAxis(_) => Category::GamepadAxis,
            InputEnum::GamepadButton(_) => Category::GamepadButton,
            InputEnum::KeyboardButton(_) => Category::KeyboardButton,
            InputEnum::MouseButton(_) => Category::MouseButton,
            InputEnum::MouseAxis(_) => Category::MouseAxis,
        }
    }
}

/// Implemented by each identifier type. It ties the type to its category,
/// provides the tagged form used as the store key, and gives verified code
/// an equality test with a contract.
pub trait InputMarker: Clone + Copy + PartialEq + Eq + std::hash::Hash + Sized {
    /// The category whose identifier space this type enumerates.
    spec fn category_spec() -> Category;

    /// The tagged form of this identifier.
    spec fn into_spec(self) -> InputEnum;

    /// Tagging is injective: distinct identifiers stay distinct keys.
    proof fn lemma_into_injective(a: Self, b: Self)
        ensures
            a.into_spec() == b.into_spec() ==> a == b;

    /// The tag of every identifier names the type's own category.
    proof fn lemma_into_category(self)
        ensures
            self.into_spec().category() == Self::category_spec();

    /// Wraps the identifier in the tagged union.
    fn into(self) -> (r: InputEnum)
        ensures
            r == self.into_spec();

    /// Equality of identifiers, with its meaning stated for verified callers.
    fn eq_id(&self, other: &Self) -> (r: bool)
        ensures
            r == (*self == *other);
}

/// The axes of the mouse: absolute cursor position, per-frame motion delta, and per-frame wheel delta.
#[derive(Clone, Copy, Debug, PartialEq, Eq, Hash, Structural)]
pub enum MouseAxis {
    PositionX,
    PositionY,
    PositionDeltaX,
    PositionDeltaY,
    WheelDeltaX,
    WheelDeltaY,
}

impl InputMarker for MouseAxis {
    open spec fn category_spec() -> Category {
        Category::MouseAxis
    }

    open spec fn into_spec(self) -> InputEnum {
        InputEnum::MouseAxis(self)
    }

    proof fn lemma_into_injective(a: Self, b: Self) {
    }

    proof fn lemma_into_category(self) {
    }

    fn into(self) -> (r: InputEnum) {
        InputEnum::MouseAxis(self)
    }

    fn eq_id(&self, other: &Self) -> (r: bool) {
        *self == *other
    }
}

/// The analog axes of a gamepad. `Other` is the catch-all for hardware axes with no known mapping.
#[derive(Clone, Copy, Debug, PartialEq, Eq, Hash, Structural)]
pub enum GamepadAxis {
    LeftStickX,
    LeftStickY,
    LeftZ,
    RightStickX,
    RightStickY,
    RightZ,
    DPadX,
    DPadY,
    Other,
}

impl InputMarker for GamepadAxis {
    open spec fn category_spec() -> Category {
        Category::GamepadAxis
    }

    open spec fn into_spec(self) -> InputEnum {
        InputEnum::GamepadAxis(self)
    }

    proof fn lemma_into_injective(a: Self, b: Self) {
    }

    proof fn lemma_into_category(self) {
    }

    fn into(self) -> (r: InputEnum) {
        InputEnum::GamepadAxis(self)
    }

    fn eq_id(&self, other: &Self) -> (r: bool) {
        *self == *other
    }
}

/// The buttons of a mouse. `Other` carries the raw number of an unnamed extra button.
#[derive(Clone, Copy, Debug, PartialEq, Eq, PartialOrd, Ord, Hash, Structural)]
pub enum MouseButton {
    Left,
    Right,
    Middle,
    Back,
    Forward,
    Other(u16),
}

impl InputMarker for MouseButton {
    open spec fn category_spec() -> Category {
        Category::MouseButton
    }

    open spec fn into_spec(self) -> InputEnum {
        InputEnum::MouseButton(self)
    }

    proof fn lemma_into_injective(a: Self, b: Self) {
    }

    proof fn lemma_into_category(self) {
    }

    fn into(self) -> (r: InputEnum) {
        InputEnum::MouseButton(self)
    }

    fn eq_id(&self, other: &Self) -> (r: bool) {
        *self == *other
    }
}

/// The buttons of a gamepad. `Other` is the catch-all for hardware buttons with no known mapping.
#[derive(Clone, Copy, Debug, PartialEq, Eq, PartialOrd, Ord, Hash, Structural)]
pub enum GamepadButton {
    South,
    East,
    North,
    West,
    C,
    Z,
    LeftTrigger,
    LeftTrigger2,
    RightTrigger,
    RightTrigger2,
    Select,
    Start,
    Mode,
    LeftThumb,
    RightThumb,
    DPadUp,
    DPadDown,
    DPadLeft,
    DPadRight,
    Other,
}

impl InputMarker for GamepadButton {
    open spec fn category_spec() -> Category {
        Category::GamepadButton
    }

    open spec fn into_spec(self) -> InputEnum {
        InputEnum::GamepadButton(self)
    }

    proof fn lemma_into_injective(a: Self, b: Self) {
    }

    proof fn lemma_into_category(self) {
    }

    fn into(self) -> (r: InputEnum) {
        InputEnum::GamepadButton(self)
    }

    fn eq_id(&self, other: &Self) -> (r: bool) {
        *self == *other
    }
}

/// The keys of a keyboard, named by physical position.
#[derive(Clone, Copy, Debug, PartialEq, Eq, PartialOrd, Ord, Hash, Structural)]
pub enum KeyboardButton {
    Backquote,
    Backslash,
    BracketLeft,
    BracketRight,
    Comma,
    Digit0,
    Digit1,
    Digit2,
    Digit3,
    Digit4,
    Digit5,
    Digit6,
    Digit7,
    Digit8,
    Digit9,
    Equal,
    IntlBackslash,
    IntlRo,
    IntlYen,
    KeyA,
    KeyB,
    KeyC,
    KeyD,
    KeyE,
    KeyF,
    KeyG,
    KeyH,
    KeyI,
    KeyJ,
    KeyK,
    KeyL,
    KeyM,
    KeyN,
    KeyO,
    KeyP,
    KeyQ,
    KeyR,
    KeyS,
    KeyT,
    KeyU,
    KeyV,
    KeyW,
    KeyX,
    KeyY,
    KeyZ,
    Minus,
    Period,
    Quote,
    Semicolon,
    Slash,
    AltLeft,
    AltRight,
    Backspace,
    CapsLock,
    ContextMenu,
    ControlLeft,
    ControlRight,
    Enter,
    SuperLeft,
    SuperRight,
    ShiftLeft,
    ShiftRight,
    Space,
    Tab,
    Convert,
    KanaMode,
    Lang1,
    Lang2,
    Lang3,
    Lang4,
    Lang5,
    NonConvert,
    Delete,
    End,
    Help,
    Home,
    Insert,
    PageDown,
    PageUp,
    ArrowDown,
    ArrowLeft,
    ArrowRight,
    ArrowUp,
    NumLock,
    Numpad0,
    Numpad1,
    Numpad2,
    Numpad3,
    Numpad4,
    Numpad5,
    Numpad6,
    Numpad7,
    Numpad8,
    Numpad9,
    NumpadAdd,
    NumpadBackspace,
    NumpadClear,
    NumpadClearEntry,
    NumpadComma,
    NumpadDecimal,
    NumpadDivide,
    NumpadEnter,
    NumpadEqual,
    NumpadHash,
    NumpadMemoryAdd,
    NumpadMemoryClear,
    NumpadMemoryRecall,
    NumpadMemoryStore,
    NumpadMemorySubtract,
    NumpadMultiply,
    NumpadParenLeft,
    NumpadParenRight,
    NumpadStar,
    NumpadSubtract,
    Escape,
    Fn,
    FnLock,
    PrintScreen,
    ScrollLock,
    Pause,
    BrowserBack,
    BrowserFavorites,
    BrowserForward,
    BrowserHome,
    BrowserRefresh,
    BrowserSearch,
    BrowserStop,
    Eject,
    LaunchApp1,
    LaunchApp2,
    LaunchMail,
    MediaPlayPause,
    MediaSelect,
    MediaStop,
    MediaTrackNext,
    MediaTrackPrevious,
    Power,
    Sleep,
    AudioVolumeDown,
    AudioVolumeMute,
    AudioVolumeUp,
    WakeUp,
    Meta,
    Hyper,
    Turbo,
    Abort,
    Resume,
    Suspend,
    Again,
    Copy,
    Cut,
    Find,
    Open,
    Paste,
    Props,
    Select,
    Undo,
    Hiragana,
    Katakana,
    F1,
    F2,
    F3,
    F4,
    F5,
    F6,
    F7,
    F8,
    F9,
    F10,
    F11,
    F12,
    F13,
    F14,
    F15,
    F16,
    F17,
    F18,
    F19,
    F20,
    F21,
    F22,
    F23,
    F24,
    F25,
    F26,
    F27,
    F28,
    F29,
    F30,
    F31,
    F32,
    F33,
    F34,
    F35,
}

impl InputMarker for KeyboardButton {
    open spec fn category_spec() -> Category {
        Category::KeyboardButton
    }

    open spec fn into_spec(self) -> InputEnum {
        InputEnum::KeyboardButton(self)
    }

    proof fn lemma_into_injective(a: Self, b: Self) {
    }

    proof fn lemma_into_category(self) {
    }

    fn into(self) -> (r: InputEnum) {
        InputEnum::KeyboardButton(self)
    }

    fn eq_id(&self, other: &Self) -> (r: bool) {
        *self == *other
    }
}

} // verus!
