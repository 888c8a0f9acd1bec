//! Application events, the handler that receives them, and the dispatch of
//! the native library's callbacks to that handler.
use vstd::prelude::*;

pub mod ffi;

verus! {

/// The kind of an input or window event.
#[derive(Copy, Clone, Debug, PartialEq, Eq, Structural)]
pub enum SAppEventType {
    Invalid,
    KeyDown,
    KeyUp,
    Char,
    MouseDown,
    MouseUp,
    MouseScroll,
    MouseMove,
    MouseEnter,
    MouseLeave,
    TouchesBegan,
    TouchesMoved,
    TouchesEnded,
    TouchesCancelled,
    Resized,
    Iconified,
    Restored,
    Suspended,
    Resumed,
    UpdateCursor,
    QuitRequested,
}

impl SAppEventType {
    /// The value that the native library uses for this variant.
    pub open spec fn spec_raw(&self) -> i32 {
        match self {
            SAppEventType::Invalid => 0,
            SAppEventType::KeyDown => 1,
            SAppEventType::KeyUp => 2,
            SAppEventType::Char => 3,
            SAppEventType::MouseDown => 4,
            SAppEventType::MouseUp => 5,
            SAppEventType::MouseScroll => 6,
            SAppEventType::MouseMove => 7,
            SAppEventType::MouseEnter => 8,
            SAppEventType::MouseLeave => 9,
            SAppEventType::TouchesBegan => 10,
            SAppEventType::TouchesMoved => 11,
            SAppEventType::TouchesEnded => 12,
            SAppEventType::TouchesCancelled => 13,
            SAppEventType::Resized => 14,
            SAppEventType::Iconified => 15,
            SAppEventType::Restored => 16,
            SAppEventType::Suspended => 17,
            SAppEventType::Resumed => 18,
            SAppEventType::UpdateCursor => 19,
            SAppEventType::QuitRequested => 20,
        }
    }

    /// Returns the value that the native library uses for this variant.
    #[verifier::when_used_as_spec(spec_raw)]
    pub fn raw(&self) -> (r: i32)
        ensures
            r == self.spec_raw(),
    {
        match self {
            SAppEventType::Invalid => 0,
            SAppEventType::KeyDown => 1,
            SAppEventType::KeyUp => 2,
            SAppEventType::Char => 3,
            SAppEventType::MouseDown => 4,
            SAppEventType::MouseUp => 5,
            SAppEventType::MouseScroll => 6,
            SAppEventType::MouseMove => 7,
            SAppEventType::MouseEnter => 8,
            SAppEventType::MouseLeave => 9,
            SAppEventType::TouchesBegan => 10,
            SAppEventType::TouchesMoved => 11,
            SAppEventType::TouchesEnded => 12,
            SAppEventType::TouchesCancelled => 13,
            SAppEventType::Resized => 14,
            SAppEventType::Iconified => 15,
            SAppEventType::Restored => 16,
            SAppEventType::Suspended => 17,
            SAppEventType::Resumed => 18,
            SAppEventType::UpdateCursor => 19,
            SAppEventType::QuitRequested => 20,
        }
    }

    /// Returns the variant that the native value `v` stands for, if any.
    pub fn from_raw(v: i32) -> (r: Option<SAppEventType>)
        ensures
            match r {
                Some(e) => e.spec_raw() == v,
                None => forall|e: SAppEventType| e.spec_raw() != v,
            },
    {
        match v {
            0 => Some(SAppEventType::Invalid),
            1 => Some(SAppEventType::KeyDown),
            2 => Some(SAppEventType::KeyUp),
            3 => Some(SAppEventType::Char),
            4 => Some(SAppEventType::MouseDown),
            5 => Some(SAppEventType::MouseUp),
            6 => Some(SAppEventType::MouseScroll),
            7 => Some(SAppEventType::MouseMove),
            8 => Some(SAppEventType::MouseEnter),
            9 => Some(SAppEventType::MouseLeave),
            10 => Some(SAppEventType::TouchesBegan),
            11 => Some(SAppEventType::TouchesMoved),
            12 => Some(SAppEventType::TouchesEnded),
            13 => Some(SAppEventType::TouchesCancelled),
            14 => Some(SAppEventType::Resized),
            15 => Some(SAppEventType::Iconified),
            16 => Some(SAppEventType::Restored),
            17 => Some(SAppEventType::Suspended),
            18 => Some(SAppEventType::Resumed),
            19 => Some(SAppEventType::UpdateCursor),
            20 => Some(SAppEventType::QuitRequested),
            _ => None,
        }
    }
}

/// A physical key, numbered as the application library numbers it.
#[derive(Copy, Clone, Debug, PartialEq, Eq, Structural)]
pub enum SAppKeycode {
    KeyInvalid,
    KeySpace,
    KeyApostrophe,
    KeyComma,
    KeyMinus,
    KeyPeriod,
    KeySlash,
    Key0,
    Key1,
    Key2,
    Key3,
    Key4,
    Key5,
    Key6,
    Key7,
    Key8,
    Key9,
    KeySemicolon,
    KeyEqual,
    KeyA,
    KeyB,
    KeyC,
    KeyD,
    KeyE,
    KeyF,
    KeyG,
    KeyH,
    KeyI,
    KeyJ,
    KeyK,
    KeyL,
    KeyM,
    KeyN,
    KeyO,
    KeyP,
    KeyQ,
    KeyR,
    KeyS,
    KeyT,
    KeyU,
    KeyV,
    KeyW,
    KeyX,
    KeyY,
    KeyZ,
    KeyLeftBracket,
    KeyBackslash,
    KeyRightBracket,
    KeyGraveAccent,
    KeyWorld1,
    KeyWorld2,
    KeyEscape,
    KeyEnter,
    KeyTab,
    KeyBackspace,
    KeyInsert,
    KeyDelete,
    KeyRight,
    KeyLeft,
    KeyDown,
    KeyUp,
    KeyPageUp,
    KeyPageDown,
    KeyHome,
    KeyEnd,
    KeyCapsLock,
    KeyScrollLock,
    KeyNumLock,
    KeyPrintScreen,
    KeyPause,
    KeyF1,
    KeyF2,
    KeyF3,
    KeyF4,
    KeyF5,
    KeyF6,
    KeyF7,
    KeyF8,
    KeyF9,
    KeyF10,
    KeyF11,
    KeyF12,
    KeyF13,
    KeyF14,
    KeyF15,
    KeyF16,
    KeyF17,
    KeyF18,
    KeyF19,
    KeyF20,
    KeyF21,
    KeyF22,
    KeyF23,
    KeyF24,
    KeyF25,
    KeyKP0,
    KeyKP1,
    KeyKP2,
    KeyKP3,
    KeyKP4,
    KeyKP5,
    KeyKP6,
    KeyKP7,
    KeyKP8,
    KeyKP9,
    KeyKPDecimal,
    KeyKPDivide,
    KeyKPMultiply,
    KeyKPSubtract,
    KeyKPAdd,
    KeyKPEnter,
    KeyKPEqual,
    KeyLeftShift,
    KeyLeftControl,
    KeyLeftAlt,
    KeyLeftSuper,
    KeyRightShift,
    KeyRightControl,
    KeyRightAlt,
    KeyRightSuper,
    KeyMenu,
}

impl SAppKeycode {
    /// The value that the native library uses for this variant.
    pub open spec fn spec_raw(&self) -> i32 {
        match self {
            SAppKeycode::KeyInvalid => 0,
            SAppKeycode::KeySpace => 32,
            SAppKeycode::KeyApostrophe => 39,
            SAppKeycode::KeyComma => 44,
            SAppKeycode::KeyMinus => 45,
            SAppKeycode::KeyPeriod => 46,
            SAppKeycode::KeySlash => 47,
            SAppKeycode::Key0 => 48,
            SAppKeycode::Key1 => 49,
            SAppKeycode::Key2 => 50,
            SAppKeycode::Key3 => 51,
            SAppKeycode::Key4 => 52,
            SAppKeycode::Key5 => 53,
            SAppKeycode::Key6 => 54,
            SAppKeycode::Key7 => 55,
            SAppKeycode::Key8 => 56,
            SAppKeycode::Key9 => 57,
            SAppKeycode::KeySemicolon => 59,
            SAppKeycode::KeyEqual => 61,
            SAppKeycode::KeyA => 65,
            SAppKeycode::KeyB => 66,
            SAppKeycode::KeyC => 67,
            SAppKeycode::KeyD => 68,
            SAppKeycode::KeyE => 69,
            SAppKeycode::KeyF => 70,
            SAppKeycode::KeyG => 71,
            SAppKeycode::KeyH => 72,
            SAppKeycode::KeyI => 73,
            SAppKeycode::KeyJ => 74,
            SAppKeycode::KeyK => 75,
            SAppKeycode::KeyL => 76,
            SAppKeycode::KeyM => 77,
            SAppKeycode::KeyN => 78,
            SAppKeycode::KeyO => 79,
            SAppKeycode::KeyP => 80,
            SAppKeycode::KeyQ => 81,
            SAppKeycode::KeyR => 82,
            SAppKeycode::KeyS => 83,
            SAppKeycode::KeyT => 84,
            SAppKeycode::KeyU => 85,
            SAppKeycode::KeyV => 86,
            SAppKeycode::KeyW => 87,
            SAppKeycode::KeyX => 88,
            SAppKeycode::KeyY => 89,
            SAppKeycode::KeyZ => 90,
            SAppKeycode::KeyLeftBracket => 91,
            SAppKeycode::KeyBackslash => 92,
            SAppKeycode::KeyRightBracket => 93,
            SAppKeycode::KeyGraveAccent => 96,
            SAppKeycode::KeyWorld1 => 161,
            SAppKeycode::KeyWorld2 => 162,
            SAppKeycode::KeyEscape => 256,
            SAppKeycode::KeyEnter => 257,
            SAppKeycode::KeyTab => 258,
            SAppKeycode::KeyBackspace => 259,
            SAppKeycode::KeyInsert => 260,
            SAppKeycode::KeyDelete => 261,
            SAppKeycode::KeyRight => 262,
            SAppKeycode::KeyLeft => 263,
            SAppKeycode::KeyDown => 264,
            SAppKeycode::KeyUp => 265,
            SAppKeycode::KeyPageUp => 266,
            SAppKeycode::KeyPageDown => 267,
            SAppKeycode::KeyHome => 268,
            SAppKeycode::KeyEnd => 269,
            SAppKeycode::KeyCapsLock => 280,
            SAppKeycode::KeyScrollLock => 281,
            SAppKeycode::KeyNumLock => 282,
            SAppKeycode::KeyPrintScreen => 283,
            SAppKeycode::KeyPause => 284,
            SAppKeycode::KeyF1 => 290,
            SAppKeycode::KeyF2 => 291,
            SAppKeycode::KeyF3 => 292,
            SAppKeycode::KeyF4 => 293,
            SAppKeycode::KeyF5 => 294,
            SAppKeycode::KeyF6 => 295,
            SAppKeycode::KeyF7 => 296,
            SAppKeycode::KeyF8 => 297,
            SAppKeycode::KeyF9 => 298,
            SAppKeycode::KeyF10 => 299,
            SAppKeycode::KeyF11 => 300,
            SAppKeycode::KeyF12 => 301,
            SAppKeycode::KeyF13 => 302,
            SAppKeycode::KeyF14 => 303,
            SAppKeycode::KeyF15 => 304,
            SAppKeycode::KeyF16 => 305,
            SAppKeycode::KeyF17 => 306,
            SAppKeycode::KeyF18 => 307,
            SAppKeycode::KeyF19 => 308,
            SAppKeycode::KeyF20 => 309,
            SAppKeycode::KeyF21 => 310,
            SAppKeycode::KeyF22 => 311,
            SAppKeycode::KeyF23 => 312,
            SAppKeycode::KeyF24 => 313,
            SAppKeycode::KeyF25 => 314,
            SAppKeycode::KeyKP0 => 320,
            SAppKeycode::KeyKP1 => 321,
            SAppKeycode::KeyKP2 => 322,
            SAppKeycode::KeyKP3 => 323,
            SAppKeycode::KeyKP4 => 324,
            SAppKeycode::KeyKP5 => 325,
            SAppKeycode::KeyKP6 => 326,
            SAppKeycode::KeyKP7 => 327,
            SAppKeycode::KeyKP8 => 328,
            SAppKeycode::KeyKP9 => 329,
            SAppKeycode::KeyKPDecimal => 330,
            SAppKeycode::KeyKPDivide => 331,
            SAppKeycode::KeyKPMultiply => 332,
            SAppKeycode::KeyKPSubtract => 333,
            SAppKeycode::KeyKPAdd => 334,
            SAppKeycode::KeyKPEnter => 335,
            SAppKeycode::KeyKPEqual => 336,
            SAppKeycode::KeyLeftShift => 340,
            SAppKeycode::KeyLeftControl => 341,
            SAppKeycode::KeyLeftAlt => 342,
            SAppKeycode::KeyLeftSuper => 343,
            SAppKeycode::KeyRightShift => 344,
            SAppKeycode::KeyRightControl => 345,
            SAppKeycode::KeyRightAlt => 346,
            SAppKeycode::KeyRightSuper => 347,
            SAppKeycode::KeyMenu => 348,
        }
    }

    /// Returns the value that the native library uses for this variant.
    #[verifier::when_used_as_spec(spec_raw)]
    pub fn raw(&self) -> (r: i32)
        ensures
            r == self.spec_raw(),
    {
        match self {
            SAppKeycode::KeyInvalid => 0,
            SAppKeycode::KeySpace => 32,
            SAppKeycode::KeyApostrophe => 39,
            SAppKeycode::KeyComma => 44,
            SAppKeycode::KeyMinus => 45,
            SAppKeycode::KeyPeriod => 46,
            SAppKeycode::KeySlash => 47,
            SAppKeycode::Key0 => 48,
            SAppKeycode::Key1 => 49,
            SAppKeycode::Key2 => 50,
            SAppKeycode::Key3 => 51,
            SAppKeycode::Key4 => 52,
            SAppKeycode::Key5 => 53,
            SAppKeycode::Key6 => 54,
            SAppKeycode::Key7 => 55,
            SAppKeycode::Key8 => 56,
            SAppKeycode::Key9 => 57,
            SAppKeycode::KeySemicolon => 59,
            SAppKeycode::KeyEqual => 61,
            SAppKeycode::KeyA => 65,
            SAppKeycode::KeyB => 66,
            SAppKeycode::KeyC => 67,
            SAppKeycode::KeyD => 68,
            SAppKeycode::KeyE => 69,
            SAppKeycode::KeyF => 70,
            SAppKeycode::KeyG => 71,
            SAppKeycode::KeyH => 72,
            SAppKeycode::KeyI => 73,
            SAppKeycode::KeyJ => 74,
            SAppKeycode::KeyK => 75,
            SAppKeycode::KeyL => 76,
            SAppKeycode::KeyM => 77,
            SAppKeycode::KeyN => 78,
            SAppKeycode::KeyO => 79,
            SAppKeycode::KeyP => 80,
            SAppKeycode::KeyQ => 81,
            SAppKeycode::KeyR => 82,
            SAppKeycode::KeyS => 83,
            SAppKeycode::KeyT => 84,
            SAppKeycode::KeyU => 85,
            SAppKeycode::KeyV => 86,
            SAppKeycode::KeyW => 87,
            SAppKeycode::KeyX => 88,
            SAppKeycode::KeyY => 89,
            SAppKeycode::KeyZ => 90,
            SAppKeycode::KeyLeftBracket => 91,
            SAppKeycode::KeyBackslash => 92,
            SAppKeycode::KeyRightBracket => 93,
            SAppKeycode::KeyGraveAccent => 96,
            SAppKeycode::KeyWorld1 => 161,
            SAppKeycode::KeyWorld2 => 162,
            SAppKeycode::KeyEscape => 256,
            SAppKeycode::KeyEnter => 257,
            SAppKeycode::KeyTab => 258,
            SAppKeycode::KeyBackspace => 259,
            SAppKeycode::KeyInsert => 260,
            SAppKeycode::KeyDelete => 261,
            SAppKeycode::KeyRight => 262,
            SAppKeycode::KeyLeft => 263,
            SAppKeycode::KeyDown => 264,
            SAppKeycode::KeyUp => 265,
            SAppKeycode::KeyPageUp => 266,
            SAppKeycode::KeyPageDown => 267,
            SAppKeycode::KeyHome => 268,
            SAppKeycode::KeyEnd => 269,
            SAppKeycode::KeyCapsLock => 280,
            SAppKeycode::KeyScrollLock => 281,
            SAppKeycode::KeyNumLock => 282,
            SAppKeycode::KeyPrintScreen => 283,
            SAppKeycode::KeyPause => 284,
            SAppKeycode::KeyF1 => 290,
            SAppKeycode::KeyF2 => 291,
            SAppKeycode::KeyF3 => 292,
            SAppKeycode::KeyF4 => 293,
            SAppKeycode::KeyF5 => 294,
            SAppKeycode::KeyF6 => 295,
            SAppKeycode::KeyF7 => 296,
            SAppKeycode::KeyF8 => 297,
            SAppKeycode::KeyF9 => 298,
            SAppKeycode::KeyF10 => 299,
            SAppKeycode::KeyF11 => 300,
            SAppKeycode::KeyF12 => 301,
            SAppKeycode::KeyF13 => 302,
            SAppKeycode::KeyF14 => 303,
            SAppKeycode::KeyF15 => 304,
            SAppKeycode::KeyF16 => 305,
            SAppKeycode::KeyF17 => 306,
            SAppKeycode::KeyF18 => 307,
            SAppKeycode::KeyF19 => 308,
            SAppKeycode::KeyF20 => 309,
            SAppKeycode::KeyF21 => 310,
            SAppKeycode::KeyF22 => 311,
            SAppKeycode::KeyF23 => 312,
            SAppKeycode::KeyF24 => 313,
            SAppKeycode::KeyF25 => 314,
            SAppKeycode::KeyKP0 => 320,
            SAppKeycode::KeyKP1 => 321,
            SAppKeycode::KeyKP2 => 322,
            SAppKeycode::KeyKP3 => 323,
            SAppKeycode::KeyKP4 => 324,
            SAppKeycode::KeyKP5 => 325,
            SAppKeycode::KeyKP6 => 326,
            SAppKeycode::KeyKP7 => 327,
            SAppKeycode::KeyKP8 => 328,
            SAppKeycode::KeyKP9 => 329,
            SAppKeycode::KeyKPDecimal => 330,
            SAppKeycode::KeyKPDivide => 331,
            SAppKeycode::KeyKPMultiply => 332,
            SAppKeycode::KeyKPSubtract => 333,
            SAppKeycode::KeyKPAdd => 334,
            SAppKeycode::KeyKPEnter => 335,
            SAppKeycode::KeyKPEqual => 336,
            SAppKeycode::KeyLeftShift => 340,
            SAppKeycode::KeyLeftControl => 341,
            SAppKeycode::KeyLeftAlt => 342,
            SAppKeycode::KeyLeftSuper => 343,
            SAppKeycode::KeyRightShift => 344,
            SAppKeycode::KeyRightControl => 345,
            SAppKeycode::KeyRightAlt => 346,
            SAppKeycode::KeyRightSuper => 347,
            SAppKeycode::KeyMenu => 348,
        }
    }

    /// Returns the variant that the native value `v` stands for, if any.
    pub fn from_raw(v: i32) -> (r: Option<SAppKeycode>)
        ensures
            match r {
                Some(e) => e.spec_raw() == v,
                None => forall|e: SAppKeycode| e.spec_raw() != v,
            },
    {
        match v {
            0 => Some(SAppKeycode::KeyInvalid),
            32 => Some(SAppKeycode::KeySpace),
            39 => Some(SAppKeycode::KeyApostrophe),
            44 => Some(SAppKeycode::KeyComma),
            45 => Some(SAppKeycode::KeyMinus),
            46 => Some(SAppKeycode::KeyPeriod),
            47 => Some(SAppKeycode::KeySlash),
            48 => Some(SAppKeycode::Key0),
            49 => Some(SAppKeycode::Key1),
            50 => Some(SAppKeycode::Key2),
            51 => Some(SAppKeycode::Key3),
            52 => Some(SAppKeycode::Key4),
            53 => Some(SAppKeycode::Key5),
            54 => Some(SAppKeycode::Key6),
            55 => Some(SAppKeycode::Key7),
            56 => Some(SAppKeycode::Key8),
            57 => Some(SAppKeycode::Key9),
            59 => Some(SAppKeycode::KeySemicolon),
            61 => Some(SAppKeycode::KeyEqual),
            65 => Some(SAppKeycode::KeyA),
            66 => Some(SAppKeycode::KeyB),
            67 => Some(SAppKeycode::KeyC),
            68 => Some(SAppKeycode::KeyD),
            69 => Some(SAppKeycode::KeyE),
            70 => Some(SAppKeycode::KeyF),
            71 => Some(SAppKeycode::KeyG),
            72 => Some(SAppKeycode::KeyH),
            73 => Some(SAppKeycode::KeyI),
            74 => Some(SAppKeycode::KeyJ),
            75 => Some(SAppKeycode::KeyK),
            76 => Some(SAppKeycode::KeyL),
            77 => Some(SAppKeycode::KeyM),
            78 => Some(SAppKeycode::KeyN),
            79 => Some(SAppKeycode::KeyO),
            80 => Some(SAppKeycode::KeyP),
            81 => Some(SAppKeycode::KeyQ),
            82 => Some(SAppKeycode::KeyR),
            83 => Some(SAppKeycode::KeyS),
            84 => Some(SAppKeycode::KeyT),
            85 => Some(SAppKeycode::KeyU),
            86 => Some(SAppKeycode::KeyV),
            87 => Some(SAppKeycode::KeyW),
            88 => Some(SAppKeycode::KeyX),
            89 => Some(SAppKeycode::KeyY),
            90 => Some(SAppKeycode::KeyZ),
            91 => Some(SAppKeycode::KeyLeftBracket),
            92 => Some(SAppKeycode::KeyBackslash),
            93 => Some(SAppKeycode::KeyRightBracket),
            96 => Some(SAppKeycode::KeyGraveAccent),
            161 => Some(SAppKeycode::KeyWorld1),
            162 => Some(SAppKeycode::KeyWorld2),
            256 => Some(SAppKeycode::KeyEscape),
            257 => Some(SAppKeycode::KeyEnter),
            258 => Some(SAppKeycode::KeyTab),
            259 => Some(SAppKeycode::KeyBackspace),
            260 => Some(SAppKeycode::KeyInsert),
            261 => Some(SAppKeycode::KeyDelete),
            262 => Some(SAppKeycode::KeyRight),
            263 => Some(SAppKeycode::KeyLeft),
            264 => Some(SAppKeycode::KeyDown),
            265 => Some(SAppKeycode::KeyUp),
            266 => Some(SAppKeycode::KeyPageUp),
            267 => Some(SAppKeycode::KeyPageDown),
            268 => Some(SAppKeycode::KeyHome),
            269 => Some(SAppKeycode::KeyEnd),
            280 => Some(SAppKeycode::KeyCapsLock),
            281 => Some(SAppKeycode::KeyScrollLock),
            282 => Some(SAppKeycode::KeyNumLock),
            283 => Some(SAppKeycode::KeyPrintScreen),
            284 => Some(SAppKeycode::KeyPause),
            290 => Some(SAppKeycode::KeyF1),
            291 => Some(SAppKeycode::KeyF2),
            292 => Some(SAppKeycode::KeyF3),
            293 => Some(SAppKeycode::KeyF4),
            294 => Some(SAppKeycode::KeyF5),
            295 => Some(SAppKeycode::KeyF6),
            296 => Some(SAppKeycode::KeyF7),
            297 => Some(SAppKeycode::KeyF8),
            298 => Some(SAppKeycode::KeyF9),
            299 => Some(SAppKeycode::KeyF10),
            300 => Some(SAppKeycode::KeyF11),
            301 => Some(SAppKeycode::KeyF12),
            302 => Some(SAppKeycode::KeyF13),
            303 => Some(SAppKeycode::KeyF14),
            304 => Some(SAppKeycode::KeyF15),
            305 => Some(SAppKeycode::KeyF16),
            306 => Some(SAppKeycode::KeyF17),
            307 => Some(SAppKeycode::KeyF18),
            308 => Some(SAppKeycode::KeyF19),
            309 => Some(SAppKeycode::KeyF20),
            310 => Some(SAppKeycode::KeyF21),
            311 => Some(SAppKeycode::KeyF22),
            312 => Some(SAppKeycode::KeyF23),
            313 => Some(SAppKeycode::KeyF24),
            314 => Some(SAppKeycode::KeyF25),
            320 => Some(SAppKeycode::KeyKP0),
            321 => Some(SAppKeycode::KeyKP1),
            322 => Some(SAppKeycode::KeyKP2),
            323 => Some(SAppKeycode::KeyKP3),
            324 => Some(SAppKeycode::KeyKP4),
            325 => Some(SAppKeycode::KeyKP5),
            326 => Some(SAppKeycode::KeyKP6),
            327 => Some(SAppKeycode::KeyKP7),
            328 => Some(SAppKeycode::KeyKP8),
            329 => Some(SAppKeycode::KeyKP9),
            330 => Some(SAppKeycode::KeyKPDecimal),
            331 => Some(SAppKeycode::KeyKPDivide),
            332 => Some(SAppKeycode::KeyKPMultiply),
            333 => Some(SAppKeycode::KeyKPSubtract),
            334 => Some(SAppKeycode::KeyKPAdd),
            335 => Some(SAppKeycode::KeyKPEnter),
            336 => Some(SAppKeycode::KeyKPEqual),
            340 => Some(SAppKeycode::KeyLeftShift),
            341 => Some(SAppKeycode::KeyLeftControl),
            342 => Some(SAppKeycode::KeyLeftAlt),
            343 => Some(SAppKeycode::KeyLeftSuper),
            344 => Some(SAppKeycode::KeyRightShift),
            345 => Some(SAppKeycode::KeyRightControl),
            346 => Some(SAppKeycode::KeyRightAlt),
            347 => Some(SAppKeycode::KeyRightSuper),
            348 => Some(SAppKeycode::KeyMenu),
            _ => None,
        }
    }
}

/// A mouse button.
#[derive(Copy, Clone, Debug, PartialEq, Eq, Structural)]
pub enum SAppMouseButton {
    Invalid,
    Left,
    Right,
    Middle,
}

impl SAppMouseButton {
    /// The value that the native library uses for this variant.
    pub open spec fn spec_raw(&self) -> i32 {
        match self {
            SAppMouseButton::Invalid => -1i32,
            SAppMouseButton::Left => 0,
            SAppMouseButton::Right => 1,
            SAppMouseButton::Middle => 2,
        }
    }

    /// Returns the value that the native library uses for this variant.
    #[verifier::when_used_as_spec(spec_raw)]
    pub fn raw(&self) -> (r: i32)
        ensures
            r == self.spec_raw(),
    {
        match self {
            SAppMouseButton::Invalid => -1i32,
            SAppMouseButton::Left => 0,
            SAppMouseButton::Right => 1,
            SAppMouseButton::Middle => 2,
        }
    }

    /// Returns the variant that the native value `v` stands for, if any.
    pub fn from_raw(v: i32) -> (r: Option<SAppMouseButton>)
        ensures
            match r {
                Some(e) => e.spec_raw() == v,
                None => forall|e: SAppMouseButton| e.spec_raw() != v,
            },
    {
        match v {
            -1 => Some(SAppMouseButton::Invalid),
            0 => Some(SAppMouseButton::Left),
            1 => Some(SAppMouseButton::Right),
            2 => Some(SAppMouseButton::Middle),
            _ => None,
        }
    }
}

/// The modifier keys held during an event, as a set of bits.
#[derive(Copy, Clone, Default, Debug, PartialEq, Eq, Structural)]
pub struct SAppModifier {
    pub bits: u32,
}

impl SAppModifier {
    pub const SHIFT: u32 = 0x01;
    pub const CONTROL: u32 = 0x02;
    pub const ALT: u32 = 0x04;
    pub const SUPER: u32 = 0x08;

    /// Returns the set with exactly the given bits.
    pub fn from_bits(bits: u32) -> (r: SAppModifier)
        ensures
            r.bits == bits,
    {
        SAppModifier { bits }
    }
}

/// One touch point of a touch event. Positions are the bit patterns of
/// single-precision numbers.
#[derive(Copy, Clone, Default, Debug, PartialEq, Eq, Structural)]
pub struct SAppTouchPoint {
    pub identifier: usize,
    pub pos_x: u32,
    pub pos_y: u32,
    pub changed: bool,
}

/// An input or window event. Positions and scroll amounts are the bit
/// patterns of single-precision numbers.
#[derive(Copy, Clone, Debug, PartialEq, Eq)]
pub struct SAppEvent {
    pub frame_count: u64,
    pub event_type: SAppEventType,
    pub key_code: SAppKeycode,
    pub char_code: u32,
    pub key_repeat: bool,
    pub modifiers: SAppModifier,
    pub mouse_button: SAppMouseButton,
    pub mouse_x: u32,
    pub mouse_y: u32,
    pub scroll_x: u32,
    pub scroll_y: u32,
    pub num_touches: i32,
    pub touches: [SAppTouchPoint; 8],
    pub window_width: i32,
    pub window_height: i32,
    pub framebuffer_width: i32,
    pub framebuffer_height: i32,
}

/// A range of memory that the native library reads: its address, zero for
/// none, and its size in bytes.
#[derive(Copy, Clone, Default, Debug, PartialEq, Eq, Structural)]
pub struct SAppRange {
    pub ptr: usize,
    pub size: usize,
}

/// One image of a window icon.
#[derive(Copy, Clone, Default, Debug, PartialEq, Eq, Structural)]
pub struct SAppImageDesc {
    pub width: i32,
    pub height: i32,
    pub pixels: SAppRange,
}

/// The window icon: the library's own, or up to eight images.
#[derive(Copy, Clone, Debug, PartialEq, Eq)]
pub struct SAppIconDesc {
    pub sokol_default: bool,
    pub images: [SAppImageDesc; 8],
}

impl Default for SAppIconDesc {
    fn default() -> (r: Self)
        ensures
            r.sokol_default,
            forall|i: int|
                0 <= i < 8 ==> #[trigger] r.images@[i] == (SAppImageDesc {
                    width: 0,
                    height: 0,
                    pixels: SAppRange { ptr: 0, size: 0 },
                }),
    {
        let blank = SAppImageDesc { width: 0, height: 0, pixels: SAppRange { ptr: 0, size: 0 } };
        SAppIconDesc { sokol_default: true, images: [blank; 8] }
    }
}

/// The application's window and platform settings.
#[derive(Default, Debug)]
pub struct SAppDesc {
    pub width: i32,
    pub height: i32,
    pub sample_count: i32,
    pub swap_interval: i32,
    pub high_dpi: bool,
    pub fullscreen: bool,
    pub alpha: bool,
    pub window_title: String,
    pub enable_clipboard: bool,
    pub clipboard_size: i32,
    pub enable_dragndrop: bool,
    pub max_dropped_files: i32,
    pub max_dropped_file_path_length: i32,
    pub icon: SAppIconDesc,
    pub gl_force_gles2: bool,
    pub gl_major_version: i32,
    pub gl_minor_version: i32,
    pub win32_console_utf8: bool,
    pub win32_console_create: bool,
    pub win32_console_attach: bool,
    pub html5_canvas_name: String,
    pub html5_canvas_resize: bool,
    pub html5_preserve_drawing_buffer: bool,
    pub html5_premultiplied_alpha: bool,
    pub html5_ask_leave_site: bool,
    pub ios_keyboard_resizes_canvas: bool,
}

/// Relies on std's standard output handle (`std::io::stdout` and its
/// `Write::write_all`) to print a message; a failed write is ignored.
#[verifier::external_body]
fn print_message(msg: &str) {
    let _ = std::io::Write::write_all(&mut std::io::stdout(), msg.as_bytes());
}

/// The number of samples in an audio buffer of `num_frames` frames of
/// `num_channels` channels; none where the product is negative.
pub open spec fn sample_count(num_frames: i32, num_channels: i32) -> int {
    let n = num_frames as int * num_channels as int;
    if n < 0 {
        0
    } else {
        n
    }
}

/// Writes silence, zero, over the samples of `num_frames` frames of
/// `num_channels` channels at the front of `buffer`, or over all of it where
/// it is shorter. A zero bit pattern is the number zero.
pub fn fill_silence(buffer: &mut [u32], num_frames: i32, num_channels: i32)
    ensures
        final(buffer)@.len() == old(buffer)@.len(),
        forall|i: int|
            0 <= i < old(buffer)@.len() ==> #[trigger] final(buffer)@[i] == if i < sample_count(
                num_frames,
                num_channels,
            ) {
                0u32
            } else {
                old(buffer)@[i]
            },
{
    proof {
        let f = num_frames as int;
        let c = num_channels as int;
        assert(-0x4000_0000_0000_0000 <= f * c <= 0x4000_0000_0000_0000) by (nonlinear_arith)
            requires
                -0x8000_0000 <= f < 0x8000_0000,
                -0x8000_0000 <= c < 0x8000_0000,
        ;
    }
    let product: i64 = num_frames as i64 * num_channels as i64;
    let len = buffer.len();
    let ghost start = buffer@;
    let mut i: usize = 0;
    while i < len && (i as i64) < product
        invariant
            len == buffer@.len() == start.len(),
            i <= len,
            product == num_frames as int * num_channels as int,
            forall|j: int| 0 <= j < i ==> #[trigger] buffer@[j] == 0u32,
            forall|j: int| i <= j < len ==> #[trigger] buffer@[j] == start[j],
            i as int <= sample_count(num_frames, num_channels) || i == 0,
        decreases len - i,
    {
        buffer[i] = 0;
        i += 1;
    }
}

/// A call that a handler receives, as its record lists it.
#[derive(Copy, Clone)]
pub enum SAppCall {
    Init,
    Frame,
    Cleanup,
    Event(SAppEvent),
    /// An error report, with its message.
    Fail(Ghost<Seq<char>>),
    Stream { num_frames: i32, num_channels: i32 },
}

/// The handler of an application: the native library's callbacks end up in
/// these methods, on the thread that runs the application, except
/// `saudio_stream`, which an audio thread calls.
///
/// `received` is the handler's record of the calls it has received, oldest
/// first; each method adds exactly its own call to it. A handler that keeps
/// the two optional methods as they are notes their calls through
/// `sapp_note`.
pub trait SApp {
    /// The calls received so far, oldest first. A handler that is itself
    /// verified defines it over its own state; the default, an empty record,
    /// meets none of the contracts below.
    closed spec fn received(&self) -> Seq<SAppCall> {
        Seq::empty()
    }

    /// Called once, before the first frame.
    fn sapp_init(&mut self)
        ensures
            final(self).received() == old(self).received().push(SAppCall::Init),
    ;

    /// Called once per frame.
    fn sapp_frame(&mut self)
        ensures
            final(self).received() == old(self).received().push(SAppCall::Frame),
    ;

    /// Called once, after the last frame.
    fn sapp_cleanup(&mut self)
        ensures
            final(self).received() == old(self).received().push(SAppCall::Cleanup),
    ;

    /// Called for each input or window event.
    fn sapp_event(&mut self, event: SAppEvent)
        ensures
            final(self).received() == old(self).received().push(SAppCall::Event(event)),
    ;

    /// Adds `call` to the record; the optional methods below call it when
    /// they keep their default behaviour.
    fn sapp_note(&mut self, call: SAppCall)
        ensures
            final(self).received() == old(self).received().push(call),
    ;

    /// Called where the native library reports an error; prints the message
    /// unless the handler overrides it.
    fn sapp_fail(&mut self, msg: &str)
        ensures
            final(self).received() == old(self).received().push(SAppCall::Fail(Ghost(msg@))),
    {
        print_message(msg);
        self.sapp_note(SAppCall::Fail(Ghost(msg@)));
    }

    /// Called from the audio thread to fill `buffer` with `num_frames`
    /// frames of `num_channels` interleaved samples, each the bit pattern of
    /// a single-precision number. Writes silence unless the handler
    /// overrides it.
    fn saudio_stream(&mut self, buffer: &mut [u32], num_frames: i32, num_channels: i32)
        ensures
            final(buffer)@.len() == old(buffer)@.len(),
            final(self).received() == old(self).received().push(
                SAppCall::Stream { num_frames, num_channels },
            ),
    {
        fill_silence(buffer, num_frames, num_channels);
        self.sapp_note(SAppCall::Stream { num_frames, num_channels });
    }
}

/// A registered application: its handler and its settings.
pub struct SAppImpl<S: SApp> {
    pub callbacks: S,
    pub desc: SAppDesc,
}

impl<S: SApp> SAppImpl<S> {
    /// Registers `callbacks` with `desc`.
    pub fn new(callbacks: S, desc: SAppDesc) -> (r: SAppImpl<S>)
        ensures
            r.callbacks == callbacks,
            r.desc == desc,
    {
        SAppImpl { callbacks, desc }
    }

    /// Hands the init callback to the handler.
    pub fn init_cb(&mut self)
        ensures
            final(self).callbacks.received() == old(self).callbacks.received().push(SAppCall::Init),
            final(self).desc == old(self).desc,
    {
        self.callbacks.sapp_init();
    }

    /// Hands the frame callback to the handler.
    pub fn frame_cb(&mut self)
        ensures
            final(self).callbacks.received() == old(self).callbacks.received().push(
                SAppCall::Frame,
            ),
            final(self).desc == old(self).desc,
    {
        self.callbacks.sapp_frame();
    }

    /// Hands the cleanup callback to the handler.
    pub fn cleanup_cb(&mut self)
        ensures
            final(self).callbacks.received() == old(self).callbacks.received().push(
                SAppCall::Cleanup,
            ),
            final(self).desc == old(self).desc,
    {
        self.callbacks.sapp_cleanup();
    }

    /// Hands `event` to the handler.
    pub fn event_cb(&mut self, event: SAppEvent)
        ensures
            final(self).callbacks.received() == old(self).callbacks.received().push(
                SAppCall::Event(event),
            ),
            final(self).desc == old(self).desc,
    {
        self.callbacks.sapp_event(event);
    }

    /// Hands the error message `msg` to the handler.
    pub fn fail_cb(&mut self, msg: &str)
        ensures
            final(self).callbacks.received() == old(self).callbacks.received().push(
                SAppCall::Fail(Ghost(msg@)),
            ),
            final(self).desc == old(self).desc,
    {
        self.callbacks.sapp_fail(msg);
    }

    /// Hands an audio buffer to the handler.
    pub fn stream_cb(&mut self, buffer: &mut [u32], num_frames: i32, num_channels: i32)
        ensures
            final(buffer)@.len() == old(buffer)@.len(),
            final(self).callbacks.received() == old(self).callbacks.received().push(
                SAppCall::Stream { num_frames, num_channels },
            ),
            final(self).desc == old(self).desc,
    {
        self.callbacks.saudio_stream(buffer, num_frames, num_channels);
    }
}

} // verus!
