//! Keystrokes as the Minitel keyboard sends them in videotex mode: a
//! printable character is one byte; a function key is the separator byte
//! `SEP` followed by the key's code.
use vstd::prelude::*;
use crate::app::{FunctionKey, UserInput};

verus! {

/// The separator byte that announces a function key.
pub const SEP: u8 = 0x13;

/// What the first byte of a keystroke says.
#[derive(Clone, Copy, Debug, PartialEq, Eq, Structural)]
pub enum StrokeStart {
    /// A printable character, complete in itself.
    Char(char),
    /// A function key, whose code is the next byte.
    FunctionKeyFollows,
    /// Anything else.
    Other,
}

/// The function key sent with code `code` after `SEP`, if any.
pub open spec fn spec_function_key(code: u8) -> Option<FunctionKey> {
    if code == 0x41 {
        Some(FunctionKey::Envoi)
    } else if code == 0x42 {
        Some(FunctionKey::Retour)
    } else if code == 0x43 {
        Some(FunctionKey::Repetition)
    } else if code == 0x44 {
        Some(FunctionKey::Guide)
    } else if code == 0x45 {
        Some(FunctionKey::Annulation)
    } else if code == 0x46 {
        Some(FunctionKey::Sommaire)
    } else if code == 0x47 {
        Some(FunctionKey::Correction)
    } else if code == 0x48 {
        Some(FunctionKey::Suite)
    } else if code == 0x49 {
        Some(FunctionKey::ConnexionFin)
    } else {
        None
    }
}

/// The function keys by code, from `0x41` (Envoi) to `0x49` (Connexion/Fin).
pub open spec fn function_keys_by_code() -> Seq<FunctionKey> {
    seq![
        FunctionKey::Envoi,
        FunctionKey::Retour,
        FunctionKey::Repetition,
        FunctionKey::Guide,
        FunctionKey::Annulation,
        FunctionKey::Sommaire,
        FunctionKey::Correction,
        FunctionKey::Suite,
        FunctionKey::ConnexionFin,
    ]
}

/// The codes `0x41` to `0x49` name the function keys in table order, each
/// key has exactly one code, and no other code names a key.
pub proof fn lemma_function_key_codes(code: u8)
    ensures
        0x41 <= code <= 0x49 ==> spec_function_key(code) == Some(
            function_keys_by_code()[code - 0x41],
        ),
        !(0x41 <= code <= 0x49) ==> spec_function_key(code) is None,
        forall|other: u8|
            spec_function_key(other) is Some && #[trigger] spec_function_key(other)
                == spec_function_key(code) ==> other == code,
{
}

/// Reads the first byte of a keystroke.
pub fn classify_first_byte(b: u8) -> (r: StrokeStart)
    ensures
        0x20 <= b <= 0x7E ==> r == StrokeStart::Char(b as char),
        b == SEP ==> r == StrokeStart::FunctionKeyFollows,
        !(0x20 <= b <= 0x7E) && b != SEP ==> r == StrokeStart::Other,
{
    if 0x20 <= b && b <= 0x7E {
        StrokeStart::Char(b as char)
    } else if b == SEP {
        StrokeStart::FunctionKeyFollows
    } else {
        StrokeStart::Other
    }
}

/// The keystroke of a function key with code `code`; an unknown code is
/// some other keystroke.
pub fn decode_function_key(code: u8) -> (r: UserInput)
    ensures
        r == match spec_function_key(code) {
            Some(k) => UserInput::FunctionKey(k),
            None => UserInput::Other,
        },
{
    let key = match code {
        0x41 => FunctionKey::Envoi,
        0x42 => FunctionKey::Retour,
        0x43 => FunctionKey::Repetition,
        0x44 => FunctionKey::Guide,
        0x45 => FunctionKey::Annulation,
        0x46 => FunctionKey::Sommaire,
        0x47 => FunctionKey::Correction,
        0x48 => FunctionKey::Suite,
        0x49 => FunctionKey::ConnexionFin,
        _ => {
            return UserInput::Other;
        },
    };
    UserInput::FunctionKey(key)
}

} // verus!
