//! The settings that need no colors: the font of the picker and the hotkey
//! that summons it.

use vstd::prelude::*;

verus! {

/// Modifier codes of a hotkey.
pub const MODIFIER_ALT: u32 = 1;

pub const MODIFIER_CONTROL: u32 = 2;

pub const MODIFIER_SHIFT: u32 = 4;

pub const MODIFIER_WINDOWS: u32 = 8;

/// The virtual-key code of F1, the key of the default hotkey.
pub const KEY_F1: u32 = 0x70;

/// A hotkey: a modifier and the virtual-key code of a key.
#[derive(Clone, Copy, Debug, PartialEq, Eq, Structural)]
pub struct Hotkey {
    pub modifier: u32,
    pub key: u32,
}

/// The modifier code that the setting `name` stands for. A name that is
/// missing or unknown stands for Alt.
pub open spec fn modifier_code(name: Option<Seq<char>>) -> u32 {
    match name {
        Some(text) => if text == "ctrl"@ {
            MODIFIER_CONTROL
        } else if text == "shift"@ {
            MODIFIER_SHIFT
        } else if text == "windows"@ {
            MODIFIER_WINDOWS
        } else {
            MODIFIER_ALT
        },
        None => MODIFIER_ALT,
    }
}

/// The name of the font that the setting `name` stands for. A setting that
/// is missing stands for Consolas.
pub open spec fn font_name(name: Option<Seq<char>>) -> Seq<char> {
    match name {
        Some(text) => text,
        None => "Consolas"@,
    }
}

/// The font that the settings ask for; Consolas where they are silent.
pub fn font(name: Option<&str>) -> (r: String)
    ensures
        r@ == font_name(
            match name {
                Some(text) => Some(text@),
                None => None,
            },
        ),
{
    match name {
        Some(text) => text.to_owned(),
        None => "Consolas".to_owned(),
    }
}

/// The key code that the setting `key` stands for: its low 32 bits. A
/// setting that is missing stands for F1.
pub open spec fn key_code(key: Option<i64>) -> u32 {
    match key {
        Some(code) => (code % 0x1_0000_0000) as u32,
        None => KEY_F1,
    }
}

/// The hotkey that the settings ask for; Alt and F1 where they are silent.
pub fn hotkey(modifier: Option<&str>, key: Option<i64>) -> (r: Hotkey)
    ensures
        r == (Hotkey { modifier: modifier_code(
            match modifier {
                Some(text) => Some(text@),
                None => None,
            },
        ), key: key_code(key) }),
{
    let modifier: u32 = match modifier {
        Some(text) => {
            let name = text.to_owned();
            if name == "ctrl".to_owned() {
                MODIFIER_CONTROL
            } else if name == "shift".to_owned() {
                MODIFIER_SHIFT
            } else if name == "windows".to_owned() {
                MODIFIER_WINDOWS
            } else {
                MODIFIER_ALT
            }
        },
        None => MODIFIER_ALT,
    };
    let key: u32 = match key {
        Some(code) => low_bits(code),
        None => KEY_F1,
    };
    Hotkey { modifier, key }
}

fn low_bits(code: i64) -> (r: u32)
    ensures
        r == code as int % 0x1_0000_0000,
{
    if code >= 0 {
        (code as u64 % 0x1_0000_0000) as u32
    } else {
        let below: u64 = (-(code + 1)) as u64 % 0x1_0000_0000;
        (0xffff_ffff - below) as u32
    }
}

} // verus!
