use vstd::prelude::*;
use crate::animation::AnimationKind;

verus! {

/// What a button of the remote asks for.
#[derive(Clone, Copy, Debug, PartialEq, Eq, Structural)]
pub enum StripCommand {
    PowerOn,
    PowerOff,
    SetMode(AnimationKind),
    LumaUp,
    LumaDown,
    SetColor(usize),
}

/// Number of colour codes that the buttons without a meaning of their own
/// cycle through.
pub const DIRECT_COLORS: usize = 16;

/// The command behind each raw code of the numeric remote. A code without
/// an entry of its own picks a colour: the code modulo sixteen.
pub open spec fn decode_spec(raw: u8) -> StripCommand {
    if raw == 0 || raw == 13 {
        StripCommand::PowerOff
    } else if raw == 1 || raw == 22 {
        StripCommand::PowerOn
    } else if raw == 24 {
        StripCommand::LumaUp
    } else if raw == 82 {
        StripCommand::LumaDown
    } else if raw == 2 {
        StripCommand::SetMode(AnimationKind::Static)
    } else if raw == 11 {
        StripCommand::SetMode(AnimationKind::Flash)
    } else if raw == 15 {
        StripCommand::SetMode(AnimationKind::Strobe)
    } else if raw == 19 {
        StripCommand::SetMode(AnimationKind::Fade)
    } else if raw == 23 {
        StripCommand::SetMode(AnimationKind::Smooth)
    } else if raw == 69 {
        StripCommand::SetColor(7)
    } else if raw == 70 {
        StripCommand::SetColor(10)
    } else if raw == 71 {
        StripCommand::SetColor(13)
    } else if raw == 68 {
        StripCommand::SetColor(14)
    } else if raw == 64 {
        StripCommand::SetColor(15)
    } else if raw == 67 {
        StripCommand::SetColor(16)
    } else {
        StripCommand::SetColor((raw % 16) as usize)
    }
}

/// Turns a raw code of the numeric remote into a command. Every code has
/// exactly one meaning.
pub fn decode(raw: u8) -> (command: StripCommand)
    ensures
        command == decode_spec(raw),
{
    match raw {
        0 => StripCommand::PowerOff,
        13 => StripCommand::PowerOff,
        1 => StripCommand::PowerOn,
        2 => StripCommand::SetMode(AnimationKind::Static),
        22 => StripCommand::PowerOn,
        24 => StripCommand::LumaUp,
        82 => StripCommand::LumaDown,
        69 => StripCommand::SetColor(7),
        70 => StripCommand::SetColor(10),
        71 => StripCommand::SetColor(13),
        68 => StripCommand::SetColor(14),
        64 => StripCommand::SetColor(15),
        67 => StripCommand::SetColor(16),
        11 => StripCommand::SetMode(AnimationKind::Flash),
        15 => StripCommand::SetMode(AnimationKind::Strobe),
        19 => StripCommand::SetMode(AnimationKind::Fade),
        23 => StripCommand::SetMode(AnimationKind::Smooth),
        x => StripCommand::SetColor(x as usize % DIRECT_COLORS),
    }
}

/// No button of the remote asks for the overheat animation, and every
/// colour that a button picks is a code of at most sixteen.
pub proof fn decode_never_selects_overheat(raw: u8)
    ensures
        decode_spec(raw) != StripCommand::SetMode(AnimationKind::Overheat),
        decode_spec(raw) matches StripCommand::SetColor(code) ==> code <= DIRECT_COLORS,
{
}

} // verus!
