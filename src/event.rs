//! What a raw note message asks for: a held key, a click, a pointer move, or nothing.
use vstd::prelude::*;

verus! {

/// Status byte of a note-on message on the first channel.
pub const NOTE_ON: u8 = 144;

/// Number of entries of the note table; notes at or above it are unmapped.
pub const NOTE_TABLE_LEN: u8 = 100;

/// Horizontal pointer step, in pixels, of the two pointer notes.
pub const POINTER_STEP: i32 = 30;

/// A key that stays down until the scheduler releases it.
#[derive(Clone, Copy, Debug, PartialEq, Eq, Structural)]
pub enum KeySym {
    Space,
    /// The neutral key that every unmapped note presses.
    Home,
    /// A key named by the character it types.
    Layout(char),
}

/// What a note is bound to.
#[derive(Clone, Copy, Debug, PartialEq, Eq, Structural)]
pub enum Action {
    Hold(KeySym),
    Click,
    MoveRelative(i32, i32),
}

/// What the ingestor must do for one incoming message.
#[derive(Clone, Copy, Debug, PartialEq, Eq, Structural)]
pub enum Effect {
    /// The message does not have three bytes: log it and drop it.
    Malformed,
    /// A well-formed message that is not a note-on: nothing to do.
    Ignored,
    /// Press `key` now and release it once `hold_ms` milliseconds have passed.
    Press { key: KeySym, hold_ms: u32 },
    /// A left click, done at once.
    Click,
    /// Move the pointer by `(dx, dy)`, done at once.
    MoveRelative { dx: i32, dy: i32 },
}

/// The binding of each note.
pub open spec fn action_of(note: u8) -> Action {
    if note == 10 {
        Action::Hold(KeySym::Space)
    } else if note == 15 {
        Action::Click
    } else if note == 20 {
        Action::MoveRelative((-POINTER_STEP) as i32, 0)
    } else if note == 25 {
        Action::Hold(KeySym::Layout('w'))
    } else if note == 30 {
        Action::MoveRelative(POINTER_STEP, 0)
    } else if note == 35 {
        Action::Hold(KeySym::Layout('a'))
    } else if note == 40 {
        Action::Hold(KeySym::Layout('s'))
    } else if note == 45 {
        Action::Hold(KeySym::Layout('d'))
    } else {
        Action::Hold(KeySym::Home)
    }
}

/// Hold duration in milliseconds for a trigger of the given strength.
pub open spec fn hold_ms_of(strength: u8) -> nat {
    2 * strength as nat
}

/// The effect that a message with the bytes `data` calls for.
pub open spec fn effect_of(data: Seq<u8>) -> Effect {
    if data.len() != 3 {
        Effect::Malformed
    } else if data[0] != NOTE_ON {
        Effect::Ignored
    } else {
        match action_of(data[1]) {
            Action::Hold(key) => Effect::Press { key, hold_ms: hold_ms_of(data[2]) as u32 },
            Action::Click => Effect::Click,
            Action::MoveRelative(dx, dy) => Effect::MoveRelative { dx, dy },
        }
    }
}

impl Effect {
    /// Whether this effect leaves a key down that must later be released.
    pub open spec fn holds_key(self) -> bool {
        self is Press
    }
}

/// Converts a trigger's strength into the time its key stays down.
pub fn hold_ms_for(strength: u8) -> (r: u32)
    ensures
        r as nat == hold_ms_of(strength),
{
    strength as u32 * 2
}

/// Looks up the binding of a note; notes outside the table press the neutral key.
pub fn action_for(note: u8) -> (r: Action)
    ensures
        r == action_of(note),
{
    if note >= NOTE_TABLE_LEN {
        return Action::Hold(KeySym::Home);
    }
    match note {
        10 => Action::Hold(KeySym::Space),
        15 => Action::Click,
        20 => Action::MoveRelative(-POINTER_STEP, 0),
        25 => Action::Hold(KeySym::Layout('w')),
        30 => Action::MoveRelative(POINTER_STEP, 0),
        35 => Action::Hold(KeySym::Layout('a')),
        40 => Action::Hold(KeySym::Layout('s')),
        45 => Action::Hold(KeySym::Layout('d')),
        _ => Action::Hold(KeySym::Home),
    }
}

/// Decides what an incoming message asks for.
pub fn interpret(data: &[u8]) -> (r: Effect)
    ensures
        r == effect_of(data@),
        r.holds_key() ==> data@.len() == 3,
{
    if data.len() != 3 {
        return Effect::Malformed;
    }
    if data[0] != NOTE_ON {
        return Effect::Ignored;
    }
    match action_for(data[1]) {
        Action::Hold(key) => Effect::Press { key, hold_ms: hold_ms_for(data[2]) },
        Action::Click => Effect::Click,
        Action::MoveRelative(dx, dy) => Effect::MoveRelative { dx, dy },
    }
}

} // verus!
