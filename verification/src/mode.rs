//! The LED modes and the order in which the button goes through them.

use vstd::prelude::*;

verus! {

/// What the LED does.
#[derive(Clone, Copy, Debug, PartialEq, Eq, Structural)]
pub enum Mode {
    /// Dark.
    Off,
    /// On and off for 100 ms each.
    Fast,
    /// On and off for 500 ms each.
    Slow,
    /// Lit.
    Solid,
}

impl Mode {
    /// Number of the mode: its place in the order of the button.
    pub open spec fn number(self) -> int {
        match self {
            Mode::Off => 0,
            Mode::Fast => 1,
            Mode::Slow => 2,
            Mode::Solid => 3,
        }
    }

    /// The mode with a number, taken modulo four.
    pub open spec fn numbered(n: int) -> Mode {
        if n % 4 == 0 {
            Mode::Off
        } else if n % 4 == 1 {
            Mode::Fast
        } else if n % 4 == 2 {
            Mode::Slow
        } else {
            Mode::Solid
        }
    }

    /// Text of the mode.
    pub open spec fn text(self) -> Seq<char> {
        match self {
            Mode::Off => "OFF"@,
            Mode::Fast => "FAST"@,
            Mode::Slow => "SLOW"@,
            Mode::Solid => "SOLID"@,
        }
    }

    /// Text of the mode, filled up with spaces to five characters.
    pub open spec fn padded_text(self) -> Seq<char> {
        match self {
            Mode::Off => "OFF  "@,
            Mode::Fast => "FAST "@,
            Mode::Slow => "SLOW "@,
            Mode::Solid => "SOLID"@,
        }
    }

    /// The mode after a press of the button.
    pub fn next(self) -> (r: Mode)
        ensures
            r == Mode::numbered(self.number() + 1),
    {
        match self {
            Mode::Off => Mode::Fast,
            Mode::Fast => Mode::Slow,
            Mode::Slow => Mode::Solid,
            Mode::Solid => Mode::Off,
        }
    }

    /// The mode that a stored byte stands for; only its low two bits count.
    pub fn from_u8(v: u8) -> (r: Mode)
        ensures
            r == Mode::numbered(v as int),
    {
        assert(v & 0b11 == v % 4) by (bit_vector);
        match v & 0b11 {
            0 => Mode::Off,
            1 => Mode::Fast,
            2 => Mode::Slow,
            _ => Mode::Solid,
        }
    }

    /// The byte that stands for the mode.
    pub fn to_u8(self) -> (r: u8)
        ensures
            r == self.number(),
    {
        match self {
            Mode::Off => 0,
            Mode::Fast => 1,
            Mode::Slow => 2,
            Mode::Solid => 3,
        }
    }

    /// Text of the mode.
    pub fn label(self) -> (r: &'static str)
        ensures
            r@ == self.text(),
    {
        match self {
            Mode::Off => "OFF",
            Mode::Fast => "FAST",
            Mode::Slow => "SLOW",
            Mode::Solid => "SOLID",
        }
    }

    /// Text of the mode, as wide for every mode.
    pub fn padded_label(self) -> (r: &'static str)
        ensures
            r@ == self.padded_text(),
    {
        match self {
            Mode::Off => "OFF  ",
            Mode::Fast => "FAST ",
            Mode::Slow => "SLOW ",
            Mode::Solid => "SOLID",
        }
    }
}

/// The mode after a number of presses.
pub open spec fn pressed(mode: Mode, times: nat) -> Mode
    decreases times,
{
    if times == 0 {
        mode
    } else {
        let before = pressed(mode, (times - 1) as nat);
        Mode::numbered(before.number() + 1)
    }
}

/// The button goes through the modes in their order and comes round after four
/// presses.
pub proof fn law_presses_cycle(mode: Mode, times: nat)
    ensures
        pressed(mode, times) == Mode::numbered(mode.number() + times),
        pressed(mode, times + 4) == pressed(mode, times),
{
    lemma_pressed(mode, times);
    lemma_pressed(mode, times + 4);
}

proof fn lemma_pressed(mode: Mode, times: nat)
    ensures
        pressed(mode, times) == Mode::numbered(mode.number() + times),
    decreases times,
{
    if times > 0 {
        lemma_pressed(mode, (times - 1) as nat);
    }
}

/// A mode that is stored as its byte is read back as itself, and of a stored
/// byte only the remainder by four counts.
pub proof fn law_mode_survives_storage(mode: Mode, v: int)
    ensures
        Mode::numbered(mode.number()) == mode,
        Mode::numbered(v).number() == v % 4,
{
}

/// All padded texts have five characters and begin with the text of the mode.
pub proof fn law_padding(mode: Mode)
    ensures
        mode.padded_text().len() == 5,
        mode.text().is_prefix_of(mode.padded_text()),
{
    reveal_strlit("OFF");
    reveal_strlit("FAST");
    reveal_strlit("SLOW");
    reveal_strlit("SOLID");
    reveal_strlit("OFF  ");
    reveal_strlit("FAST ");
    reveal_strlit("SLOW ");
}

/// A press leads from dark to the fast pattern, from there to the slow one, from
/// there to lit, and from there to dark.
pub proof fn law_press_order(mode: Mode)
    ensures
        mode == Mode::Off ==> pressed(mode, 1) == Mode::Fast,
        mode == Mode::Fast ==> pressed(mode, 1) == Mode::Slow,
        mode == Mode::Slow ==> pressed(mode, 1) == Mode::Solid,
        mode == Mode::Solid ==> pressed(mode, 1) == Mode::Off,
        Mode::numbered(mode.number() + 1) == pressed(mode, 1),
        0 <= mode.number() < 4,
{
    reveal_with_fuel(pressed, 2);
}

/// Of the bytes, the multiples of four stand for dark, those one above for the
/// fast pattern, two above for the slow one, three above for lit.
pub proof fn law_stored_bytes(v: u8)
    ensures
        Mode::numbered(v as int) == Mode::Off <==> v % 4 == 0,
        Mode::numbered(v as int) == Mode::Fast <==> v % 4 == 1,
        Mode::numbered(v as int) == Mode::Slow <==> v % 4 == 2,
        Mode::numbered(v as int) == Mode::Solid <==> v % 4 == 3,
        Mode::numbered(v as int).number() == v % 4,
{
}

/// The texts of the modes, letter by letter.
pub proof fn law_texts(mode: Mode)
    ensures
        mode == Mode::Off ==> mode.text() == seq!['O', 'F', 'F'],
        mode == Mode::Fast ==> mode.text() == seq!['F', 'A', 'S', 'T'],
        mode == Mode::Slow ==> mode.text() == seq!['S', 'L', 'O', 'W'],
        mode == Mode::Solid ==> mode.text() == seq!['S', 'O', 'L', 'I', 'D'],
        mode.padded_text().len() == 5,
        forall|i: int|
            0 <= i < 5 ==> #[trigger] mode.padded_text()[i] == if i < mode.text().len() {
                mode.text()[i]
            } else {
                ' '
            },
{
    law_padding(mode);
    reveal_strlit("OFF");
    reveal_strlit("FAST");
    reveal_strlit("SLOW");
    reveal_strlit("SOLID");
    reveal_strlit("OFF  ");
    reveal_strlit("FAST ");
    reveal_strlit("SLOW ");
    assert(mode == Mode::Off ==> mode.text() =~= seq!['O', 'F', 'F']);
    assert(mode == Mode::Fast ==> mode.text() =~= seq!['F', 'A', 'S', 'T']);
    assert(mode == Mode::Slow ==> mode.text() =~= seq!['S', 'L', 'O', 'W']);
    assert(mode == Mode::Solid ==> mode.text() =~= seq!['S', 'O', 'L', 'I', 'D']);
}

} // verus!
