//! The colour data model: the 16 fixed palette colours, the text effects,
//! and a single colour entry (effect + optional foreground/background),
//! together with their fixed two-digit wire codes and the cycling order
//! used by the editor.

use vstd::prelude::*;

verus! {

/// One of the 16 fixed terminal palette colours.
#[derive(Debug, Clone, Copy, PartialEq, Eq, Structural)]
pub enum TerminalColour {
    Black,
    Red,
    Green,
    Orange,
    Blue,
    Purple,
    Cyan,
    Gray,
    DarkGray,
    LightRed,
    LightGreen,
    Yellow,
    LightBlue,
    LightPurple,
    Turquoise,
    White,
}

/// A text effect applied to a colour entry.
#[derive(Debug, Clone, Copy, PartialEq, Eq, Structural)]
pub enum Effects {
    Default,
    Bold,
    Underline,
    Italic,
    Strikethrough,
}

/// The fixed two-digit code a foreground colour contributes to an encoding.
pub open spec fn fg_code(c: TerminalColour) -> Seq<char> {
    match c {
        TerminalColour::Black => "30"@,
        TerminalColour::Red => "31"@,
        TerminalColour::Green => "32"@,
        TerminalColour::Orange => "33"@,
        TerminalColour::Blue => "34"@,
        TerminalColour::Purple => "35"@,
        TerminalColour::Cyan => "36"@,
        TerminalColour::Gray => "37"@,
        TerminalColour::DarkGray => "90"@,
        TerminalColour::LightRed => "91"@,
        TerminalColour::LightGreen => "92"@,
        TerminalColour::Yellow => "93"@,
        TerminalColour::LightBlue => "94"@,
        TerminalColour::LightPurple => "95"@,
        TerminalColour::Turquoise => "96"@,
        TerminalColour::White => "97"@,
    }
}

/// The fixed code a background colour contributes: the foreground code
/// shifted by the background range (+10 in both halves of the palette).
pub open spec fn bg_code(c: TerminalColour) -> Seq<char> {
    match c {
        TerminalColour::Black => "40"@,
        TerminalColour::Red => "41"@,
        TerminalColour::Green => "42"@,
        TerminalColour::Orange => "43"@,
        TerminalColour::Blue => "44"@,
        TerminalColour::Purple => "45"@,
        TerminalColour::Cyan => "46"@,
        TerminalColour::Gray => "47"@,
        TerminalColour::DarkGray => "100"@,
        TerminalColour::LightRed => "101"@,
        TerminalColour::LightGreen => "102"@,
        TerminalColour::Yellow => "103"@,
        TerminalColour::LightBlue => "104"@,
        TerminalColour::LightPurple => "105"@,
        TerminalColour::Turquoise => "106"@,
        TerminalColour::White => "107"@,
    }
}

/// The fixed two-digit code of an effect.
pub open spec fn effect_code(e: Effects) -> Seq<char> {
    match e {
        Effects::Default => "00"@,
        Effects::Bold => "01"@,
        Effects::Underline => "04"@,
        Effects::Italic => "03"@,
        Effects::Strikethrough => "09"@,
    }
}

/// One colour assignment: an effect plus an optional foreground and an
/// optional background colour.
#[derive(Debug, Clone, Copy, PartialEq)]
pub struct ColourEntry {
    pub effects: Effects,
    pub fg: Option<TerminalColour>,
    pub bg: Option<TerminalColour>,
}

/// What an optional foreground contributes to an entry's encoding:
/// nothing when unset, otherwise a separator plus the colour's code.
pub open spec fn fg_part(fg: Option<TerminalColour>) -> Seq<char> {
    match fg {
        Some(c) => ";"@ + fg_code(c),
        None => Seq::<char>::empty(),
    }
}

/// What an optional background contributes to an entry's encoding.
pub open spec fn bg_part(bg: Option<TerminalColour>) -> Seq<char> {
    match bg {
        Some(c) => ";"@ + bg_code(c),
        None => Seq::<char>::empty(),
    }
}

/// The full encoding of a colour entry: the effect code, then the
/// foreground code if set, then the background code if set, separated by
/// `;` with no trailing separator.
pub open spec fn entry_code(e: ColourEntry) -> Seq<char> {
    effect_code(e.effects) + fg_part(e.fg) + bg_part(e.bg)
}

/// The effect code as executable text.
fn effect_str(e: Effects) -> (r: &'static str)
    ensures
        r@ == effect_code(e),
{
    match e {
        Effects::Default => "00",
        Effects::Bold => "01",
        Effects::Underline => "04",
        Effects::Italic => "03",
        Effects::Strikethrough => "09",
    }
}

/// The foreground code as executable text.
fn fg_str(c: TerminalColour) -> (r: &'static str)
    ensures
        r@ == fg_code(c),
{
    match c {
        TerminalColour::Black => "30",
        TerminalColour::Red => "31",
        TerminalColour::Green => "32",
        TerminalColour::Orange => "33",
        TerminalColour::Blue => "34",
        TerminalColour::Purple => "35",
        TerminalColour::Cyan => "36",
        TerminalColour::Gray => "37",
        TerminalColour::DarkGray => "90",
        TerminalColour::LightRed => "91",
        TerminalColour::LightGreen => "92",
        TerminalColour::Yellow => "93",
        TerminalColour::LightBlue => "94",
        TerminalColour::LightPurple => "95",
        TerminalColour::Turquoise => "96",
        TerminalColour::White => "97",
    }
}

/// The background code as executable text.
fn bg_str(c: TerminalColour) -> (r: &'static str)
    ensures
        r@ == bg_code(c),
{
    match c {
        TerminalColour::Black => "40",
        TerminalColour::Red => "41",
        TerminalColour::Green => "42",
        TerminalColour::Orange => "43",
        TerminalColour::Blue => "44",
        TerminalColour::Purple => "45",
        TerminalColour::Cyan => "46",
        TerminalColour::Gray => "47",
        TerminalColour::DarkGray => "100",
        TerminalColour::LightRed => "101",
        TerminalColour::LightGreen => "102",
        TerminalColour::Yellow => "103",
        TerminalColour::LightBlue => "104",
        TerminalColour::LightPurple => "105",
        TerminalColour::Turquoise => "106",
        TerminalColour::White => "107",
    }
}

impl ColourEntry {
    /// Builds an entry from its three attributes.
    pub fn new(effects: Effects, fg: Option<TerminalColour>, bg: Option<TerminalColour>) -> (r:
        Self)
        ensures
            r == (ColourEntry { effects, fg, bg }),
    {
        Self { effects, fg, bg }
    }

    /// Renders the entry in the wire form `effect(;fg)?(;bg)?`.
    pub fn parse(&self) -> (r: String)
        ensures
            r@ == entry_code(*self),
    {
        let mut out = String::new();
        out.append(effect_str(self.effects));
        if let Some(c) = self.fg {
            out.append(";");
            out.append(fg_str(c));
        }
        if let Some(c) = self.bg {
            out.append(";");
            out.append(bg_str(c));
        }
        proof {
            assert(out@ =~= entry_code(*self));
        }
        out
    }
}

/// Whether a character is a decimal digit; every character of every fixed
/// colour and effect code is one.
pub open spec fn is_digit_char(c: char) -> bool {
    c == '0' || c == '1' || c == '2' || c == '3' || c == '4' || c == '5' || c == '6' || c == '7'
        || c == '8' || c == '9'
}

/// Every effect code is exactly two digits.
pub proof fn lemma_effect_code_chars(e: Effects)
    ensures
        effect_code(e).len() == 2,
        forall|i: int| 0 <= i < effect_code(e).len() ==> is_digit_char(#[trigger] effect_code(e)[i]),
{
    reveal_strlit("00");
    reveal_strlit("01");
    reveal_strlit("04");
    reveal_strlit("03");
    reveal_strlit("09");
}

/// Every foreground code is exactly two digits.
pub proof fn lemma_fg_code_chars(c: TerminalColour)
    ensures
        fg_code(c).len() == 2,
        forall|i: int| 0 <= i < fg_code(c).len() ==> is_digit_char(#[trigger] fg_code(c)[i]),
{
    reveal_strlit("30");
    reveal_strlit("31");
    reveal_strlit("32");
    reveal_strlit("33");
    reveal_strlit("34");
    reveal_strlit("35");
    reveal_strlit("36");
    reveal_strlit("37");
    reveal_strlit("90");
    reveal_strlit("91");
    reveal_strlit("92");
    reveal_strlit("93");
    reveal_strlit("94");
    reveal_strlit("95");
    reveal_strlit("96");
    reveal_strlit("97");
}

/// Every background code is two or three digits.
pub proof fn lemma_bg_code_chars(c: TerminalColour)
    ensures
        2 <= bg_code(c).len() <= 3,
        forall|i: int| 0 <= i < bg_code(c).len() ==> is_digit_char(#[trigger] bg_code(c)[i]),
{
    reveal_strlit("40");
    reveal_strlit("41");
    reveal_strlit("42");
    reveal_strlit("43");
    reveal_strlit("44");
    reveal_strlit("45");
    reveal_strlit("46");
    reveal_strlit("47");
    reveal_strlit("100");
    reveal_strlit("101");
    reveal_strlit("102");
    reveal_strlit("103");
    reveal_strlit("104");
    reveal_strlit("105");
    reveal_strlit("106");
    reveal_strlit("107");
}

/// Law: an entry's encoding is the effect code, then the foreground code
/// if set, then the background code if set, joined by single `;`
/// separators; it begins with the two-digit effect code, ends in a digit
/// (no trailing separator), and contains only digits and `;`.
pub proof fn lemma_entry_code_wire_shape(e: ColourEntry)
    ensures
        entry_code(e) == effect_code(e.effects) + fg_part(e.fg) + bg_part(e.bg),
        entry_code(e).len() >= 2,
        entry_code(e).take(2) == effect_code(e.effects),
        is_digit_char(entry_code(e).last()),
        forall|i: int|
            0 <= i < entry_code(e).len() ==> (is_digit_char(#[trigger] entry_code(e)[i])
                || entry_code(e)[i] == ';'),
{
    reveal_strlit(";");
    lemma_effect_code_chars(e.effects);
    if let Some(c) = e.fg {
        lemma_fg_code_chars(c);
    }
    if let Some(c) = e.bg {
        lemma_bg_code_chars(c);
    }
    assert(entry_code(e).take(2) =~= effect_code(e.effects));
}

/// The palette colour that follows `c` in the fixed cycling order
/// (the 8 standard colours, then the 8 bright variants). The last colour
/// has no successor; for totality it maps to itself.
pub open spec fn colour_after(c: TerminalColour) -> TerminalColour {
    match c {
        TerminalColour::Red => TerminalColour::Green,
        TerminalColour::Green => TerminalColour::Orange,
        TerminalColour::Orange => TerminalColour::Blue,
        TerminalColour::Blue => TerminalColour::Purple,
        TerminalColour::Purple => TerminalColour::Cyan,
        TerminalColour::Cyan => TerminalColour::Gray,
        TerminalColour::Gray => TerminalColour::Black,
        TerminalColour::Black => TerminalColour::DarkGray,
        TerminalColour::DarkGray => TerminalColour::LightRed,
        TerminalColour::LightRed => TerminalColour::LightGreen,
        TerminalColour::LightGreen => TerminalColour::Yellow,
        TerminalColour::Yellow => TerminalColour::LightBlue,
        TerminalColour::LightBlue => TerminalColour::LightPurple,
        TerminalColour::LightPurple => TerminalColour::Turquoise,
        TerminalColour::Turquoise => TerminalColour::White,
        TerminalColour::White => TerminalColour::White,
    }
}

/// The palette colour that precedes `c` in the fixed cycling order.
/// The first colour has no predecessor; for totality it maps to itself.
pub open spec fn colour_before(c: TerminalColour) -> TerminalColour {
    match c {
        TerminalColour::Red => TerminalColour::Red,
        TerminalColour::Green => TerminalColour::Red,
        TerminalColour::Orange => TerminalColour::Green,
        TerminalColour::Blue => TerminalColour::Orange,
        TerminalColour::Purple => TerminalColour::Blue,
        TerminalColour::Cyan => TerminalColour::Purple,
        TerminalColour::Gray => TerminalColour::Cyan,
        TerminalColour::Black => TerminalColour::Gray,
        TerminalColour::DarkGray => TerminalColour::Black,
        TerminalColour::LightRed => TerminalColour::DarkGray,
        TerminalColour::LightGreen => TerminalColour::LightRed,
        TerminalColour::Yellow => TerminalColour::LightGreen,
        TerminalColour::LightBlue => TerminalColour::Yellow,
        TerminalColour::LightPurple => TerminalColour::LightBlue,
        TerminalColour::Turquoise => TerminalColour::LightPurple,
        TerminalColour::White => TerminalColour::Turquoise,
    }
}

/// One forward step of an optional colour: from unset to the first palette
/// colour, past the last palette colour back to unset, otherwise to the
/// next colour in the fixed order.
pub open spec fn spec_colour_forward(c: Option<TerminalColour>) -> Option<TerminalColour> {
    match c {
        None => Some(TerminalColour::Red),
        Some(x) => if x == TerminalColour::White {
            None
        } else {
            Some(colour_after(x))
        },
    }
}

/// One backward step of an optional colour: from unset to the last palette
/// colour, past the first palette colour back to unset, otherwise to the
/// previous colour in the fixed order.
pub open spec fn spec_colour_backward(c: Option<TerminalColour>) -> Option<TerminalColour> {
    match c {
        None => Some(TerminalColour::White),
        Some(x) => if x == TerminalColour::Red {
            None
        } else {
            Some(colour_before(x))
        },
    }
}

/// The effect that follows `e` in the fixed cycling order, wrapping from
/// the last effect back to the first; there is no unset position.
pub open spec fn spec_effect_forward(e: Effects) -> Effects {
    match e {
        Effects::Default => Effects::Bold,
        Effects::Bold => Effects::Underline,
        Effects::Underline => Effects::Italic,
        Effects::Italic => Effects::Strikethrough,
        Effects::Strikethrough => Effects::Default,
    }
}

/// The effect that precedes `e` in the fixed cycling order, wrapping from
/// the first effect back to the last.
pub open spec fn spec_effect_backward(e: Effects) -> Effects {
    match e {
        Effects::Default => Effects::Strikethrough,
        Effects::Bold => Effects::Default,
        Effects::Underline => Effects::Bold,
        Effects::Italic => Effects::Underline,
        Effects::Strikethrough => Effects::Italic,
    }
}

/// Law: moving forward from unset selects the first palette colour; moving
/// forward from the last palette colour returns to unset; moving backward
/// from unset selects the last palette colour.
pub proof fn lemma_colour_cycle_ends()
    ensures
        spec_colour_forward(None) == Some(TerminalColour::Red),
        spec_colour_forward(Some(TerminalColour::White)) == None::<TerminalColour>,
        spec_colour_backward(None) == Some(TerminalColour::White),
        spec_colour_backward(Some(TerminalColour::Red)) == None::<TerminalColour>,
{
}

/// Steps an optional colour one position forward in the cycling order.
pub fn cycle_colour_forward(c: Option<TerminalColour>) -> (r: Option<TerminalColour>)
    ensures
        r == spec_colour_forward(c),
{
    match c {
        None => Some(TerminalColour::Red),
        Some(x) => {
            if x == TerminalColour::White {
                None
            } else {
                Some(colour_after_exec(x))
            }
        },
    }
}

/// Steps an optional colour one position backward in the cycling order.
pub fn cycle_colour_backward(c: Option<TerminalColour>) -> (r: Option<TerminalColour>)
    ensures
        r == spec_colour_backward(c),
{
    match c {
        None => Some(TerminalColour::White),
        Some(x) => {
            if x == TerminalColour::Red {
                None
            } else {
                Some(colour_before_exec(x))
            }
        },
    }
}

/// Steps an effect one position forward, with plain wraparound.
pub fn cycle_effect_forward(e: Effects) -> (r: Effects)
    ensures
        r == spec_effect_forward(e),
{
    match e {
        Effects::Default => Effects::Bold,
        Effects::Bold => Effects::Underline,
        Effects::Underline => Effects::Italic,
        Effects::Italic => Effects::Strikethrough,
        Effects::Strikethrough => Effects::Default,
    }
}

/// Steps an effect one position backward, with plain wraparound.
pub fn cycle_effect_backward(e: Effects) -> (r: Effects)
    ensures
        r == spec_effect_backward(e),
{
    match e {
        Effects::Default => Effects::Strikethrough,
        Effects::Bold => Effects::Default,
        Effects::Underline => Effects::Bold,
        Effects::Italic => Effects::Underline,
        Effects::Strikethrough => Effects::Italic,
    }
}

/// The successor of a palette colour in the cycling order.
fn colour_after_exec(c: TerminalColour) -> (r: TerminalColour)
    ensures
        r == colour_after(c),
{
    match c {
        TerminalColour::Red => TerminalColour::Green,
        TerminalColour::Green => TerminalColour::Orange,
        TerminalColour::Orange => TerminalColour::Blue,
        TerminalColour::Blue => TerminalColour::Purple,
        TerminalColour::Purple => TerminalColour::Cyan,
        TerminalColour::Cyan => TerminalColour::Gray,
        TerminalColour::Gray => TerminalColour::Black,
        TerminalColour::Black => TerminalColour::DarkGray,
        TerminalColour::DarkGray => TerminalColour::LightRed,
        TerminalColour::LightRed => TerminalColour::LightGreen,
        TerminalColour::LightGreen => TerminalColour::Yellow,
        TerminalColour::Yellow => TerminalColour::LightBlue,
        TerminalColour::LightBlue => TerminalColour::LightPurple,
        TerminalColour::LightPurple => TerminalColour::Turquoise,
        TerminalColour::Turquoise => TerminalColour::White,
        TerminalColour::White => TerminalColour::White,
    }
}

/// The predecessor of a palette colour in the cycling order.
fn colour_before_exec(c: TerminalColour) -> (r: TerminalColour)
    ensures
        r == colour_before(c),
{
    match c {
        TerminalColour::Red => TerminalColour::Red,
        TerminalColour::Green => TerminalColour::Red,
        TerminalColour::Orange => TerminalColour::Green,
        TerminalColour::Blue => TerminalColour::Orange,
        TerminalColour::Purple => TerminalColour::Blue,
        TerminalColour::Cyan => TerminalColour::Purple,
        TerminalColour::Gray => TerminalColour::Cyan,
        TerminalColour::Black => TerminalColour::Gray,
        TerminalColour::DarkGray => TerminalColour::Black,
        TerminalColour::LightRed => TerminalColour::DarkGray,
        TerminalColour::LightGreen => TerminalColour::LightRed,
        TerminalColour::Yellow => TerminalColour::LightGreen,
        TerminalColour::LightBlue => TerminalColour::Yellow,
        TerminalColour::LightPurple => TerminalColour::LightBlue,
        TerminalColour::Turquoise => TerminalColour::LightPurple,
        TerminalColour::White => TerminalColour::Turquoise,
    }
}

} // verus!

