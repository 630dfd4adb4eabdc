//! Text for the terminal: numbers in decimal, pieces of a line with their
//! colour, and the line they make.

use crate::constants::format_size;
use crate::constants::scaled_hundredths;
use crate::constants::unit_index;
use crate::constants::unit_label;
use crate::constants::unit_name;
use colored::Colorize;
use vstd::prelude::*;
use vstd::string::StrSliceExecFns;
use vstd::string::StringExecFns;

verus! {

broadcast use vstd::string::group_string_axioms;

/// The decimal digit for a value below ten.
pub open spec fn digit(d: nat) -> char
    recommends
        d < 10,
{
    if d == 0 {
        '0'
    } else if d == 1 {
        '1'
    } else if d == 2 {
        '2'
    } else if d == 3 {
        '3'
    } else if d == 4 {
        '4'
    } else if d == 5 {
        '5'
    } else if d == 6 {
        '6'
    } else if d == 7 {
        '7'
    } else if d == 8 {
        '8'
    } else {
        '9'
    }
}

/// A number in decimal, without sign or leading zeros.
pub open spec fn decimal(n: nat) -> Seq<char>
    decreases n,
{
    if n < 10 {
        seq![digit(n)]
    } else {
        decimal(n / 10).push(digit(n % 10))
    }
}

/// A count of hundredths as a number with two decimals.
pub open spec fn two_decimals(hundredths: nat) -> Seq<char> {
    decimal(hundredths / 100) + seq!['.', digit((hundredths / 10) % 10), digit(hundredths % 10)]
}

/// The text of one digit.
fn digit_text(d: u64) -> (text: &'static str)
    requires
        d < 10,
    ensures
        text@ == seq![digit(d as nat)],
{
    proof {
        reveal_strlit("0");
        reveal_strlit("1");
        reveal_strlit("2");
        reveal_strlit("3");
        reveal_strlit("4");
        reveal_strlit("5");
        reveal_strlit("6");
        reveal_strlit("7");
        reveal_strlit("8");
        reveal_strlit("9");
    }
    let text: &'static str = if d == 0 {
        "0"
    } else if d == 1 {
        "1"
    } else if d == 2 {
        "2"
    } else if d == 3 {
        "3"
    } else if d == 4 {
        "4"
    } else if d == 5 {
        "5"
    } else if d == 6 {
        "6"
    } else if d == 7 {
        "7"
    } else if d == 8 {
        "8"
    } else {
        "9"
    };
    text
}

/// Writes a number in decimal.
pub fn decimal_text(n: u64) -> (text: String)
    ensures
        text@ == decimal(n as nat),
{
    let mut rest: u64 = n / 10;
    let mut text: String = String::from_str(digit_text(n % 10));
    while rest > 0
        invariant
            decimal(n as nat) == if rest > 0 {
                decimal(rest as nat) + text@
            } else {
                text@
            },
        decreases rest,
    {
        let low: String = String::from_str(digit_text(rest % 10));
        text = low.concat(text.as_str());
        rest = rest / 10;
    }
    text
}

/// Writes a count of hundredths as a number with two decimals.
pub fn two_decimals_text(hundredths: u64) -> (text: String)
    ensures
        text@ == two_decimals(hundredths as nat),
{
    proof {
        reveal_strlit(".");
    }
    let mut text: String = decimal_text(hundredths / 100);
    text.append(".");
    text.append(digit_text((hundredths / 10) % 10));
    text.append(digit_text(hundredths % 10));
    text
}

/// A foreground colour of the terminal.
#[derive(Clone, Copy, Debug, PartialEq, Eq)]
pub enum Tint {
    Red,
    Green,
    Yellow,
    Blue,
    Cyan,
    White,
    BrightGreen,
    BrightYellow,
    BrightCyan,
}

/// How a piece of text is to look.
#[derive(Clone, Copy, Debug, PartialEq, Eq)]
pub enum Look {
    /// As it is.
    Plain,
    /// In a colour.
    Tinted(Tint),
    /// In a colour, and bold.
    Bold(Tint),
}

/// One piece of a line: a text, its look, and the least number of
/// characters it takes up, blanks filling it on the right.
#[derive(Clone, Debug, PartialEq, Eq)]
pub struct Piece {
    pub text: String,
    pub look: Look,
    pub width: u8,
}

/// A `Piece` as plain values.
pub struct PieceView {
    pub text: Seq<char>,
    pub look: Look,
    pub width: nat,
}

impl View for Piece {
    type V = PieceView;

    open spec fn view(&self) -> PieceView {
        PieceView { text: self.text@, look: self.look, width: self.width as nat }
    }
}

impl DeepView for Piece {
    type V = PieceView;

    open spec fn deep_view(&self) -> PieceView {
        self@
    }
}

/// The parameter of the escape sequence that selects a colour.
pub open spec fn tint_code(tint: Tint) -> Seq<char> {
    match tint {
        Tint::Red => seq!['3', '1'],
        Tint::Green => seq!['3', '2'],
        Tint::Yellow => seq!['3', '3'],
        Tint::Blue => seq!['3', '4'],
        Tint::Cyan => seq!['3', '6'],
        Tint::White => seq!['3', '7'],
        Tint::BrightGreen => seq!['9', '2'],
        Tint::BrightYellow => seq!['9', '3'],
        Tint::BrightCyan => seq!['9', '6'],
    }
}

/// The escape sequence that switches a look on.
pub open spec fn escape_on(look: Look) -> Seq<char> {
    match look {
        Look::Plain => Seq::empty(),
        Look::Tinted(tint) => seq!['\x1B', '['] + tint_code(tint) + seq!['m'],
        Look::Bold(tint) => seq!['\x1B', '[', '1', ';'] + tint_code(tint) + seq!['m'],
    }
}

/// The escape sequence that switches every look off.
pub open spec fn escape_off() -> Seq<char> {
    seq!['\x1B', '[', '0', 'm']
}

/// Whether a text holds the escape sequence that switches every look off.
pub open spec fn holds_escape_off(text: Seq<char>) -> bool {
    exists|i: int| 0 <= i && i + 4 <= text.len() && #[trigger] text.subrange(i, i + 4) == escape_off()
}

/// A run of blanks.
pub open spec fn blanks(count: nat) -> Seq<char> {
    Seq::new(count, |i: int| ' ')
}

/// A text filled with blanks on the right up to `width` characters.
pub open spec fn padded(text: Seq<char>, width: nat) -> Seq<char> {
    if text.len() >= width {
        text
    } else {
        text + blanks((width - text.len()) as nat)
    }
}

impl PieceView {
    /// The piece where the terminal is shown no colours.
    pub open spec fn bare(self) -> Seq<char> {
        padded(self.text, self.width)
    }

    /// The piece where the terminal is shown colours.
    pub open spec fn dressed(self) -> Seq<char> {
        escape_on(self.look) + padded(self.text, self.width) + escape_off()
    }

    /// Whether `out` is a way this piece may come out. A plain piece comes
    /// out bare. Another comes out bare or dressed, as the process is set;
    /// of one whose text holds the switching-off sequence itself, nothing
    /// is said once colours are on.
    pub open spec fn shows_as(self, out: Seq<char>) -> bool {
        match self.look {
            Look::Plain => out == self.bare(),
            _ => out == self.bare() || out == self.dressed() || holds_escape_off(self.text),
        }
    }
}

/// Whether `out` is a way the pieces may come out one after the other.
pub open spec fn renders_as(pieces: Seq<PieceView>, out: Seq<char>) -> bool {
    exists|parts: Seq<Seq<char>>| shown_parts(pieces, parts) && out == parts.flatten()
}

/// Whether `parts` holds, piece by piece, a way each may come out.
pub open spec fn shown_parts(pieces: Seq<PieceView>, parts: Seq<Seq<char>>) -> bool {
    &&& parts.len() == pieces.len()
    &&& forall|i: int| 0 <= i < pieces.len() ==> (#[trigger] pieces[i]).shows_as(parts[i])
}

/// Whether `lines` holds, line by line, a way the pieces of that line may
/// come out.
pub open spec fn lines_render(expected: Seq<Seq<PieceView>>, lines: Seq<Seq<char>>) -> bool {
    &&& lines.len() == expected.len()
    &&& forall|i: int| 0 <= i < expected.len() ==> renders_as(#[trigger] expected[i], lines[i])
}

/// A piece that is shown as it is.
pub open spec fn plain_piece(text: Seq<char>) -> PieceView {
    PieceView { text, look: Look::Plain, width: 0 }
}

/// A piece in a colour.
pub open spec fn tinted_piece(text: Seq<char>, tint: Tint) -> PieceView {
    PieceView { text, look: Look::Tinted(tint), width: 0 }
}

/// A piece in a colour, and bold.
pub open spec fn bold_piece(text: Seq<char>, tint: Tint) -> PieceView {
    PieceView { text, look: Look::Bold(tint), width: 0 }
}

/// `Colorize::color` of the crate `colored` on a `&str`, then `Display` of
/// the `ColoredString` with a least width, left-aligned. Where the process
/// shows no colours the result is the text, padded. Where it does, that
/// stands between the escape sequence of the colour and the one that
/// switches it off; this is claimed only of a text that does not hold the
/// latter, which `colored` would rewrite.
#[verifier::external_body]
fn paint(text: &str, tint: Tint, width: u8) -> (out: String)
    ensures
        ({
            let piece = PieceView { text: text@, look: Look::Tinted(tint), width: width as nat };
            out@ == piece.bare() || out@ == piece.dressed() || holds_escape_off(text@)
        }),
{
    let width: usize = usize::from(width);
    let color = match tint {
        Tint::Red => colored::Color::Red,
        Tint::Green => colored::Color::Green,
        Tint::Yellow => colored::Color::Yellow,
        Tint::Blue => colored::Color::Blue,
        Tint::Cyan => colored::Color::Cyan,
        Tint::White => colored::Color::White,
        Tint::BrightGreen => colored::Color::BrightGreen,
        Tint::BrightYellow => colored::Color::BrightYellow,
        Tint::BrightCyan => colored::Color::BrightCyan,
    };
    format!("{:<width$}", text.color(color))
}

/// As `paint`, with `Colorize::bold` applied to the coloured text before it
/// is shown: the escape sequence then selects bold and the colour.
#[verifier::external_body]
fn paint_bold(text: &str, tint: Tint, width: u8) -> (out: String)
    ensures
        ({
            let piece = PieceView { text: text@, look: Look::Bold(tint), width: width as nat };
            out@ == piece.bare() || out@ == piece.dressed() || holds_escape_off(text@)
        }),
{
    let width: usize = usize::from(width);
    let color = match tint {
        Tint::Red => colored::Color::Red,
        Tint::Green => colored::Color::Green,
        Tint::Yellow => colored::Color::Yellow,
        Tint::Blue => colored::Color::Blue,
        Tint::Cyan => colored::Color::Cyan,
        Tint::White => colored::Color::White,
        Tint::BrightGreen => colored::Color::BrightGreen,
        Tint::BrightYellow => colored::Color::BrightYellow,
        Tint::BrightCyan => colored::Color::BrightCyan,
    };
    format!("{:<width$}", text.color(color).bold())
}

/// What `Debug` writes for a text: the text between double quotes, with
/// the characters that cannot stand there escaped.
pub uninterp spec fn debug_form(text: Seq<char>) -> Seq<char>;

/// `Debug` of std for `str`, through `format!`.
#[verifier::external_body]
fn quoted(text: &str) -> (out: String)
    ensures
        out@ == debug_form(text@),
{
    format!("{:?}", text)
}

impl Piece {
    /// A piece that is shown as it is.
    pub fn plain(text: &str) -> (piece: Piece)
        ensures
            piece@ == plain_piece(text@),
    {
        Piece { text: String::from_str(text), look: Look::Plain, width: 0 }
    }

    /// A piece in a colour.
    pub fn tinted(text: &str, tint: Tint) -> (piece: Piece)
        ensures
            piece@ == tinted_piece(text@, tint),
    {
        Piece { text: String::from_str(text), look: Look::Tinted(tint), width: 0 }
    }

    /// A piece in a colour, and bold.
    pub fn bold(text: &str, tint: Tint) -> (piece: Piece)
        ensures
            piece@ == bold_piece(text@, tint),
    {
        Piece { text: String::from_str(text), look: Look::Bold(tint), width: 0 }
    }

    /// A plain piece that holds a text as `Debug` writes it.
    pub fn quoted(text: &str) -> (piece: Piece)
        ensures
            piece@ == plain_piece(debug_form(text@)),
    {
        Piece { text: quoted(text), look: Look::Plain, width: 0 }
    }

    /// A piece like this one.
    pub fn duplicate(&self) -> (piece: Piece)
        ensures
            piece@ == self@,
    {
        Piece { text: self.text.clone(), look: self.look, width: self.width }
    }

    /// The same piece with a least width.
    pub fn at_least(self, width: u8) -> (piece: Piece)
        ensures
            piece@ == (PieceView { width: width as nat, ..self@ }),
    {
        Piece { text: self.text, look: self.look, width }
    }

    /// The piece as the terminal is to get it.
    pub fn show(&self) -> (out: String)
        ensures
            self@.shows_as(out@),
    {
        match self.look {
            Look::Plain => pad(self.text.as_str(), self.width),
            Look::Tinted(tint) => paint(self.text.as_str(), tint, self.width),
            Look::Bold(tint) => paint_bold(self.text.as_str(), tint, self.width),
        }
    }
}

/// Fills a text with blanks on the right up to `width` characters.
pub fn pad(text: &str, width: u8) -> (out: String)
    ensures
        out@ == padded(text@, width as nat),
{
    let mut out: String = String::from_str(text);
    let mut length: usize = text.unicode_len();
    while length < width as usize
        invariant
            length >= text@.len(),
            length == text@.len() || length <= width,
            out@ == text@ + blanks((length - text@.len()) as nat),
        decreases width - length,
    {
        proof {
            reveal_strlit(" ");
        }
        out.append(" ");
        length = length + 1;
    }
    out
}

/// Puts texts one after the other.
pub fn assemble(parts: &Vec<String>) -> (out: String)
    ensures
        out@ == parts.deep_view().flatten(),
{
    let mut out: String = String::new();
    let mut i: usize = 0;
    while i < parts.len()
        invariant
            i <= parts.len(),
            out@ == parts.deep_view().take(i as int).flatten(),
        decreases parts.len() - i,
    {
        proof {
            let done = parts.deep_view().take(i as int);
            assert(parts.deep_view().take(i + 1) =~= done.push(parts[i as int]@));
            done.lemma_flatten_push(parts[i as int]@);
        }
        out.append(parts[i].as_str());
        i = i + 1;
    }
    assert(parts.deep_view().take(i as int) =~= parts.deep_view());
    out
}

/// The line that the pieces make, each shown as the terminal is to get it.
pub fn render(pieces: &Vec<Piece>) -> (line: String)
    ensures
        renders_as(pieces.deep_view(), line@),
{
    let mut parts: Vec<String> = Vec::new();
    let mut i: usize = 0;
    while i < pieces.len()
        invariant
            i <= pieces.len(),
            parts.len() == i,
            forall|k: int| 0 <= k < i ==> (#[trigger] pieces.deep_view()[k]).shows_as(parts[k]@),
        decreases pieces.len() - i,
    {
        let part: String = pieces[i].show();
        parts.push(part);
        i = i + 1;
    }
    assemble(&parts)
}

/// Where a line goes.
#[derive(Clone, Copy, Debug, PartialEq, Eq)]
pub enum Stream {
    /// The output of the program.
    Output,
    /// The channel for what went wrong.
    Errors,
}

/// A line to be printed, and where.
#[derive(Clone, Debug, PartialEq, Eq)]
pub struct Emission {
    pub stream: Stream,
    pub line: String,
}

/// A line that is expected: where it goes, and the pieces it is made of.
pub struct Expected {
    pub stream: Stream,
    pub pieces: Seq<PieceView>,
}

/// Whether `got` holds, line by line, the expected stream and a way the
/// expected pieces may come out.
pub open spec fn emits(expected: Seq<Expected>, got: Seq<Emission>) -> bool {
    &&& got.len() == expected.len()
    &&& forall|i: int|
        0 <= i < expected.len() ==> got[i].stream == (#[trigger] expected[i]).stream && renders_as(
            expected[i].pieces,
            got[i].line@,
        )
}

/// Lines expected on one stream.
pub open spec fn expected_on(stream: Stream, lines: Seq<Seq<PieceView>>) -> Seq<Expected> {
    Seq::new(lines.len(), |i: int| Expected { stream, pieces: lines[i] })
}

/// Puts lines on a stream.
pub fn emit_on(stream: Stream, lines: Vec<String>) -> (got: Vec<Emission>)
    ensures
        got.len() == lines.len(),
        forall|i: int| 0 <= i < lines.len() ==> got[i].stream == stream && got[i].line@ == lines[i]@,
{
    let mut got: Vec<Emission> = Vec::new();
    let mut i: usize = 0;
    while i < lines.len()
        invariant
            i <= lines.len(),
            got.len() == i,
            forall|k: int| 0 <= k < i ==> got[k].stream == stream && got[k].line@ == lines[k]@,
        decreases lines.len() - i,
    {
        got.push(Emission { stream, line: lines[i].clone() });
        i = i + 1;
    }
    got
}

/// A size in bytes with its unit: the value with two decimals, the unit
/// in its colour.
pub open spec fn size_pieces(size: nat) -> Seq<PieceView> {
    seq![
        plain_piece(two_decimals(scaled_hundredths(size))),
        plain_piece(" "@),
        tinted_piece(unit_label(unit_index(size)), Tint::BrightGreen),
    ]
}

/// Appends a plain piece.
pub fn push_plain(pieces: &mut Vec<Piece>, text: &str)
    ensures
        final(pieces).deep_view() == old(pieces).deep_view() + seq![plain_piece(text@)],
{
    pieces.push(Piece::plain(text));
}

/// Appends a size in bytes with its unit.
pub fn push_size(pieces: &mut Vec<Piece>, size: u64)
    ensures
        final(pieces).deep_view() == old(pieces).deep_view() + size_pieces(size as nat),
{
    let (hundredths, unit) = format_size(size);
    let amount: String = two_decimals_text(hundredths);
    pieces.push(Piece::plain(amount.as_str()));
    pieces.push(Piece::plain(" "));
    pieces.push(Piece::tinted(unit_name(unit), Tint::BrightGreen));
}

} // verus!
