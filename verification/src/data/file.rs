//! Files: what is known of one, and the statistics of its text.

use crate::diagnostic::Diagnostic;
use crate::diagnostic::DiagnosticView;
use crate::render::bold_piece;
use crate::render::decimal;
use crate::render::decimal_text;
use crate::render::plain_piece;
use crate::render::push_plain;
use crate::render::push_size;
use crate::render::render;
use crate::render::renders_as;
use crate::render::size_pieces;
use crate::render::tinted_piece;
use crate::render::Piece;
use crate::render::PieceView;
use crate::render::Tint;
use vstd::prelude::*;
use vstd::std_specs::iter::IteratorSpec;
use vstd::string::StrSliceExecFns;
use vstd::string::StringExecFns;

verus! {

broadcast use vstd::string::group_string_axioms;

/// Whether a character has the Unicode property `White_Space`.
pub open spec fn is_whitespace(c: char) -> bool {
    let u = c as u32;
    ||| 0x09 <= u <= 0x0D
    ||| u == 0x20
    ||| u == 0x85
    ||| u == 0xA0
    ||| u == 0x1680
    ||| 0x2000 <= u <= 0x200A
    ||| u == 0x2028
    ||| u == 0x2029
    ||| u == 0x202F
    ||| u == 0x205F
    ||| u == 0x3000
}

/// Whether a word begins at position `i`: a character that is not white
/// space, at the start of the text or right after white space.
pub open spec fn starts_word(text: Seq<char>, i: int) -> bool
    recommends
        0 <= i < text.len(),
{
    !is_whitespace(text[i]) && (i == 0 || is_whitespace(text[i - 1]))
}

/// How many words begin before position `upto`.
pub open spec fn words_before(text: Seq<char>, upto: int) -> nat
    recommends
        0 <= upto <= text.len(),
    decreases upto,
{
    if upto <= 0 {
        0
    } else {
        words_before(text, upto - 1) + if starts_word(text, upto - 1) {
            1nat
        } else {
            0nat
        }
    }
}

/// The number of words of a text: its maximal runs of characters that are
/// not white space.
pub open spec fn word_count(text: Seq<char>) -> nat {
    words_before(text, text.len() as int)
}

/// How many line feeds stand before position `upto`.
pub open spec fn newlines_before(text: Seq<char>, upto: int) -> nat
    recommends
        0 <= upto <= text.len(),
    decreases upto,
{
    if upto <= 0 {
        0
    } else {
        newlines_before(text, upto - 1) + if text[upto - 1] == '\n' {
            1nat
        } else {
            0nat
        }
    }
}

/// The number of lines of a text: one for each line feed, and one more for
/// what follows the last line feed unless nothing does.
pub open spec fn line_count(text: Seq<char>) -> nat {
    newlines_before(text, text.len() as int) + if text.len() > 0 && text.last() != '\n' {
        1nat
    } else {
        0nat
    }
}

/// Whether `c` is white space.
pub fn whitespace(c: char) -> (yes: bool)
    ensures
        yes == is_whitespace(c),
{
    let u: u32 = c as u32;
    (0x09 <= u && u <= 0x0D) || u == 0x20 || u == 0x85 || u == 0xA0 || u == 0x1680 || (0x2000 <= u
        && u <= 0x200A) || u == 0x2028 || u == 0x2029 || u == 0x202F || u == 0x205F || u == 0x3000
}

/// Counts the words of `content`.
pub fn count_words(content: &str) -> (count: usize)
    ensures
        count == word_count(content@),
{
    let total: usize = content.unicode_len();
    let mut rest = content.chars();
    let mut seen: usize = 0;
    let mut count: usize = 0;
    let mut in_word: bool = false;
    loop
        invariant
            rest.obeys_prophetic_iter_laws(),
            total == content@.len(),
            seen <= total,
            rest.remaining() == content@.skip(seen as int),
            count == words_before(content@, seen as int),
            count <= seen,
            in_word == (seen > 0 && !is_whitespace(content@[seen - 1])),
        ensures
            count == words_before(content@, content@.len() as int),
        decreases total - seen,
    {
        match rest.next() {
            Some(c) => {
                let blank: bool = whitespace(c);
                if !blank && !in_word {
                    count = count + 1;
                }
                in_word = !blank;
                seen = seen + 1;
            },
            None => {
                break ;
            },
        }
    }
    count
}

/// Counts the lines of `content`.
pub fn count_lines(content: &str) -> (count: usize)
    ensures
        count == line_count(content@),
{
    let total: usize = content.unicode_len();
    let mut rest = content.chars();
    let mut seen: usize = 0;
    let mut feeds: usize = 0;
    let mut open_line: bool = false;
    loop
        invariant
            rest.obeys_prophetic_iter_laws(),
            total == content@.len(),
            seen <= total,
            rest.remaining() == content@.skip(seen as int),
            feeds == newlines_before(content@, seen as int),
            open_line == (seen > 0 && content@[seen - 1] != '\n'),
            feeds + (if open_line { 1int } else { 0int }) <= seen,
        ensures
            seen == total,
            feeds == newlines_before(content@, seen as int),
            open_line == (seen > 0 && content@[seen - 1] != '\n'),
            feeds + (if open_line { 1int } else { 0int }) <= seen,
        decreases total - seen,
    {
        match rest.next() {
            Some(c) => {
                if c == '\n' {
                    feeds = feeds + 1;
                    open_line = false;
                } else {
                    open_line = true;
                }
                seen = seen + 1;
            },
            None => {
                break ;
            },
        }
    }
    if open_line {
        feeds + 1
    } else {
        feeds
    }
}

/// Counts the characters of `content`: its Unicode scalar values, not its
/// bytes.
pub fn count_characters(content: &str) -> (count: usize)
    ensures
        count == content@.len(),
{
    content.unicode_len()
}

/// What the file system gave for a path taken as a file: the length in its
/// metadata, or why that could not be read, and its text where that was
/// read and is text.
#[derive(Debug, PartialEq, Eq)]
pub struct FileProbe {
    pub metadata: Result<u64, String>,
    pub content: Option<String>,
}

/// A `FileProbe` as plain values.
pub struct FileProbeView {
    pub metadata: Result<u64, Seq<char>>,
    pub content: Option<Seq<char>>,
}

impl View for FileProbe {
    type V = FileProbeView;

    open spec fn view(&self) -> FileProbeView {
        FileProbeView {
            metadata: match self.metadata {
                Ok(size) => Ok(size),
                Err(cause) => Err(cause@),
            },
            content: match self.content {
                Some(text) => Some(text@),
                None => None,
            },
        }
    }
}

/// A file: its path, its size in bytes, and the statistics of its text,
/// which are zero where they were not asked for or the text could not be
/// had.
#[derive(Clone, Debug, PartialEq, Eq)]
pub struct FileType {
    pub path: String,
    pub size: u64,
    pub word_count: usize,
    pub line_count: usize,
    pub character_count: usize,
}

/// A `FileType` as plain values.
pub struct FileView {
    pub path: Seq<char>,
    pub size: nat,
    pub word_count: nat,
    pub line_count: nat,
    pub character_count: nat,
}

impl View for FileType {
    type V = FileView;

    open spec fn view(&self) -> FileView {
        FileView {
            path: self.path@,
            size: self.size as nat,
            word_count: self.word_count as nat,
            line_count: self.line_count as nat,
            character_count: self.character_count as nat,
        }
    }
}

/// The file that a probe resolves to: none without metadata; else one of
/// the size found there, with the statistics of the text where they are
/// asked for and there is a text.
pub open spec fn resolved(path: Seq<char>, read_content: bool, probe: FileProbeView) -> Option<
    FileView,
> {
    match probe.metadata {
        Err(_) => None,
        Ok(size) => Some(
            match probe.content {
                Some(text) if read_content => FileView {
                    path,
                    size: size as nat,
                    word_count: word_count(text),
                    line_count: line_count(text),
                    character_count: text.len(),
                },
                _ => FileView {
                    path,
                    size: size as nat,
                    word_count: 0,
                    line_count: 0,
                    character_count: 0,
                },
            },
        ),
    }
}

/// What resolving a probe reports: the cause, where there is no metadata.
pub open spec fn resolve_log(path: Seq<char>, probe: FileProbeView) -> Seq<DiagnosticView> {
    match probe.metadata {
        Err(cause) => seq![DiagnosticView::FileUnreadable { path, cause }],
        Ok(_) => Seq::empty(),
    }
}

/// A count: how many, or that there are none.
pub open spec fn quantity_piece(count: nat) -> PieceView {
    if count == 0 {
        bold_piece("No"@, Tint::Red)
    } else {
        tinted_piece(decimal(count), Tint::White)
    }
}

/// The name of what is counted, in the singular where `single` holds.
pub open spec fn noun_piece(single: bool, singular: Seq<char>, plural: Seq<char>) -> PieceView {
    tinted_piece(
        if single {
            singular
        } else {
            plural
        },
        Tint::Green,
    )
}

/// A count and the name of what is counted.
pub open spec fn count_pieces(
    count: nat,
    single: bool,
    singular: Seq<char>,
    plural: Seq<char>,
) -> Seq<PieceView> {
    seq![quantity_piece(count), plain_piece(" "@), noun_piece(single, singular, plural)]
}

/// The start of a line about a file: the sign, the word and the path.
pub open spec fn file_heading(path: Seq<char>) -> Seq<PieceView> {
    seq![
        tinted_piece("📄"@, Tint::BrightCyan),
        plain_piece(" "@),
        tinted_piece("File:"@, Tint::Cyan),
        plain_piece(" "@),
        bold_piece(path, Tint::Blue),
    ]
}

impl FileView {
    /// The line that gives the size, as an entry of a directory is listed.
    pub open spec fn info_pieces(self) -> Seq<PieceView> {
        seq![
            plain_piece("   "@),
            tinted_piece("📄"@, Tint::BrightCyan),
            plain_piece(" "@),
            PieceView { text: "File:"@, look: crate::render::Look::Tinted(Tint::Cyan), width: 12 },
            plain_piece(" "@),
            bold_piece(self.path, Tint::Blue),
            plain_piece(": "@),
        ] + size_pieces(self.size)
    }

    /// The line that gives the number of words.
    pub open spec fn words_pieces(self) -> Seq<PieceView> {
        file_heading(self.path) + seq![plain_piece(": "@)] + count_pieces(
            self.word_count,
            self.word_count == 1,
            "Word"@,
            "Words"@,
        )
    }

    /// The line that gives the number of lines.
    pub open spec fn lines_pieces(self) -> Seq<PieceView> {
        file_heading(self.path) + seq![plain_piece(": "@)] + count_pieces(
            self.line_count,
            self.line_count == 1,
            "Line"@,
            "Lines"@,
        )
    }

    /// The line that gives the number of characters. The noun stands in
    /// the singular where the file has one line.
    pub open spec fn chars_pieces(self) -> Seq<PieceView> {
        file_heading(self.path) + seq![plain_piece(": "@)] + count_pieces(
            self.character_count,
            self.line_count == 1,
            "Character"@,
            "Characters"@,
        )
    }

    /// The line that gives the three counts: characters, words, lines. As
    /// in `chars_pieces`, the lines decide between character and
    /// characters.
    pub open spec fn all_pieces(self) -> Seq<PieceView> {
        file_heading(self.path) + seq![plain_piece(": "@)] + count_pieces(
            self.character_count,
            self.line_count == 1,
            "Character"@,
            "Characters"@,
        ) + seq![plain_piece(", "@)] + count_pieces(
            self.word_count,
            self.word_count == 1,
            "Word"@,
            "Words"@,
        ) + seq![plain_piece(", "@)] + count_pieces(
            self.line_count,
            self.line_count == 1,
            "Line"@,
            "Lines"@,
        )
    }
}

/// Appends a count and the name of what is counted.
pub fn push_count(
    pieces: &mut Vec<Piece>,
    count: usize,
    single: bool,
    singular: &str,
    plural: &str,
)
    ensures
        final(pieces).deep_view() == old(pieces).deep_view() + count_pieces(
            count as nat,
            single,
            singular@,
            plural@,
        ),
{
    if count == 0 {
        pieces.push(Piece::bold("No", Tint::Red));
    } else {
        let number: String = decimal_text(count as u64);
        pieces.push(Piece::tinted(number.as_str(), Tint::White));
    }
    pieces.push(Piece::plain(" "));
    if single {
        pieces.push(Piece::tinted(singular, Tint::Green));
    } else {
        pieces.push(Piece::tinted(plural, Tint::Green));
    }
}

/// Appends the start of a line about a file.
pub fn push_heading(pieces: &mut Vec<Piece>, path: &str)
    ensures
        final(pieces).deep_view() == old(pieces).deep_view() + file_heading(path@),
{
    pieces.push(Piece::tinted("📄", Tint::BrightCyan));
    pieces.push(Piece::plain(" "));
    pieces.push(Piece::tinted("File:", Tint::Cyan));
    pieces.push(Piece::plain(" "));
    pieces.push(Piece::bold(path, Tint::Blue));
}

impl FileType {
    /// The file at `path` as the probe shows it. Without metadata there is
    /// no file, and the cause goes to the log. The statistics are those of
    /// the text where `read_content` asks for them and the probe holds a
    /// text, and zero otherwise.
    pub fn new(path: &str, read_content: bool, probe: &FileProbe, log: &mut Vec<Diagnostic>) -> (file:
        Option<FileType>)
        ensures
            match file {
                Some(file) => resolved(path@, read_content, probe@) == Some(file@),
                None => resolved(path@, read_content, probe@) is None,
            },
            final(log).deep_view() == old(log).deep_view() + resolve_log(path@, probe@),
    {
        match &probe.metadata {
            Ok(size) => {
                match &probe.content {
                    Some(text) if read_content => {
                        let words: usize = count_words(text.as_str());
                        let lines: usize = count_lines(text.as_str());
                        let chars: usize = count_characters(text.as_str());
                        Some(
                            FileType {
                                path: String::from_str(path),
                                size: *size,
                                word_count: words,
                                line_count: lines,
                                character_count: chars,
                            },
                        )
                    },
                    _ => Some(
                        FileType {
                            path: String::from_str(path),
                            size: *size,
                            word_count: 0,
                            line_count: 0,
                            character_count: 0,
                        },
                    ),
                }
            },
            Err(cause) => {
                log.push(
                    Diagnostic::FileUnreadable { path: String::from_str(path), cause: cause.clone() },
                );
                None
            },
        }
    }

    /// The line that gives the size, as an entry of a directory is listed.
    pub fn print_info(&self) -> (line: String)
        ensures
            renders_as(self@.info_pieces(), line@),
    {
        let mut pieces: Vec<Piece> = Vec::new();
        pieces.push(Piece::plain("   "));
        pieces.push(Piece::tinted("📄", Tint::BrightCyan));
        pieces.push(Piece::plain(" "));
        pieces.push(Piece::tinted("File:", Tint::Cyan).at_least(12));
        pieces.push(Piece::plain(" "));
        pieces.push(Piece::bold(self.path.as_str(), Tint::Blue));
        pieces.push(Piece::plain(": "));
        push_size(&mut pieces, self.size);
        assert(pieces.deep_view() =~= self@.info_pieces());
        render(&pieces)
    }

    /// The line that gives the number of words.
    pub fn print_words_count(&self) -> (line: String)
        ensures
            renders_as(self@.words_pieces(), line@),
    {
        let mut pieces: Vec<Piece> = Vec::new();
        push_heading(&mut pieces, self.path.as_str());
        push_plain(&mut pieces, ": ");
        push_count(&mut pieces, self.word_count, self.word_count == 1, "Word", "Words");
        render(&pieces)
    }

    /// The line that gives the number of lines.
    pub fn print_line_count(&self) -> (line: String)
        ensures
            renders_as(self@.lines_pieces(), line@),
    {
        let mut pieces: Vec<Piece> = Vec::new();
        push_heading(&mut pieces, self.path.as_str());
        push_plain(&mut pieces, ": ");
        push_count(&mut pieces, self.line_count, self.line_count == 1, "Line", "Lines");
        render(&pieces)
    }

    /// The line that gives the number of characters.
    pub fn print_chars_count(&self) -> (line: String)
        ensures
            renders_as(self@.chars_pieces(), line@),
    {
        let mut pieces: Vec<Piece> = Vec::new();
        push_heading(&mut pieces, self.path.as_str());
        push_plain(&mut pieces, ": ");
        push_count(
            &mut pieces,
            self.character_count,
            self.line_count == 1,
            "Character",
            "Characters",
        );
        render(&pieces)
    }

    /// The line that gives the three counts: characters, words, lines.
    pub fn print_all_info(&self) -> (line: String)
        ensures
            renders_as(self@.all_pieces(), line@),
    {
        let mut pieces: Vec<Piece> = Vec::new();
        push_heading(&mut pieces, self.path.as_str());
        push_plain(&mut pieces, ": ");
        push_count(
            &mut pieces,
            self.character_count,
            self.line_count == 1,
            "Character",
            "Characters",
        );
        push_plain(&mut pieces, ", ");
        push_count(&mut pieces, self.word_count, self.word_count == 1, "Word", "Words");
        push_plain(&mut pieces, ", ");
        push_count(&mut pieces, self.line_count, self.line_count == 1, "Line", "Lines");
        render(&pieces)
    }
}

} // verus!
