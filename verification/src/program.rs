//! The command line: what the arguments ask for, and the lines that answer
//! once the file system has been looked at.

use crate::data::directory::build_log;
use crate::data::directory::built;
use crate::data::directory::bytes_under;
use crate::data::directory::DirProbe;
use crate::data::directory::DirProbeView;
use crate::data::directory::DirectoryType;
use crate::data::file::resolve_log;
use crate::data::file::resolved;
use crate::data::file::FileProbe;
use crate::data::file::FileProbeView;
use crate::data::file::FileType;
use crate::data::file::FileView;
use crate::diagnostic::Diagnostic;
use crate::diagnostic::DiagnosticView;
use crate::render::bold_piece;
use crate::render::emit_on;
use crate::render::emits;
use crate::render::expected_on;
use crate::render::lines_render;
use crate::render::plain_piece;
use crate::render::render;
use crate::render::renders_as;
use crate::render::tinted_piece;
use crate::render::Emission;
use crate::render::Expected;
use crate::render::Look;
use crate::render::Piece;
use crate::render::PieceView;
use crate::render::Stream;
use crate::render::Tint;
use vstd::prelude::*;
use vstd::string::StrSliceExecFns;

verus! {

/// What can be asked of a file.
#[derive(Clone, Copy, Debug, PartialEq, Eq)]
pub enum FileFlag {
    /// Its size.
    Info,
    /// The number of its words.
    Words,
    /// The number of its lines.
    Lines,
    /// The number of its characters.
    Chars,
    /// The three counts.
    All,
}

/// What can be asked for.
#[derive(Clone, Copy, Debug, PartialEq, Eq)]
pub enum Flag {
    /// Something of a file.
    File(FileFlag),
    /// The summary of a directory.
    Dir,
    /// The whole tree of a directory.
    DirAll,
}

/// One thing to do, in the order of the arguments.
#[derive(Clone, Debug, PartialEq, Eq)]
pub enum Step {
    /// Print the help.
    Help,
    /// Say that the flag came without the path it needs.
    Missing(Flag),
    /// Look at the file at `path` and answer `flag`.
    File { flag: FileFlag, path: String },
    /// Look at the directory at `path` and report it, in whole where `all`
    /// holds.
    Directory { all: bool, path: String },
}

/// A `Step` as plain values.
pub enum StepView {
    Help,
    Missing(Flag),
    File { flag: FileFlag, path: Seq<char> },
    Directory { all: bool, path: Seq<char> },
}

impl View for Step {
    type V = StepView;

    open spec fn view(&self) -> StepView {
        match self {
            Step::Help => StepView::Help,
            Step::Missing(flag) => StepView::Missing(*flag),
            Step::File { flag, path } => StepView::File { flag: *flag, path: path@ },
            Step::Directory { all, path } => StepView::Directory { all: *all, path: path@ },
        }
    }
}

impl DeepView for Step {
    type V = StepView;

    open spec fn deep_view(&self) -> StepView {
        self@
    }
}

/// The flag that an argument names, if it names one that takes a path.
pub open spec fn flag_of(text: Seq<char>) -> Option<Flag> {
    if text == seq!['-', 'f'] || text == seq!['-', 'F'] {
        Some(Flag::File(FileFlag::Info))
    } else if text == seq!['-', 'w'] || text == seq!['-', 'W'] {
        Some(Flag::File(FileFlag::Words))
    } else if text == seq!['-', 'l'] || text == seq!['-', 'L'] {
        Some(Flag::File(FileFlag::Lines))
    } else if text == seq!['-', 'm'] || text == seq!['-', 'M'] {
        Some(Flag::File(FileFlag::Chars))
    } else if text == seq!['-', 'i'] || text == seq!['-', 'I'] {
        Some(Flag::File(FileFlag::All))
    } else if text == seq!['-', 'd'] {
        Some(Flag::Dir)
    } else if text == seq!['-', 'd', 'a'] || text == seq!['-', 'a', 'd'] {
        Some(Flag::DirAll)
    } else {
        None
    }
}

/// The step that a flag asks for, with the path that follows it.
pub open spec fn step_for(flag: Flag, path: Seq<char>) -> StepView {
    match flag {
        Flag::File(flag) => StepView::File { flag, path },
        Flag::Dir => StepView::Directory { all: false, path },
        Flag::DirAll => StepView::Directory { all: true, path },
    }
}

/// The steps that the arguments from position `from` on ask for. An
/// argument that names no flag with a path asks for the help, and the next
/// is read. The first that names one ends the reading: it asks for its step
/// with the argument that follows, or for the complaint that none does.
pub open spec fn plan_from(args: Seq<Seq<char>>, from: int) -> Seq<StepView>
    decreases args.len() - from,
{
    if from < 0 || from >= args.len() {
        Seq::empty()
    } else {
        match flag_of(args[from]) {
            Some(flag) => if from + 1 < args.len() {
                seq![step_for(flag, args[from + 1])]
            } else {
                seq![StepView::Missing(flag)]
            },
            None => seq![StepView::Help] + plan_from(args, from + 1),
        }
    }
}

/// The steps that the arguments of the program ask for. The first
/// argument is the name of the program; with nothing after it the help is
/// asked for.
pub open spec fn plan(args: Seq<Seq<char>>) -> Seq<StepView> {
    if args.len() > 1 {
        plan_from(args, 1)
    } else {
        seq![StepView::Help]
    }
}

/// The line that complains of a flag without its path. The flags for
/// characters and for all counts complain in the words of the flag for
/// lines, and both flags for a directory in those of the first.
pub open spec fn missing_pieces(flag: Flag) -> Seq<PieceView> {
    seq![
        bold_piece("ERROR:"@, Tint::Red),
        plain_piece(
            match flag {
                Flag::File(FileFlag::Info) => " -f requires a file path"@,
                Flag::File(FileFlag::Words) => " -w requires a file path"@,
                Flag::File(_) => " -l requires a file path"@,
                _ => " -d requires a directory path"@,
            },
        ),
    ]
}

/// The line that says that there is no file at a path.
pub open spec fn no_file_pieces(path: Seq<char>) -> Seq<PieceView> {
    seq![
        bold_piece("ERROR:"@, Tint::Red),
        plain_piece(" Cannot find the file with the path: "@),
        tinted_piece(path, Tint::Green),
    ]
}

/// The line that says that a path cannot be read as a directory.
pub open spec fn no_directory_pieces(path: Seq<char>) -> Seq<PieceView> {
    seq![
        bold_piece("ERROR:"@, Tint::Red),
        plain_piece(" Cannot read the directory: "@),
        plain_piece(path),
    ]
}

/// The line that answers a flag for a file.
pub open spec fn answer_pieces(flag: FileFlag, file: FileView) -> Seq<PieceView> {
    match flag {
        FileFlag::Info => file.info_pieces(),
        FileFlag::Words => file.words_pieces(),
        FileFlag::Lines => file.lines_pieces(),
        FileFlag::Chars => file.chars_pieces(),
        FileFlag::All => file.all_pieces(),
    }
}

/// The lines of a log, each on the error stream.
pub open spec fn log_expected(log: Seq<DiagnosticView>) -> Seq<Expected> {
    Seq::new(log.len(), |i: int| Expected { stream: Stream::Errors, pieces: log[i].pieces() })
}

/// What is printed for a flag for a file: what resolving the file logs,
/// then the answer, or that there is no such file.
pub open spec fn file_expected(flag: FileFlag, path: Seq<char>, probe: FileProbeView) -> Seq<
    Expected,
> {
    log_expected(resolve_log(path, probe)) + seq![
        match resolved(path, true, probe) {
            Some(file) => Expected { stream: Stream::Output, pieces: answer_pieces(flag, file) },
            None => Expected { stream: Stream::Errors, pieces: no_file_pieces(path) },
        },
    ]
}

/// What is printed for a flag for a directory: what building the directory
/// logs, then its summary or its whole tree, or that it cannot be read.
pub open spec fn directory_expected(all: bool, path: Seq<char>, probe: DirProbeView) -> Seq<
    Expected,
> {
    log_expected(build_log(path, probe)) + match built(path, probe) {
        Some(dir) => expected_on(
            Stream::Output,
            if all {
                dir.report(true)
            } else {
                seq![dir.simple_pieces()]
            },
        ),
        None => seq![Expected { stream: Stream::Errors, pieces: no_directory_pieces(path) }],
    }
}

/// The lines of a log, each for the error stream.
pub fn log_emissions(log: &Vec<Diagnostic>) -> (got: Vec<Emission>)
    ensures
        emits(log_expected(log.deep_view()), got@),
{
    let mut got: Vec<Emission> = Vec::new();
    let mut i: usize = 0;
    while i < log.len()
        invariant
            i <= log.len(),
            got.len() == i,
            forall|k: int|
                0 <= k < i ==> (#[trigger] got[k]).stream == Stream::Errors && renders_as(
                    log[k]@.pieces(),
                    got[k].line@,
                ),
        decreases log.len() - i,
    {
        let line: String = log[i].print();
        got.push(Emission { stream: Stream::Errors, line });
        i = i + 1;
    }
    assert forall|k: int| 0 <= k < log.len() implies got[k].stream == (#[trigger] log_expected(
        log.deep_view(),
    )[k]).stream && renders_as(log_expected(log.deep_view())[k].pieces, got[k].line@) by {
    }
    got
}

/// The flag that an argument names, if it names one that takes a path.
pub fn read_flag(text: &str) -> (flag: Option<Flag>)
    ensures
        flag == flag_of(text@),
{
    let length: usize = text.unicode_len();
    if length == 2 {
        let dash: char = text.get_char(0);
        let letter: char = text.get_char(1);
        assert(text@ =~= seq![dash, letter]);
        if dash != '-' {
            None
        } else if letter == 'f' || letter == 'F' {
            Some(Flag::File(FileFlag::Info))
        } else if letter == 'w' || letter == 'W' {
            Some(Flag::File(FileFlag::Words))
        } else if letter == 'l' || letter == 'L' {
            Some(Flag::File(FileFlag::Lines))
        } else if letter == 'm' || letter == 'M' {
            Some(Flag::File(FileFlag::Chars))
        } else if letter == 'i' || letter == 'I' {
            Some(Flag::File(FileFlag::All))
        } else if letter == 'd' {
            Some(Flag::Dir)
        } else {
            None
        }
    } else if length == 3 {
        let dash: char = text.get_char(0);
        let first: char = text.get_char(1);
        let second: char = text.get_char(2);
        assert(text@ =~= seq![dash, first, second]);
        if dash == '-' && ((first == 'd' && second == 'a') || (first == 'a' && second == 'd')) {
            Some(Flag::DirAll)
        } else {
            None
        }
    } else {
        None
    }
}

/// A line of the help that explains a flag.
pub open spec fn option_line(flag: Seq<char>, explanation: Seq<char>) -> Seq<PieceView> {
    seq![
        plain_piece("    "@),
        PieceView { text: flag, look: Look::Tinted(Tint::Blue), width: 20 },
        plain_piece(" "@),
        plain_piece(explanation),
    ]
}

/// The start of the help: what the program is and how it is called.
pub open spec fn help_head() -> Seq<Seq<PieceView>> {
    seq![
        seq![bold_piece("wc_tool - Word and File Count Utility\n"@, Tint::Green)],
        seq![bold_piece("USAGE:"@, Tint::Yellow)],
        seq![plain_piece("    wc_tool [OPTIONS]\n"@)],
        seq![bold_piece("OPTIONS:"@, Tint::Yellow)],
    ]
}

/// The flags of the help, each with what it does.
pub open spec fn help_options() -> Seq<Seq<PieceView>> {
    seq![
        option_line("-f/F <FILE>"@, "Display file info (size, basic info)"@),
        option_line("-w/W <FILE>"@, "Display word count of the file"@),
        option_line("-l/L <FILE>"@, "Display line count of the file"@),
        option_line("-m/M <FILE>"@, "Display character count of the file"@),
        option_line("-i/I <FILE>"@, "Display all info (size, words, lines, characters) of the file"@),
        option_line("-d/D <DIR>"@, "Display simple info of the directory (size & entry count)"@),
        option_line("-da/-ad <DIR>"@, "Display all info of directory recursively"@),
        option_line("-h"@, "Display this help message"@),
    ]
}

/// The examples of the help, under their title.
pub open spec fn help_examples() -> Seq<Seq<PieceView>> {
    seq![
        seq![plain_piece("\n"@), bold_piece("EXAMPLES:"@, Tint::Yellow)],
        seq![plain_piece("    wc_tool -f test.txt        Display file size"@)],
        seq![plain_piece("    wc_tool -w test.txt        Display word count"@)],
        seq![plain_piece("    wc_tool -l test.txt        Display line count"@)],
        seq![plain_piece("    wc_tool -m test.txt        Display character count"@)],
        seq![plain_piece("    wc_tool -i test.txt        Display all info for file"@)],
        seq![plain_piece("    wc_tool -d my_dir          Display simple info for directory"@)],
        seq![plain_piece("    wc_tool -da my_dir         Display all info recursively for directory"@)],
        seq![plain_piece("    wc_tool -h                 Show this help message\n"@)],
    ]
}

/// The help, line by line.
pub open spec fn help_lines() -> Seq<Seq<PieceView>> {
    help_head() + help_options() + help_examples()
}

/// Appends the line that the pieces make. `shown` is what the lines
/// render so far; what they render then is returned.
fn push_line(lines: &mut Vec<String>, pieces: Vec<Piece>, shown: Ghost<Seq<Seq<PieceView>>>) -> (now:
    Ghost<Seq<Seq<PieceView>>>)
    requires
        lines_render(shown@, old(lines).deep_view()),
    ensures
        now@ == shown@.push(pieces.deep_view()),
        lines_render(now@, final(lines).deep_view()),
{
    let line: String = render(&pieces);
    lines.push(line);
    Ghost(shown@.push(pieces.deep_view()))
}

/// Appends a line of one bold piece.
fn push_title(lines: &mut Vec<String>, text: &str, tint: Tint, shown: Ghost<Seq<Seq<PieceView>>>) -> (now:
    Ghost<Seq<Seq<PieceView>>>)
    requires
        lines_render(shown@, old(lines).deep_view()),
    ensures
        now@ == shown@.push(seq![bold_piece(text@, tint)]),
        lines_render(now@, final(lines).deep_view()),
{
    let mut pieces: Vec<Piece> = Vec::new();
    pieces.push(Piece::bold(text, tint));
    assert(pieces.deep_view() =~= seq![bold_piece(text@, tint)]);
    push_line(lines, pieces, shown)
}

/// Appends a line of one plain piece.
fn push_plain_line(lines: &mut Vec<String>, text: &str, shown: Ghost<Seq<Seq<PieceView>>>) -> (now:
    Ghost<Seq<Seq<PieceView>>>)
    requires
        lines_render(shown@, old(lines).deep_view()),
    ensures
        now@ == shown@.push(seq![plain_piece(text@)]),
        lines_render(now@, final(lines).deep_view()),
{
    let mut pieces: Vec<Piece> = Vec::new();
    pieces.push(Piece::plain(text));
    assert(pieces.deep_view() =~= seq![plain_piece(text@)]);
    push_line(lines, pieces, shown)
}

/// Appends a line of the help that explains a flag.
fn push_option(
    lines: &mut Vec<String>,
    flag: &str,
    explanation: &str,
    shown: Ghost<Seq<Seq<PieceView>>>,
) -> (now: Ghost<Seq<Seq<PieceView>>>)
    requires
        lines_render(shown@, old(lines).deep_view()),
    ensures
        now@ == shown@.push(option_line(flag@, explanation@)),
        lines_render(now@, final(lines).deep_view()),
{
    let mut pieces: Vec<Piece> = Vec::new();
    pieces.push(Piece::plain("    "));
    pieces.push(Piece::tinted(flag, Tint::Blue).at_least(20));
    pieces.push(Piece::plain(" "));
    pieces.push(Piece::plain(explanation));
    assert(pieces.deep_view() =~= option_line(flag@, explanation@));
    push_line(lines, pieces, shown)
}

/// The program: it holds the word that its complaints begin with.
#[derive(Debug)]
pub struct Program {
    error_word: Piece,
}

impl Program {
    /// The word that complaints begin with is `ERROR:`, bold and red.
    #[verifier::type_invariant]
    spec fn error_word_is_set(&self) -> bool {
        self.error_word@ == bold_piece("ERROR:"@, Tint::Red)
    }

    /// The word that the complaints of the program begin with.
    pub closed spec fn error_word(&self) -> PieceView {
        self.error_word@
    }

    /// The program. Its complaints begin with `ERROR:`, bold and red.
    pub fn new() -> (program: Self)
        ensures
            program.error_word() == bold_piece("ERROR:"@, Tint::Red),
    {
        Program { error_word: Piece::bold("ERROR:", Tint::Red) }
    }

    /// The help, line by line, for the output.
    pub fn print_help(&self) -> (lines: Vec<String>)
        ensures
            lines_render(help_lines(), lines.deep_view()),
    {
        let mut lines: Vec<String> = Vec::new();
        let shown: Ghost<Seq<Seq<PieceView>>> = Ghost(Seq::empty());
        let shown = push_title(
            &mut lines,
            "wc_tool - Word and File Count Utility\n",
            Tint::Green,
            shown,
        );
        let shown = push_title(&mut lines, "USAGE:", Tint::Yellow, shown);
        let shown = push_plain_line(&mut lines, "    wc_tool [OPTIONS]\n", shown);
        let shown = push_title(&mut lines, "OPTIONS:", Tint::Yellow, shown);
        let shown = push_option(
            &mut lines,
            "-f/F <FILE>",
            "Display file info (size, basic info)",
            shown,
        );
        let shown = push_option(
            &mut lines,
            "-w/W <FILE>",
            "Display word count of the file",
            shown,
        );
        let shown = push_option(
            &mut lines,
            "-l/L <FILE>",
            "Display line count of the file",
            shown,
        );
        let shown = push_option(
            &mut lines,
            "-m/M <FILE>",
            "Display character count of the file",
            shown,
        );
        let shown = push_option(
            &mut lines,
            "-i/I <FILE>",
            "Display all info (size, words, lines, characters) of the file",
            shown,
        );
        let shown = push_option(
            &mut lines,
            "-d/D <DIR>",
            "Display simple info of the directory (size & entry count)",
            shown,
        );
        let shown = push_option(
            &mut lines,
            "-da/-ad <DIR>",
            "Display all info of directory recursively",
            shown,
        );
        let shown = push_option(
            &mut lines,
            "-h",
            "Display this help message",
            shown,
        );
        let mut title: Vec<Piece> = Vec::new();
        title.push(Piece::plain("\n"));
        title.push(Piece::bold("EXAMPLES:", Tint::Yellow));
        assert(title.deep_view() =~= seq![
            plain_piece("\n"@),
            bold_piece("EXAMPLES:"@, Tint::Yellow),
        ]);
        let shown = push_line(&mut lines, title, shown);
        let shown = push_plain_line(
            &mut lines,
            "    wc_tool -f test.txt        Display file size",
            shown,
        );
        let shown = push_plain_line(
            &mut lines,
            "    wc_tool -w test.txt        Display word count",
            shown,
        );
        let shown = push_plain_line(
            &mut lines,
            "    wc_tool -l test.txt        Display line count",
            shown,
        );
        let shown = push_plain_line(
            &mut lines,
            "    wc_tool -m test.txt        Display character count",
            shown,
        );
        let shown = push_plain_line(
            &mut lines,
            "    wc_tool -i test.txt        Display all info for file",
            shown,
        );
        let shown = push_plain_line(
            &mut lines,
            "    wc_tool -d my_dir          Display simple info for directory",
            shown,
        );
        let shown = push_plain_line(
            &mut lines,
            "    wc_tool -da my_dir         Display all info recursively for directory",
            shown,
        );
        let shown = push_plain_line(
            &mut lines,
            "    wc_tool -h                 Show this help message\n",
            shown,
        );
        assert(shown@ =~= help_lines());
        lines
    }

    /// The line that complains of a flag without its path, for the error
    /// stream.
    pub fn print_missing(&self, flag: Flag) -> (line: String)
        ensures
            renders_as(missing_pieces(flag), line@),
    {
        proof {
            use_type_invariant(self);
        }
        let mut pieces: Vec<Piece> = Vec::new();
        pieces.push(self.error_word.duplicate());
        match flag {
            Flag::File(FileFlag::Info) => pieces.push(Piece::plain(" -f requires a file path")),
            Flag::File(FileFlag::Words) => pieces.push(Piece::plain(" -w requires a file path")),
            Flag::File(_) => pieces.push(Piece::plain(" -l requires a file path")),
            _ => pieces.push(Piece::plain(" -d requires a directory path")),
        }
        assert(pieces.deep_view() =~= missing_pieces(flag));
        render(&pieces)
    }

    /// What is printed for a flag for a file, from what was found at the
    /// path: what resolving the file logs, then the answer on the output,
    /// or on the error stream that there is no such file.
    fn answer_file(&self, flag: FileFlag, path: &String, probe: &FileProbe) -> (got: Vec<Emission>)
        ensures
            emits(file_expected(flag, path@, probe@), got@),
    {
        proof {
            use_type_invariant(self);
        }
        let mut log: Vec<Diagnostic> = Vec::new();
        let file: Option<FileType> = FileType::new(path.as_str(), true, probe, &mut log);
        let mut got: Vec<Emission> = log_emissions(&log);
        let last: Emission = match file {
            Some(file) => {
                let line: String = match flag {
                    FileFlag::Info => file.print_info(),
                    FileFlag::Words => file.print_words_count(),
                    FileFlag::Lines => file.print_line_count(),
                    FileFlag::Chars => file.print_chars_count(),
                    FileFlag::All => file.print_all_info(),
                };
                Emission { stream: Stream::Output, line }
            },
            None => {
                let mut pieces: Vec<Piece> = Vec::new();
                pieces.push(self.error_word.duplicate());
                pieces.push(Piece::plain(" Cannot find the file with the path: "));
                pieces.push(Piece::tinted(path.as_str(), Tint::Green));
                assert(pieces.deep_view() =~= no_file_pieces(path@));
                Emission { stream: Stream::Errors, line: render(&pieces) }
            },
        };
        got.push(last);
        got
    }

    /// What is printed where the size of a file is asked for.
    pub fn handle_f_flag(&self, path: &String, probe: &FileProbe) -> (got: Vec<Emission>)
        ensures
            emits(file_expected(FileFlag::Info, path@, probe@), got@),
    {
        self.answer_file(FileFlag::Info, path, probe)
    }

    /// What is printed where the number of words of a file is asked for.
    pub fn handle_w_flag(&self, path: &String, probe: &FileProbe) -> (got: Vec<Emission>)
        ensures
            emits(file_expected(FileFlag::Words, path@, probe@), got@),
    {
        self.answer_file(FileFlag::Words, path, probe)
    }

    /// What is printed where the number of lines of a file is asked for.
    pub fn handle_l_flag(&self, path: &String, probe: &FileProbe) -> (got: Vec<Emission>)
        ensures
            emits(file_expected(FileFlag::Lines, path@, probe@), got@),
    {
        self.answer_file(FileFlag::Lines, path, probe)
    }

    /// What is printed where the number of characters of a file is asked
    /// for.
    pub fn handle_m_flag(&self, path: &String, probe: &FileProbe) -> (got: Vec<Emission>)
        ensures
            emits(file_expected(FileFlag::Chars, path@, probe@), got@),
    {
        self.answer_file(FileFlag::Chars, path, probe)
    }

    /// What is printed where all counts of a file are asked for.
    pub fn handle_i_flag(&self, path: &String, probe: &FileProbe) -> (got: Vec<Emission>)
        ensures
            emits(file_expected(FileFlag::All, path@, probe@), got@),
    {
        self.answer_file(FileFlag::All, path, probe)
    }

    /// What is printed for a step that looks at a file.
    pub fn handle_file_flag(&self, flag: FileFlag, path: &String, probe: &FileProbe) -> (got: Vec<
        Emission,
    >)
        ensures
            emits(file_expected(flag, path@, probe@), got@),
    {
        match flag {
            FileFlag::Info => self.handle_f_flag(path, probe),
            FileFlag::Words => self.handle_w_flag(path, probe),
            FileFlag::Lines => self.handle_l_flag(path, probe),
            FileFlag::Chars => self.handle_m_flag(path, probe),
            FileFlag::All => self.handle_i_flag(path, probe),
        }
    }

    /// What is printed for a step that looks at a directory, from what was
    /// found at the path: what building the directory logs, then on the
    /// output its summary, or its whole tree where `all` holds, or on the
    /// error stream that it cannot be read.
    pub fn handle_directory_flag(&self, all: bool, path: &String, probe: &DirProbe) -> (got: Vec<
        Emission,
    >)
        requires
            bytes_under(probe@) <= u64::MAX,
        ensures
            emits(directory_expected(all, path@, probe@), got@),
    {
        proof {
            use_type_invariant(self);
        }
        let mut log: Vec<Diagnostic> = Vec::new();
        let dir: Option<DirectoryType> = DirectoryType::new(path, probe, &mut log);
        let mut got: Vec<Emission> = log_emissions(&log);
        let mut answer: Vec<Emission> = match dir {
            Some(dir) => {
                let lines: Vec<String> = if all {
                    dir.print_dir_all_info(true)
                } else {
                    let mut lines: Vec<String> = Vec::new();
                    lines.push(dir.print_dir_simple_info());
                    lines
                };
                emit_on(Stream::Output, lines)
            },
            None => {
                let mut pieces: Vec<Piece> = Vec::new();
                pieces.push(self.error_word.duplicate());
                pieces.push(Piece::plain(" Cannot read the directory: "));
                pieces.push(Piece::plain(path.as_str()));
                assert(pieces.deep_view() =~= no_directory_pieces(path@));
                let mut only: Vec<Emission> = Vec::new();
                only.push(Emission { stream: Stream::Errors, line: render(&pieces) });
                only
            },
        };
        got.append(&mut answer);
        got
    }

    /// The steps that the arguments ask for, the first argument being the
    /// name of the program.
    pub fn run(&self, args: Vec<String>) -> (steps: Vec<Step>)
        ensures
            steps.deep_view() == plan(args.deep_view()),
    {
        let mut steps: Vec<Step> = Vec::new();
        let ghost given = args.deep_view();
        if args.len() > 1 {
            let mut i: usize = 1;
            while i < args.len()
                invariant
                    1 <= i <= args.len(),
                    given == args.deep_view(),
                    plan_from(given, 1) == steps.deep_view() + plan_from(given, i as int),
                decreases args.len() - i,
            {
                match read_flag(args[i].as_str()) {
                    None => {
                        steps.push(Step::Help);
                    },
                    Some(flag) => {
                        if i + 1 < args.len() {
                            let path: String = args[i + 1].clone();
                            let step: Step = match flag {
                                Flag::File(flag) => Step::File { flag, path },
                                Flag::Dir => Step::Directory { all: false, path },
                                Flag::DirAll => Step::Directory { all: true, path },
                            };
                            steps.push(step);
                        } else {
                            steps.push(Step::Missing(flag));
                        }
                        return steps;
                    },
                }
                i = i + 1;
            }
        } else {
            steps.push(Step::Help);
        }
        steps
    }
}

} // verus!
