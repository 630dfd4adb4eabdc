use wc_tool::data::directory::DirProbe;
use wc_tool::data::directory::Found;
use wc_tool::data::directory::Listed;
use wc_tool::data::file::FileProbe;
use wc_tool::program::read_flag;
use wc_tool::program::FileFlag;
use wc_tool::program::Flag;
use wc_tool::program::Program;
use wc_tool::program::Step;
use wc_tool::render::Emission;
use wc_tool::render::Stream;

fn plain() {
    colored::control::set_override(false);
}

fn args(words: &[&str]) -> Vec<String> {
    words.iter().map(|word| word.to_string()).collect()
}

fn out(line: &str) -> Emission {
    Emission { stream: Stream::Output, line: line.to_string() }
}

fn err(line: &str) -> Emission {
    Emission { stream: Stream::Errors, line: line.to_string() }
}

fn text_file() -> FileProbe {
    FileProbe { metadata: Ok(6), content: Some("a b\nc\n".to_string()) }
}

fn no_file() -> FileProbe {
    FileProbe { metadata: Err("No such file or directory (os error 2)".to_string()), content: None }
}

#[test]
fn without_arguments_the_help_is_asked_for() {
    let program = Program::new();
    assert_eq!(program.run(args(&["wc_tool"])), vec![Step::Help]);
    assert_eq!(program.run(Vec::new()), vec![Step::Help]);
}

#[test]
fn a_flag_takes_the_path_that_follows() {
    let program = Program::new();
    let cases = [
        ("-f", FileFlag::Info),
        ("-F", FileFlag::Info),
        ("-w", FileFlag::Words),
        ("-W", FileFlag::Words),
        ("-l", FileFlag::Lines),
        ("-L", FileFlag::Lines),
        ("-m", FileFlag::Chars),
        ("-M", FileFlag::Chars),
        ("-i", FileFlag::All),
        ("-I", FileFlag::All),
    ];
    for (word, flag) in cases {
        assert_eq!(
            program.run(args(&["wc_tool", word, "notes.txt", "-h"])),
            vec![Step::File { flag, path: "notes.txt".to_string() }]
        );
    }
    assert_eq!(
        program.run(args(&["wc_tool", "-d", "src"])),
        vec![Step::Directory { all: false, path: "src".to_string() }]
    );
    for word in ["-da", "-ad"] {
        assert_eq!(
            program.run(args(&["wc_tool", word, "src"])),
            vec![Step::Directory { all: true, path: "src".to_string() }]
        );
    }
}

#[test]
fn a_flag_without_its_path_is_missing_it() {
    let program = Program::new();
    assert_eq!(
        program.run(args(&["wc_tool", "-w"])),
        vec![Step::Missing(Flag::File(FileFlag::Words))]
    );
    assert_eq!(program.run(args(&["wc_tool", "-da"])), vec![Step::Missing(Flag::DirAll)]);
    assert_eq!(
        program.run(args(&["wc_tool", "-h", "x", "-d"])),
        vec![Step::Help, Step::Help, Step::Missing(Flag::Dir)]
    );
}

#[test]
fn other_words_ask_for_the_help_and_reading_goes_on() {
    let program = Program::new();
    assert_eq!(program.run(args(&["wc_tool", "-h"])), vec![Step::Help]);
    assert_eq!(
        program.run(args(&["wc_tool", "-D", "--help", "", "-x", "-fa"])),
        vec![Step::Help, Step::Help, Step::Help, Step::Help, Step::Help]
    );
    assert_eq!(
        program.run(args(&["wc_tool", "what", "-l", "-f", "a.txt"])),
        vec![Step::Help, Step::File { flag: FileFlag::Lines, path: "-f".to_string() }]
    );
}

#[test]
fn flags_are_read_letter_by_letter() {
    assert_eq!(read_flag("-f"), Some(Flag::File(FileFlag::Info)));
    assert_eq!(read_flag("-d"), Some(Flag::Dir));
    assert_eq!(read_flag("-ad"), Some(Flag::DirAll));
    assert_eq!(read_flag("-da"), Some(Flag::DirAll));
    assert_eq!(read_flag("-D"), None);
    assert_eq!(read_flag("-DA"), None);
    assert_eq!(read_flag("-aa"), None);
    assert_eq!(read_flag("-h"), None);
    assert_eq!(read_flag("f"), None);
    assert_eq!(read_flag("+f"), None);
    assert_eq!(read_flag("-é"), None);
    assert_eq!(read_flag(""), None);
    assert_eq!(read_flag("-"), None);
    assert_eq!(read_flag("-file"), None);
}

#[test]
fn complaints_about_a_missing_path() {
    plain();
    let program = Program::new();
    assert_eq!(
        program.print_missing(Flag::File(FileFlag::Info)),
        "ERROR: -f requires a file path"
    );
    assert_eq!(
        program.print_missing(Flag::File(FileFlag::Words)),
        "ERROR: -w requires a file path"
    );
    for flag in [FileFlag::Lines, FileFlag::Chars, FileFlag::All] {
        assert_eq!(program.print_missing(Flag::File(flag)), "ERROR: -l requires a file path");
    }
    for flag in [Flag::Dir, Flag::DirAll] {
        assert_eq!(program.print_missing(flag), "ERROR: -d requires a directory path");
    }
}

#[test]
fn answers_about_a_file() {
    plain();
    let program = Program::new();
    let path = "notes.txt".to_string();
    assert_eq!(
        program.handle_f_flag(&path, &text_file()),
        vec![out("   📄 File:        notes.txt: 6.00 Bytes")]
    );
    assert_eq!(
        program.handle_w_flag(&path, &text_file()),
        vec![out("📄 File: notes.txt: 3 Words")]
    );
    assert_eq!(
        program.handle_l_flag(&path, &text_file()),
        vec![out("📄 File: notes.txt: 2 Lines")]
    );
    assert_eq!(
        program.handle_m_flag(&path, &text_file()),
        vec![out("📄 File: notes.txt: 6 Characters")]
    );
    assert_eq!(
        program.handle_i_flag(&path, &text_file()),
        vec![out("📄 File: notes.txt: 6 Characters, 3 Words, 2 Lines")]
    );
    for (flag, line) in [
        (FileFlag::Info, "   📄 File:        notes.txt: 6.00 Bytes"),
        (FileFlag::Words, "📄 File: notes.txt: 3 Words"),
        (FileFlag::Lines, "📄 File: notes.txt: 2 Lines"),
        (FileFlag::Chars, "📄 File: notes.txt: 6 Characters"),
        (FileFlag::All, "📄 File: notes.txt: 6 Characters, 3 Words, 2 Lines"),
    ] {
        assert_eq!(program.handle_file_flag(flag, &path, &text_file()), vec![out(line)]);
    }
}

#[test]
fn a_file_that_is_not_there() {
    plain();
    let program = Program::new();
    let path = "gone.txt".to_string();
    let expected = vec![
        err("ERROR: Cannot read file \"gone.txt\": No such file or directory (os error 2)"),
        err("ERROR: Cannot find the file with the path: gone.txt"),
    ];
    assert_eq!(program.handle_f_flag(&path, &no_file()), expected);
    assert_eq!(program.handle_w_flag(&path, &no_file()), expected);
    assert_eq!(program.handle_l_flag(&path, &no_file()), expected);
    assert_eq!(program.handle_m_flag(&path, &no_file()), expected);
    assert_eq!(program.handle_i_flag(&path, &no_file()), expected);
}

#[test]
fn a_file_whose_text_cannot_be_had_has_no_counts() {
    plain();
    let program = Program::new();
    let probe = FileProbe { metadata: Ok(2048), content: None };
    assert_eq!(
        program.handle_i_flag(&"x.bin".to_string(), &probe),
        vec![out("📄 File: x.bin: No Characters, No Words, No Lines")]
    );
}

fn a_tree() -> DirProbe {
    DirProbe::Opened(vec![
        Listed::Entry {
            path: "root/a.txt".to_string(),
            found: Found::File(FileProbe { metadata: Ok(100), content: None }),
        },
        Listed::Entry {
            path: "root/sub".to_string(),
            found: Found::Directory(DirProbe::Opened(vec![Listed::Entry {
                path: "root/sub/b.txt".to_string(),
                found: Found::File(FileProbe { metadata: Ok(50), content: None }),
            }])),
        },
        Listed::Entry {
            path: "root/sub2".to_string(),
            found: Found::Directory(DirProbe::Unreadable {
                cause: "Permission denied (os error 13)".to_string(),
            }),
        },
    ])
}

#[test]
fn the_summary_of_a_directory_follows_its_warnings() {
    plain();
    let program = Program::new();
    assert_eq!(
        program.handle_directory_flag(false, &"root".to_string(), &a_tree()),
        vec![
            err("ERROR: Cannot read directory \"root/sub2\": Permission denied (os error 13)"),
            err("Warning: Cannot read subdirectory \"root/sub2\""),
            out("📁 Directory: root 150.00 Bytes, 2 Entries"),
        ]
    );
}

#[test]
fn the_tree_of_a_directory_follows_its_warnings() {
    plain();
    let program = Program::new();
    assert_eq!(
        program.handle_directory_flag(true, &"root".to_string(), &a_tree()),
        vec![
            err("ERROR: Cannot read directory \"root/sub2\": Permission denied (os error 13)"),
            err("Warning: Cannot read subdirectory \"root/sub2\""),
            out("📁 Directory: root 150.00 Bytes, 2 Entries"),
            out("   📄 File:        root/a.txt: 100.00 Bytes"),
            out("📁 Directory: root/sub 50.00 Bytes, 1 Entries"),
            out("   📄 File:        root/sub/b.txt: 50.00 Bytes"),
        ]
    );
}

#[test]
fn a_directory_that_cannot_be_read() {
    plain();
    let program = Program::new();
    let probe = DirProbe::Unreadable { cause: "Not a directory (os error 20)".to_string() };
    for all in [false, true] {
        assert_eq!(
            program.handle_directory_flag(all, &"a.txt".to_string(), &probe),
            vec![
                err("ERROR: Cannot read directory \"a.txt\": Not a directory (os error 20)"),
                err("ERROR: Cannot read the directory: a.txt"),
            ]
        );
    }
}

#[test]
fn the_help() {
    plain();
    let lines = Program::new().print_help();
    assert_eq!(
        lines,
        vec![
            "wc_tool - Word and File Count Utility\n",
            "USAGE:",
            "    wc_tool [OPTIONS]\n",
            "OPTIONS:",
            "    -f/F <FILE>          Display file info (size, basic info)",
            "    -w/W <FILE>          Display word count of the file",
            "    -l/L <FILE>          Display line count of the file",
            "    -m/M <FILE>          Display character count of the file",
            "    -i/I <FILE>          Display all info (size, words, lines, characters) of the file",
            "    -d/D <DIR>           Display simple info of the directory (size & entry count)",
            "    -da/-ad <DIR>        Display all info of directory recursively",
            "    -h                   Display this help message",
            "\nEXAMPLES:",
            "    wc_tool -f test.txt        Display file size",
            "    wc_tool -w test.txt        Display word count",
            "    wc_tool -l test.txt        Display line count",
            "    wc_tool -m test.txt        Display character count",
            "    wc_tool -i test.txt        Display all info for file",
            "    wc_tool -d my_dir          Display simple info for directory",
            "    wc_tool -da my_dir         Display all info recursively for directory",
            "    wc_tool -h                 Show this help message\n",
        ]
    );
}

#[test]
fn the_help_in_colour() {
    colored::control::set_override(true);
    let lines = Program::new().print_help();
    assert_eq!(lines[0], "\u{1b}[1;32mwc_tool - Word and File Count Utility\n\u{1b}[0m");
    assert_eq!(lines[1], "\u{1b}[1;33mUSAGE:\u{1b}[0m");
    assert_eq!(
        lines[11],
        "    \u{1b}[34m-h                  \u{1b}[0m Display this help message"
    );
    assert_eq!(lines[12], "\n\u{1b}[1;33mEXAMPLES:\u{1b}[0m");
}
