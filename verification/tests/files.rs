use wc_tool::data::file::FileProbe;
use wc_tool::data::file::FileType;
use wc_tool::data::models::format_size;
use wc_tool::data::models::DirInfo;
use wc_tool::data::models::FileInfo;
use wc_tool::diagnostic::Diagnostic;

fn file(path: &str, size: u64, words: usize, lines: usize, chars: usize) -> FileType {
    FileType {
        path: path.to_string(),
        size,
        word_count: words,
        line_count: lines,
        character_count: chars,
    }
}

fn plain() {
    colored::control::set_override(false);
}

#[test]
fn a_file_with_its_text_gets_its_counts() {
    let probe = FileProbe { metadata: Ok(6), content: Some("a b\nc\n".to_string()) };
    let mut log = Vec::new();
    let found = FileType::new("notes.txt", true, &probe, &mut log);
    assert_eq!(found, Some(file("notes.txt", 6, 3, 2, 6)));
    assert!(log.is_empty());
}

#[test]
fn counts_are_zero_where_the_text_is_not_asked_for() {
    let probe = FileProbe { metadata: Ok(6), content: Some("a b\nc\n".to_string()) };
    let mut log = Vec::new();
    let found = FileType::new("notes.txt", false, &probe, &mut log);
    assert_eq!(found, Some(file("notes.txt", 6, 0, 0, 0)));
    assert!(log.is_empty());
}

#[test]
fn counts_are_zero_where_the_text_could_not_be_had() {
    let probe = FileProbe { metadata: Ok(4096), content: None };
    let mut log = Vec::new();
    let found = FileType::new("image.bin", true, &probe, &mut log);
    assert_eq!(found, Some(file("image.bin", 4096, 0, 0, 0)));
    assert!(log.is_empty());
}

#[test]
fn without_metadata_there_is_no_file() {
    let probe = FileProbe {
        metadata: Err("No such file or directory (os error 2)".to_string()),
        content: Some("ignored".to_string()),
    };
    let mut log = vec![Diagnostic::EntryUnreadable { cause: "earlier".to_string() }];
    let found = FileType::new("gone.txt", true, &probe, &mut log);
    assert_eq!(found, None);
    assert_eq!(
        log,
        vec![
            Diagnostic::EntryUnreadable { cause: "earlier".to_string() },
            Diagnostic::FileUnreadable {
                path: "gone.txt".to_string(),
                cause: "No such file or directory (os error 2)".to_string(),
            },
        ]
    );
}

#[test]
fn the_empty_file_has_no_size_and_no_counts() {
    plain();
    let probe = FileProbe { metadata: Ok(0), content: Some(String::new()) };
    let mut log = Vec::new();
    let empty = FileType::new("empty.txt", true, &probe, &mut log).unwrap();
    assert_eq!(empty, file("empty.txt", 0, 0, 0, 0));
    assert_eq!(empty.print_words_count(), "📄 File: empty.txt: No Words");
    assert_eq!(empty.print_line_count(), "📄 File: empty.txt: No Lines");
    assert_eq!(empty.print_chars_count(), "📄 File: empty.txt: No Characters");
    assert_eq!(
        empty.print_all_info(),
        "📄 File: empty.txt: No Characters, No Words, No Lines"
    );
    assert_eq!(empty.print_info(), "   📄 File:        empty.txt: 0.00 Bytes");
}

#[test]
fn the_size_line_of_a_file() {
    plain();
    assert_eq!(file("a.txt", 100, 0, 0, 0).print_info(), "   📄 File:        a.txt: 100.00 Bytes");
    assert_eq!(file("b", 1536, 0, 0, 0).print_info(), "   📄 File:        b: 1.50 KB");
}

#[test]
fn counts_take_the_singular_at_one() {
    plain();
    let one = file("one.txt", 2, 1, 1, 1);
    assert_eq!(one.print_words_count(), "📄 File: one.txt: 1 Word");
    assert_eq!(one.print_line_count(), "📄 File: one.txt: 1 Line");
    assert_eq!(one.print_chars_count(), "📄 File: one.txt: 1 Character");
    assert_eq!(one.print_all_info(), "📄 File: one.txt: 1 Character, 1 Word, 1 Line");
}

#[test]
fn counts_take_the_plural_above_one() {
    plain();
    let many = file("many.txt", 6, 3, 2, 6);
    assert_eq!(many.print_words_count(), "📄 File: many.txt: 3 Words");
    assert_eq!(many.print_line_count(), "📄 File: many.txt: 2 Lines");
    assert_eq!(many.print_chars_count(), "📄 File: many.txt: 6 Characters");
    assert_eq!(many.print_all_info(), "📄 File: many.txt: 6 Characters, 3 Words, 2 Lines");
}

#[test]
fn the_lines_decide_between_character_and_characters() {
    plain();
    let one_line = file("line.txt", 12, 2, 1, 11);
    assert_eq!(one_line.print_chars_count(), "📄 File: line.txt: 11 Character");
    assert_eq!(one_line.print_all_info(), "📄 File: line.txt: 11 Character, 2 Words, 1 Line");
    let one_char = file("char.txt", 1, 1, 0, 1);
    assert_eq!(one_char.print_chars_count(), "📄 File: char.txt: 1 Characters");
}

#[test]
fn the_flat_summaries() {
    plain();
    let dir = DirInfo { path: "src".to_string(), size: 1_048_576 };
    assert_eq!(dir.print_dir_info(), "📁 Directory: src 1.00 MB");
    let file = FileInfo { path: "src/lib.rs".to_string(), size: 1023 };
    assert_eq!(file.print_file_info(), "📄 File: src/lib.rs 1023.00 Bytes");
    assert_eq!(format_size(1024), (100, 1));
}
