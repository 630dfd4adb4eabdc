use wc_tool::data::file::FileType;
use wc_tool::diagnostic::Diagnostic;
use wc_tool::render::assemble;
use wc_tool::render::render;
use wc_tool::render::Look;
use wc_tool::render::Piece;
use wc_tool::render::Tint;

fn coloured() {
    colored::control::set_override(true);
}

#[test]
fn each_colour_has_its_escape_sequence() {
    coloured();
    let codes = [
        (Tint::Red, "31"),
        (Tint::Green, "32"),
        (Tint::Yellow, "33"),
        (Tint::Blue, "34"),
        (Tint::Cyan, "36"),
        (Tint::White, "37"),
        (Tint::BrightGreen, "92"),
        (Tint::BrightYellow, "93"),
        (Tint::BrightCyan, "96"),
    ];
    for (tint, code) in codes {
        assert_eq!(Piece::tinted("x", tint).show(), format!("\u{1b}[{}mx\u{1b}[0m", code));
        assert_eq!(Piece::bold("x", tint).show(), format!("\u{1b}[1;{}mx\u{1b}[0m", code));
    }
}

#[test]
fn a_plain_piece_stays_as_it_is() {
    coloured();
    assert_eq!(Piece::plain("x").show(), "x");
    assert_eq!(Piece::plain("x").at_least(3).show(), "x  ");
}

#[test]
fn the_width_is_filled_inside_the_colour() {
    coloured();
    assert_eq!(
        Piece::tinted("File:", Tint::Cyan).at_least(12).show(),
        "\u{1b}[36mFile:       \u{1b}[0m"
    );
    assert_eq!(
        Piece::bold("ab", Tint::Blue).at_least(1).show(),
        "\u{1b}[1;34mab\u{1b}[0m"
    );
}

#[test]
fn without_colours_a_piece_is_its_padded_text() {
    colored::control::set_override(false);
    assert_eq!(Piece::tinted("File:", Tint::Cyan).at_least(12).show(), "File:       ");
    assert_eq!(Piece::bold("ERROR:", Tint::Red).show(), "ERROR:");
    assert_eq!(Piece::tinted("a\u{1b}[0mb", Tint::Red).show(), "a\u{1b}[0mb");
}

#[test]
fn pieces_are_what_they_are_made_of() {
    let piece = Piece::bold("ERROR:", Tint::Red).at_least(8);
    assert_eq!(piece, Piece { text: "ERROR:".to_string(), look: Look::Bold(Tint::Red), width: 8 });
    assert_eq!(piece.duplicate(), piece);
    assert_eq!(Piece::plain("x"), Piece { text: "x".to_string(), look: Look::Plain, width: 0 });
    assert_eq!(
        Piece::tinted("x", Tint::White),
        Piece { text: "x".to_string(), look: Look::Tinted(Tint::White), width: 0 }
    );
    assert_eq!(
        Piece::quoted("a\"b"),
        Piece { text: "\"a\\\"b\"".to_string(), look: Look::Plain, width: 0 }
    );
}

#[test]
fn a_line_is_its_pieces_in_a_row() {
    coloured();
    let pieces = vec![
        Piece::bold("ERROR:", Tint::Red),
        Piece::plain(" "),
        Piece::tinted("path", Tint::Green),
    ];
    assert_eq!(render(&pieces), "\u{1b}[1;31mERROR:\u{1b}[0m \u{1b}[32mpath\u{1b}[0m");
    assert_eq!(render(&Vec::new()), "");
    assert_eq!(assemble(&vec!["a".to_string(), String::new(), "bc".to_string()]), "abc");
}

#[test]
fn the_lines_of_a_file_in_colour() {
    coloured();
    let file = FileType {
        path: "a.txt".to_string(),
        size: 2048,
        word_count: 0,
        line_count: 1,
        character_count: 4,
    };
    assert_eq!(
        file.print_info(),
        "   \u{1b}[96m📄\u{1b}[0m \u{1b}[36mFile:       \u{1b}[0m \u{1b}[1;34ma.txt\u{1b}[0m: 2.00 \u{1b}[92mKB\u{1b}[0m"
    );
    assert_eq!(
        file.print_words_count(),
        "\u{1b}[96m📄\u{1b}[0m \u{1b}[36mFile:\u{1b}[0m \u{1b}[1;34ma.txt\u{1b}[0m: \u{1b}[1;31mNo\u{1b}[0m \u{1b}[32mWords\u{1b}[0m"
    );
    assert_eq!(
        file.print_chars_count(),
        "\u{1b}[96m📄\u{1b}[0m \u{1b}[36mFile:\u{1b}[0m \u{1b}[1;34ma.txt\u{1b}[0m: \u{1b}[37m4\u{1b}[0m \u{1b}[32mCharacter\u{1b}[0m"
    );
}

#[test]
fn a_cause_in_colour() {
    coloured();
    let cause = Diagnostic::DirectoryUnreadable {
        path: "root/sub2".to_string(),
        cause: "Permission denied (os error 13)".to_string(),
    };
    assert_eq!(
        cause.print(),
        "\u{1b}[1;31mERROR:\u{1b}[0m Cannot read directory \"root/sub2\": Permission denied (os error 13)"
    );
}
