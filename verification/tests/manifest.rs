use dotfiles::dotfiles::{cells, Dot, Dots, Flags, FormatFile, Op, ParseError};

fn flags(headers: bool, force: bool) -> Flags {
    Flags::build("org", headers, force, String::from("/repo"), String::from("/home/u"))
}

fn parsed(text: &str, headers: bool) -> Dots {
    let mut dots = Dots::build(flags(headers, false));
    assert_eq!(dots.parse_file("DOTS", Some(text)), Ok(()));
    dots
}

#[test]
fn format_names_are_org_and_csv() {
    assert_eq!(FormatFile::parse("org"), Ok(FormatFile::OrgTable));
    assert_eq!(FormatFile::parse("csv"), Ok(FormatFile::Csv));
    assert_eq!(FormatFile::parse("yaml"), Err(String::from("Invalid format yaml.")));
    assert_eq!(FormatFile::parse(""), Err(String::from("Invalid format .")));
    assert_eq!(FormatFile::parse("ORG"), Err(String::from("Invalid format ORG.")));
}

#[test]
fn operation_keywords_are_read_in_any_case() {
    assert_eq!(Op::parse("symfile"), Op::Symfile);
    assert_eq!(Op::parse("SYMFILE"), Op::Symfile);
    assert_eq!(Op::parse("SymDir"), Op::Symdir);
    assert_eq!(Op::parse("ignore"), Op::Ignore);
    assert_eq!(Op::parse("IGNORE"), Op::Ignore);
    assert_eq!(Op::parse("copy"), Op::Invalid);
    assert_eq!(Op::parse(""), Op::Invalid);
    assert_eq!(Op::parse(" symfile"), Op::Invalid);
}

#[test]
fn operations_have_labels() {
    assert_eq!(Op::Symfile.label(), "Symfile");
    assert_eq!(Op::Symdir.label(), "Symdir");
    assert_eq!(Op::Ignore.label(), "Ignore");
    assert_eq!(Op::Invalid.label(), "Invalid");
}

#[test]
fn flags_normalise_their_prefixes() {
    let flags = Flags::build("org", true, false, String::from("/repo/"), String::from("/"));
    assert_eq!(flags.file_format(), FormatFile::OrgTable);
    assert!(flags.headers());
    assert!(!flags.force());
    assert_eq!(flags.source_prefix(), "/repo");
    assert_eq!(flags.destination_prefix(), "/");
    let other = Flags::build("csv", false, true, String::from("src"), String::from("/home/u//"));
    assert_eq!(other.file_format(), FormatFile::Csv);
    assert!(!other.headers());
    assert!(other.force());
    assert_eq!(other.source_prefix(), "src");
    assert_eq!(other.destination_prefix(), "/home/u");
}

#[test]
fn a_new_manifest_is_empty() {
    let dots = Dots::build(flags(false, false));
    assert_eq!(dots.filename(), "");
    assert!(dots.dotfiles().is_empty());
    assert_eq!(dots.flags().source_prefix(), "/repo");
    assert_eq!(dots.to_string(), "");
}

#[test]
fn dot_new_trims_its_fields_and_normalises_the_destination() {
    let dot = Dot::new(4, "  vim ", "/repo/vimrc", "/home/u/.vimrc", " SymFile\t");
    assert_eq!(dot.line, 4);
    assert_eq!(dot.name, "vim");
    assert_eq!(dot.source, "/repo/vimrc");
    assert_eq!(dot.dest, "/home/u/.vimrc");
    assert_eq!(dot.operation, Op::Symfile);
    let padded = Dot::new(3, " n1 ", " /repo/a ", " /home/u/b/ ", " SymDir ");
    assert_eq!(padded.line, 3);
    assert_eq!(padded.name, "n1");
    assert_eq!(padded.source, "/repo/a");
    assert_eq!(padded.dest, "/home/u/b");
    assert_eq!(padded.operation, Op::Symdir);
    let odd = Dot::new(0, "", "s", "d", "link");
    assert_eq!(odd.name, "");
    assert_eq!(odd.operation, Op::Invalid);
}

#[test]
fn dot_is_shown_on_one_line() {
    let dot = Dot::new(12, "vim", "/repo/vimrc", "/home/u/.vimrc", "symfile");
    assert_eq!(dot.to_string(), "[vim:12] /repo/vimrc -> /home/u/.vimrc | Symfile");
}

#[test]
fn cells_are_the_fields_between_the_separators() {
    assert_eq!(cells("| n1 | app.conf | .apprc | SYMFILE |"), vec!["", " n1 ", " app.conf ", " .apprc ", " SYMFILE "]);
    assert_eq!(cells("| n1 | app.conf | .apprc | SYMFILE"), vec!["", " n1 ", " app.conf ", " .apprc ", " SYMFILE"]);
    assert_eq!(cells("| only | three | fields |"), vec!["", " only ", " three ", " fields "]);
    assert_eq!(cells("a|b||"), vec!["a", "b", ""]);
    assert_eq!(cells("plain"), vec!["plain"]);
    assert_eq!(cells(""), Vec::<String>::new());
}

#[test]
fn a_row_is_read_into_a_declaration() {
    let dots = parsed("| n1 | app.conf | .apprc | SYMFILE |", false);
    assert_eq!(dots.filename(), "DOTS");
    let found = dots.dotfiles();
    assert_eq!(found.len(), 1);
    assert_eq!(found[0].line, 0);
    assert_eq!(found[0].name, "n1");
    assert_eq!(found[0].source, "/repo/app.conf");
    assert_eq!(found[0].dest, "/home/u/.apprc");
    assert_eq!(found[0].operation, Op::Symfile);
}

#[test]
fn a_row_needs_no_closing_separator() {
    let dots = parsed("| n1 | app.conf | .apprc | symdir", false);
    assert_eq!(dots.dotfiles().len(), 1);
    assert_eq!(dots.dotfiles()[0].operation, Op::Symdir);
}

#[test]
fn a_row_with_three_fields_is_dropped() {
    let dots = parsed("| only | three | fields |", false);
    assert!(dots.dotfiles().is_empty());
    assert_eq!(dots.verify_dotfiles(&Vec::new()), Ok(()));
    assert!(dots.execute().is_empty());
}

#[test]
fn short_rows_are_dropped_and_the_others_keep_their_lines() {
    let text = "| a | s1 | d1 | symfile |\n\nnot a row\n| b | s2 | d2 |\n| c | s3 | d3 | ignore |\n";
    let dots = parsed(text, false);
    let found = dots.dotfiles();
    assert_eq!(found.len(), 2);
    assert_eq!(found[0].name, "a");
    assert_eq!(found[0].line, 0);
    assert_eq!(found[1].name, "c");
    assert_eq!(found[1].line, 4);
    assert_eq!(found[1].operation, Op::Ignore);
}

#[test]
fn an_unknown_keyword_is_recorded_as_invalid() {
    let dots = parsed("| n | s | d | copy |", false);
    assert_eq!(dots.dotfiles().len(), 1);
    assert_eq!(dots.dotfiles()[0].operation, Op::Invalid);
    let empty = parsed("| n | s | d | |", false);
    assert_eq!(empty.dotfiles().len(), 1);
    assert_eq!(empty.dotfiles()[0].operation, Op::Invalid);
}

#[test]
fn extra_fields_are_not_read() {
    let dots = parsed("| n | s | d | symfile | a note | more |", false);
    assert_eq!(dots.dotfiles().len(), 1);
    assert_eq!(dots.dotfiles()[0].operation, Op::Symfile);
    assert_eq!(dots.dotfiles()[0].dest, "/home/u/d");
}

#[test]
fn the_header_is_skipped_when_asked() {
    let text = "| name | source | dest | op |\n|---+---+---+---|\n| n1 | app.conf | .apprc | SYMFILE |\n";
    let with = parsed(text, true);
    assert_eq!(with.dotfiles().len(), 1);
    assert_eq!(with.dotfiles()[0].name, "n1");
    assert_eq!(with.dotfiles()[0].line, 0);
    let without = parsed(text, false);
    assert_eq!(without.dotfiles().len(), 2);
    assert_eq!(without.dotfiles()[0].name, "name");
    assert_eq!(without.dotfiles()[0].operation, Op::Invalid);
    assert_eq!(without.dotfiles()[1].name, "n1");
    assert_eq!(without.dotfiles()[1].line, 2);
}

#[test]
fn the_first_two_lines_are_skipped_whatever_they_hold() {
    let text = "| a | s1 | d1 | symfile |\n| b | s2 | d2 | symfile |\n| c | s3 | d3 | symfile |";
    let dots = parsed(text, true);
    assert_eq!(dots.dotfiles().len(), 1);
    assert_eq!(dots.dotfiles()[0].name, "c");
}

#[test]
fn a_manifest_of_header_only_declares_nothing() {
    assert!(parsed("| name | source |\n|---|\n", true).dotfiles().is_empty());
    assert!(parsed("| name | source |", true).dotfiles().is_empty());
    assert!(parsed("", true).dotfiles().is_empty());
    assert!(parsed("", false).dotfiles().is_empty());
}

#[test]
fn windows_line_endings_are_accepted() {
    let dots = parsed("| a | s1 | d1 | symfile |\r\n| b | s2 | d2 | symdir |\r\n", false);
    assert_eq!(dots.dotfiles().len(), 2);
    assert_eq!(dots.dotfiles()[0].operation, Op::Symfile);
    assert_eq!(dots.dotfiles()[1].operation, Op::Symdir);
    assert_eq!(dots.dotfiles()[1].dest, "/home/u/d2");
}

#[test]
fn paths_are_resolved_against_the_prefixes() {
    let text = "| a | config/nvim | /etc/foo | symdir |\n| b | /abs/src/ | .config/dir/ | symdir |";
    let dots = parsed(text, false);
    let found = dots.dotfiles();
    assert_eq!(found[0].source, "/repo/config/nvim");
    assert_eq!(found[0].dest, "/etc/foo");
    assert_eq!(found[1].source, "/abs/src");
    assert_eq!(found[1].dest, "/home/u/.config/dir");
}

#[test]
fn a_missing_manifest_is_an_error() {
    let mut dots = Dots::build(flags(false, false));
    assert_eq!(dots.parse_file("DOTS", None), Err(ParseError::ManifestNotFound));
    assert_eq!(dots.filename(), "");
    assert!(dots.dotfiles().is_empty());
    assert_eq!(ParseError::ManifestNotFound.message("DOTS"), "File DOTS does not exist.");
}

#[test]
fn the_csv_format_is_not_supported() {
    let flags = Flags::build("csv", false, false, String::from("/repo"), String::from("/home/u"));
    let mut dots = Dots::build(flags);
    let result = dots.parse_file("DOTS", Some("| n1 | app.conf | .apprc | SYMFILE |"));
    assert_eq!(result, Err(ParseError::UnsupportedFormat));
    assert_eq!(dots.filename(), "");
    assert!(dots.dotfiles().is_empty());
    assert_eq!(
        ParseError::UnsupportedFormat.message("DOTS"),
        "ERROR: FormatFile::Csv is not implemented yet."
    );
}

#[test]
fn an_unsupported_format_is_reported_before_a_missing_manifest() {
    let flags = Flags::build("csv", false, false, String::from("/repo"), String::from("/home/u"));
    let mut dots = Dots::build(flags);
    assert_eq!(dots.parse_file("DOTS", None), Err(ParseError::UnsupportedFormat));
    assert_eq!(dots.filename(), "");
    assert!(dots.dotfiles().is_empty());
}

#[test]
fn dot_new_keeps_a_separator_at_the_end_of_the_source() {
    let dot = Dot::new(0, "n", " /repo/dir/ ", " /home/u/dir// ", "symdir");
    assert_eq!(dot.source, "/repo/dir/");
    assert_eq!(dot.dest, "/home/u/dir");
    let root = Dot::new(0, "n", "/", " / ", "symdir");
    assert_eq!(root.source, "/");
    assert_eq!(root.dest, "/");
}

#[test]
fn a_second_manifest_adds_to_the_first() {
    let mut dots = Dots::build(flags(false, false));
    assert_eq!(dots.parse_file("one", Some("| a | s1 | d1 | symfile |")), Ok(()));
    assert_eq!(dots.parse_file("two", Some("| b | s2 | d2 | symdir |")), Ok(()));
    assert_eq!(dots.filename(), "two");
    assert_eq!(dots.dotfiles().len(), 2);
    assert_eq!(dots.dotfiles()[0].name, "a");
    assert_eq!(dots.dotfiles()[1].name, "b");
    assert_eq!(dots.dotfiles()[1].line, 0);
}

#[test]
fn a_manifest_is_shown_line_by_line() {
    let dots = parsed("| a | s1 | d1 | symfile |\n| b | s2 | d2 | nope |", false);
    assert_eq!(
        dots.to_string(),
        "[a:0] /repo/s1 -> /home/u/d1 | Symfile\n[b:1] /repo/s2 -> /home/u/d2 | Invalid\n"
    );
}

#[test]
fn format_error_names_file_line_and_declaration() {
    let text = Dots::format_error(
        &String::from("DOTS"),
        3,
        &String::from("n1"),
        &String::from("something is wrong"),
    );
    assert_eq!(text, "./DOTS:3:0 -> Dotfile 'n1'\n\tsomething is wrong");
}
