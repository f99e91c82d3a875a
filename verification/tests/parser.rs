use pactrack::parser::{parse_update_line, parse_update_lines};
use pactrack::state::UpdateSource;

#[test]
fn parses_official_format() {
    let input = "pacman 6.1.0-1 -> 6.1.1-1\nopenssl 3.1.5-1 -> 3.1.6-1\n";
    let parsed = parse_update_lines(input, UpdateSource::Official);

    assert_eq!(parsed.len(), 2);
    assert_eq!(parsed[0].name, "pacman");
    assert_eq!(parsed[0].current, "6.1.0-1");
    assert_eq!(parsed[0].latest, "6.1.1-1");
    assert_eq!(parsed[1].name, "openssl");
}

#[test]
fn parses_aur_format() {
    let input = "google-chrome 125.0.1-1 -> 125.0.2-1\n";
    let parsed = parse_update_lines(input, UpdateSource::Aur);

    assert_eq!(parsed.len(), 1);
    assert_eq!(parsed[0].name, "google-chrome");
    assert_eq!(parsed[0].latest, "125.0.2-1");
    assert_eq!(parsed[0].source, UpdateSource::Aur);
}

#[test]
fn skips_invalid_lines() {
    let input = "\nwarning line\nfoo 1 -> 2\n";
    let parsed = parse_update_lines(input, UpdateSource::Official);

    assert_eq!(parsed.len(), 1);
    assert_eq!(parsed[0].name, "foo");
}

#[test]
fn line_with_arrow_names_the_word_after_it() {
    let parsed = parse_update_line("pacman 6.1.0-1 -> 6.1.1-1", UpdateSource::Official)
        .expect("three words and more");
    assert_eq!(parsed.name, "pacman");
    assert_eq!(parsed.current, "6.1.0-1");
    assert_eq!(parsed.latest, "6.1.1-1");
    assert_eq!(parsed.source, UpdateSource::Official);
}

#[test]
fn line_of_two_words_is_skipped() {
    assert_eq!(parse_update_line("pacman 6.1.0-1", UpdateSource::Official), None);
    assert_eq!(parse_update_line("", UpdateSource::Official), None);
    assert_eq!(parse_update_line("   \t ", UpdateSource::Aur), None);
}

#[test]
fn line_without_arrow_uses_its_last_word() {
    let parsed = parse_update_line("yay 12.0 12.1 extra", UpdateSource::Aur).expect("four words");
    assert_eq!(parsed.name, "yay");
    assert_eq!(parsed.current, "12.0");
    assert_eq!(parsed.latest, "extra");
}

#[test]
fn arrow_at_the_end_is_its_own_latest() {
    let parsed = parse_update_line("foo 1 ->", UpdateSource::Official).expect("three words");
    assert_eq!(parsed.latest, "->");
}

#[test]
fn first_arrow_decides() {
    let parsed =
        parse_update_line("foo -> 2 -> 3", UpdateSource::Official).expect("five words");
    assert_eq!(parsed.name, "foo");
    assert_eq!(parsed.current, "->");
    assert_eq!(parsed.latest, "2");
}

#[test]
fn words_are_cut_at_any_white_space() {
    let parsed = parse_update_line("  foo\t1.0 \u{a0}->\u{2003}2.0  ", UpdateSource::Official)
        .expect("four words");
    assert_eq!(parsed.name, "foo");
    assert_eq!(parsed.current, "1.0");
    assert_eq!(parsed.latest, "2.0");
}

#[test]
fn order_of_lines_is_kept_and_endings_do_not_matter() {
    let input = "b 1 -> 2\r\na 3 -> 4\r\n\r\nbroken line\nc 5 6";
    let parsed = parse_update_lines(input, UpdateSource::Official);
    let names: Vec<&str> = parsed.iter().map(|p| p.name.as_str()).collect();
    assert_eq!(names, vec!["b", "a", "c"]);
    assert_eq!(parsed[0].latest, "2");
    assert_eq!(parsed[2].latest, "6");
}

#[test]
fn empty_listing_reports_nothing() {
    assert!(parse_update_lines("", UpdateSource::Official).is_empty());
    assert!(parse_update_lines("\n\n\n", UpdateSource::Official).is_empty());
}
