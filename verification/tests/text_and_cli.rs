use lrnscraper::cli::{lrnscraper_version, parse_command, Command, VERSION};
use lrnscraper::text::{str_eq, trim};
use lrnscraper::utils::{get_scraper_option, split_file_extension};

fn args(items: &[&str]) -> Vec<String> {
    items.iter().map(|s| s.to_string()).collect()
}

#[test]
fn extension_of_readme_save_files() {
    assert_eq!(split_file_extension("Apple.csv"), "csv");
    assert_eq!(split_file_extension("Wikipedia.txt"), "txt");
}

#[test]
fn extension_is_after_the_last_dot() {
    assert_eq!(split_file_extension("archive.tar.gz"), "gz");
    assert_eq!(split_file_extension("a.b.c.txt"), "txt");
}

#[test]
fn extension_of_name_without_dot_is_the_name() {
    assert_eq!(split_file_extension("notes"), "notes");
    assert_eq!(split_file_extension(""), "");
}

#[test]
fn extension_of_name_ending_in_dot_is_empty() {
    assert_eq!(split_file_extension("notes."), "");
    assert_eq!(split_file_extension(".hidden"), "hidden");
}

#[test]
fn extension_of_unicode_name() {
    assert_eq!(split_file_extension("Wikipédia.é.txt"), "txt");
    assert_eq!(split_file_extension("données.çsv"), "çsv");
}

#[test]
fn scraper_options_in_order() {
    assert_eq!(get_scraper_option(), vec!["html-tag", "css-class", "id"]);
}

#[test]
fn version_text() {
    assert_eq!(lrnscraper_version(), "lrnscraper 0.6.0");
    assert_eq!(VERSION, "0.6.0");
}

#[test]
fn trim_removes_unicode_white_space() {
    assert_eq!(trim("  -v \t\n"), "-v");
    assert_eq!(trim("\u{3000}run\u{a0}"), "run");
    assert_eq!(trim("a b"), "a b");
    assert_eq!(trim("   "), "");
    assert_eq!(trim(""), "");
    for s in ["  x ", "\u{2003}y\u{85}", " \u{1680} z \u{205f}", "w"] {
        assert_eq!(trim(s), s.trim());
    }
}

#[test]
fn str_eq_compares_characters() {
    assert!(str_eq("txt", "txt"));
    assert!(!str_eq("txt", "csv"));
    assert!(!str_eq("txt", "txt "));
    assert!(str_eq("", ""));
}

#[test]
fn commands_by_name() {
    assert_eq!(parse_command(&args(&["lrnscraper", "init"])), Command::Init);
    assert_eq!(parse_command(&args(&["lrnscraper", "run"])), Command::Run);
    assert_eq!(parse_command(&args(&["lrnscraper", "clean"])), Command::Clean);
    assert_eq!(parse_command(&args(&["lrnscraper", "help"])), Command::Help);
}

#[test]
fn invalid_commands() {
    assert_eq!(parse_command(&args(&["lrnscraper"])), Command::Invalid);
    assert_eq!(parse_command(&args(&[])), Command::Invalid);
    assert_eq!(parse_command(&args(&["lrnscraper", "start"])), Command::Invalid);
    assert_eq!(parse_command(&args(&["lrnscraper", " run"])), Command::Invalid);
}

#[test]
fn version_flag_is_the_last_argument() {
    assert_eq!(parse_command(&args(&["lrnscraper", "-v"])), Command::Version);
    assert_eq!(parse_command(&args(&["lrnscraper", "--version"])), Command::Version);
    assert_eq!(parse_command(&args(&["lrnscraper", "run", " -v "])), Command::Version);
    assert_eq!(parse_command(&args(&["lrnscraper", "-v", "run"])), Command::Invalid);
    assert_eq!(parse_command(&args(&["lrnscraper", "--version", "clean"])), Command::Invalid);
    assert_eq!(parse_command(&args(&["lrnscraper", "clean", "--version"])), Command::Version);
    assert_eq!(parse_command(&args(&["--version"])), Command::Version);
}

#[test]
fn help_flag_is_the_last_argument() {
    assert_eq!(parse_command(&args(&["lrnscraper", "-h"])), Command::Help);
    assert_eq!(parse_command(&args(&["lrnscraper", "--help"])), Command::Help);
    assert_eq!(parse_command(&args(&["lrnscraper", "run", " --help"])), Command::Help);
    assert_eq!(parse_command(&args(&["lrnscraper", "-h", "run"])), Command::Invalid);
    assert_eq!(parse_command(&args(&["lrnscraper", "-h", "-v"])), Command::Version);
}
