use lrnscraper::save_content::{
    data_file_path, match_file_extension, save_by_extension, save_html_content, save_in_csv,
    supported_extension, SaveError, SavePlan,
};

fn strings(items: &[&str]) -> Vec<String> {
    items.iter().map(|s| s.to_string()).collect()
}

#[test]
fn saved_files_are_under_the_data_folder() {
    assert_eq!(data_file_path("Apple.csv"), "data/Apple.csv");
    assert_eq!(data_file_path(""), "data/");
}

#[test]
fn text_save_appends_one_line_per_item() {
    match save_html_content(strings(&["first", "second"]), "Wikipedia.txt") {
        SavePlan::AppendLines { path, lines } => {
            assert_eq!(path, "data/Wikipedia.txt");
            assert_eq!(lines, vec!["first\n", "second\n"]);
        }
        other => panic!("unexpected plan {:?}", other),
    }
}

#[test]
fn text_save_of_nothing_appends_nothing() {
    match save_html_content(Vec::new(), "empty.txt") {
        SavePlan::AppendLines { path, lines } => {
            assert_eq!(path, "data/empty.txt");
            assert!(lines.is_empty());
        }
        other => panic!("unexpected plan {:?}", other),
    }
}

#[test]
fn csv_save_writes_header_then_rows() {
    match save_in_csv(strings(&["Hello", "World"]), "Apple.csv", "h2") {
        SavePlan::WriteFile { path, bytes } => {
            assert_eq!(path, "data/Apple.csv");
            assert_eq!(String::from_utf8(bytes).unwrap(), "h2\nHello\nWorld\n");
        }
        other => panic!("unexpected outcome {:?}", other),
    }
}

#[test]
fn csv_save_quotes_where_needed() {
    match save_in_csv(strings(&["a,b", "say \"hi\"", "", "two\nlines"]), "q.csv", "sel") {
        SavePlan::WriteFile { bytes, .. } => {
            assert_eq!(
                String::from_utf8(bytes).unwrap(),
                "sel\n\"a,b\"\n\"say \"\"hi\"\"\"\n\"\"\n\"two\nlines\"\n"
            );
        }
        other => panic!("unexpected outcome {:?}", other),
    }
}

#[test]
fn csv_save_of_nothing_writes_the_header() {
    match save_in_csv(Vec::new(), "h.csv", "globalnav-menubutton-link-search") {
        SavePlan::WriteFile { bytes, .. } => {
            assert_eq!(String::from_utf8(bytes).unwrap(), "globalnav-menubutton-link-search\n");
        }
        other => panic!("unexpected outcome {:?}", other),
    }
}

#[test]
fn supported_extensions_are_txt_and_csv() {
    assert!(supported_extension("txt"));
    assert!(supported_extension("csv"));
    assert!(!supported_extension("json"));
    assert!(!supported_extension("TXT"));
    assert!(!supported_extension(""));
}

#[test]
fn extension_selects_the_format() {
    match match_file_extension(strings(&["x"]), "out.txt", "txt", "p") {
        SavePlan::AppendLines { lines, .. } => assert_eq!(lines, vec!["x\n"]),
        other => panic!("unexpected outcome {:?}", other),
    }
    match match_file_extension(strings(&["x"]), "out.csv", "csv", "p") {
        SavePlan::WriteFile { bytes, .. } => assert_eq!(bytes, b"p\nx\n".to_vec()),
        other => panic!("unexpected outcome {:?}", other),
    }
}

#[test]
fn save_by_extension_follows_the_file_name() {
    match save_by_extension(strings(&["a"]), "report.csv", "td") {
        Ok(SavePlan::WriteFile { path, bytes }) => {
            assert_eq!(path, "data/report.csv");
            assert_eq!(bytes, b"td\na\n".to_vec());
        }
        other => panic!("unexpected outcome {:?}", other),
    }
    match save_by_extension(strings(&["a"]), "report.txt", "td") {
        Ok(SavePlan::AppendLines { path, lines }) => {
            assert_eq!(path, "data/report.txt");
            assert_eq!(lines, vec!["a\n"]);
        }
        other => panic!("unexpected outcome {:?}", other),
    }
}

#[test]
fn save_by_extension_refuses_other_extensions() {
    assert!(matches!(
        save_by_extension(strings(&["a"]), "report.json", "td"),
        Err(SaveError::UnsupportedExtension)
    ));
    assert!(matches!(
        save_by_extension(strings(&["a"]), "report", "td"),
        Err(SaveError::UnsupportedExtension)
    ));
}

#[test]
fn csv_plain_fields_are_written_as_they_are() {
    match save_in_csv(strings(&["a", "Wikipédia"]), "p.csv", "h") {
        SavePlan::WriteFile { bytes, .. } => {
            assert_eq!(String::from_utf8(bytes).unwrap(), "h\na\nWikipédia\n");
        }
        other => panic!("unexpected plan {:?}", other),
    }
}

#[test]
fn csv_carriage_return_and_empty_header_are_quoted() {
    match save_in_csv(strings(&["x\ry", "\""]), "r.csv", "") {
        SavePlan::WriteFile { bytes, .. } => {
            assert_eq!(String::from_utf8(bytes).unwrap(), "\"\"\n\"x\ry\"\n\"\"\"\"\n");
        }
        other => panic!("unexpected plan {:?}", other),
    }
}
