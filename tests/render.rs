use gitlab_cli::link::format_link;
use gitlab_cli::record::{Field, cell_text};
use gitlab_cli::table::{first_wrapped_column, render, text_wraps, RenderError, WRAP_WIDTH};

fn plain(s: &str) -> Field {
    Field::Plain(s.to_string())
}

fn columns(names: &[&str]) -> Vec<String> {
    names.iter().map(|s| s.to_string()).collect()
}

#[test]
fn should_print_one_column_with_link_work() {
    let a = "\u{1b}]8;;http://www.google.com\u{1b}\\google\u{1b}]8;;\u{1b}\\";
    let out = render("Single column", &columns(&["&str"]), &vec![vec![plain(a)]]).unwrap();
    assert!(out.contains("Single column"));
    assert!(out.contains(a));
}

#[test]
fn should_print_multi_columns_with_link_work() {
    let row = vec![
        plain("123"),
        Field::Link { label: "123".to_string(), url: "http://www.google.com".to_string() },
    ];
    let out = render("Two columns", &columns(&["id", "link"]), &vec![row]).unwrap();
    assert!(out.contains("Two columns"));
    assert!(out.contains("\u{1b}]8;;http://www.google.com\u{1b}\\123\u{1b}]8;;\u{1b}\\"));
}

#[test]
fn link_with_url_is_osc8_encoded() {
    assert_eq!(
        format_link("42", "https://example.org/p/42"),
        "\u{1b}]8;;https://example.org/p/42\u{1b}\\42\u{1b}]8;;\u{1b}\\"
    );
}

#[test]
fn link_without_url_is_bare_label() {
    assert_eq!(format_link("42", ""), "42");
    let f = Field::Link { label: "7".to_string(), url: String::new() };
    assert_eq!(cell_text(&f), "7");
}

#[test]
fn link_cell_starts_with_prefix_and_url() {
    let f = Field::Link { label: "7".to_string(), url: "http://h/x".to_string() };
    assert!(cell_text(&f).starts_with("\u{1b}]8;;http://h/x"));
}

#[test]
fn plain_cell_is_verbatim() {
    assert_eq!(cell_text(&plain("hello world")), "hello world");
}

#[test]
fn empty_row_set_renders_caption_and_header() {
    let out = render("Projects", &columns(&["id", "name"]), &vec![]).unwrap();
    assert!(out.contains("Projects"));
    assert!(out.contains("id"));
    assert!(out.contains("name"));
    assert!(out.contains('┌'));
    assert!(out.contains('└'));
    assert!(out.contains('│'));
}

#[test]
fn one_header_row_and_one_row_per_record() {
    let rows = vec![
        vec![plain("1"), plain("alpha")],
        vec![plain("2"), plain("beta")],
        vec![plain("3"), plain("gamma")],
    ];
    let out = render("Items", &columns(&["key", "value"]), &rows).unwrap();
    let content: Vec<&str> = out.lines().filter(|l| l.starts_with('│')).collect();
    // caption band, header row, three record rows
    assert_eq!(content.len(), 5);
    assert!(content[1].contains("key") && content[1].contains("value"));
    assert!(content[2].contains("alpha"));
    assert!(content[3].contains("beta"));
    assert!(content[4].contains("gamma"));
}

#[test]
fn single_column_long_value_is_not_wrapped() {
    let long: String = "abcdefghij ".repeat(18) + "ab";
    assert_eq!(long.len(), 200);
    let out = render("Single", &columns(&["text"]), &vec![vec![Field::Plain(long.clone())]]).unwrap();
    assert!(out.lines().any(|l| l.contains(&long)));
}

#[test]
fn multi_column_long_title_breaks_at_spaces_only() {
    let title = "Improve the rendering of wide merge lists";
    assert_eq!(title.len(), 41);
    let rows = vec![vec![plain("1"), plain(title)]];
    let out = render("Merge Requests", &columns(&["mr id", "title"]), &rows).unwrap();
    assert!(!out.contains(title));
    for word in title.split(' ') {
        assert!(out.contains(word), "word {} was split", word);
    }
    let lines_with_words = out.lines().filter(|l| title.split(' ').any(|w| l.contains(w))).count();
    assert!(lines_with_words >= 3);
    assert_eq!(WRAP_WIDTH, 14);
}

#[test]
fn rendering_twice_gives_identical_text() {
    let rows = vec![
        vec![
            Field::Link { label: "9".to_string(), url: "http://h/9".to_string() },
            plain("a fairly long title that wraps"),
        ],
        vec![plain("10"), plain("short")],
    ];
    let cols = columns(&["id", "title"]);
    let a = render("Twice", &cols, &rows).unwrap();
    let b = render("Twice", &cols, &rows).unwrap();
    assert_eq!(a, b);
}

#[test]
fn no_columns_is_rejected() {
    assert_eq!(render("Empty", &vec![], &vec![]), Err(RenderError::NoColumns));
}

#[test]
fn mismatched_row_is_rejected() {
    let rows = vec![vec![plain("1"), plain("a")], vec![plain("2")], vec![plain("3")]];
    assert_eq!(
        render("Bad", &columns(&["id", "name"]), &rows),
        Err(RenderError::SchemaMismatch { row: 1, expected: 2, found: 1 })
    );
}

#[test]
fn wrap_policy_by_column_count() {
    assert_eq!(first_wrapped_column(0), 0);
    assert_eq!(first_wrapped_column(1), 1);
    assert_eq!(first_wrapped_column(2), 1);
    assert_eq!(first_wrapped_column(7), 1);
}

#[test]
fn rendered_table_differs_from_its_input() {
    let out = render("Caption", &columns(&["only"]), &vec![vec![plain("x")]]).unwrap();
    assert_ne!(out, "x");
    assert!(out.contains('─'));
    assert!(out.lines().count() >= 5);
}

#[test]
fn accented_title_wraps_at_spaces() {
    let title = "Émettre les rôles à déployer après coup";
    assert_eq!(title.chars().count(), 39);
    let rows = vec![vec![plain("5"), plain(title)]];
    let out = render("Merge Requests", &columns(&["mr id", "title"]), &rows).unwrap();
    assert!(!out.contains(title));
    for word in title.split(' ') {
        assert!(out.contains(word), "word {} was split", word);
    }
    assert!(out.lines().filter(|l| l.contains("Émettre") || l.contains("déployer")).count() >= 2);
}

#[test]
fn latin_extended_text_wraps_without_fault() {
    let all: String = ('\u{A0}'..='\u{24F}').filter(|c| *c != '\u{A0}').collect();
    let words: Vec<String> = all.chars().collect::<Vec<char>>().chunks(9).map(|w| w.iter().collect()).collect();
    let text = words.join(" ") + " " + &all;
    assert!(text_wraps(&text));
    let rows = vec![vec![plain("1"), Field::Plain(text.clone())], vec![plain("2"), plain("\u{A0}x\u{A0}y")]];
    let out = render("Latin", &columns(&["id", "text"]), &rows).unwrap();
    assert!(out.contains(&words[0]));
    assert!(out.lines().count() > 10);
}

#[test]
fn wrappable_text_classes() {
    assert!(text_wraps("plain words"));
    assert!(text_wraps("Ça coûte ǅ"));
    assert!(!text_wraps("\u{1b}]8;;x\u{1b}\\y"));
    assert!(!text_wraps("a\u{200D}b"));
    assert!(!text_wraps("flag\u{FE0F}"));
    assert!(text_wraps("Ș"));
    assert!(!text_wraps("\u{250}"));
}

#[test]
fn hyperlink_in_wrapped_column_stays_whole() {
    let link = Field::Link { label: "a long label here".to_string(), url: "http://h/x".to_string() };
    let out = render("Links", &columns(&["id", "link"]), &vec![vec![plain("1"), link]]).unwrap();
    assert!(out.contains("\u{1b}]8;;http://h/x\u{1b}\\a long label here\u{1b}]8;;\u{1b}\\"));
}
