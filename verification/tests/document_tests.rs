use ansi_senor::document::assemble_document;
use ansi_senor::document::render_document;
use ansi_senor::theme::Theme;

#[test]
fn shell_holds_title_colors_and_markup() {
    let doc = assemble_document("ls -la", "#ffffff", "#24292e", "hello\n");
    assert!(doc.starts_with("<!DOCTYPE html>"));
    assert!(doc.ends_with("</html>"));
    assert!(doc.contains("<title>ls -la</title>"));
    assert!(doc.contains("background-color: #ffffff;"));
    assert!(doc.contains("color: #24292e;"));
    assert!(doc.contains("<pre>hello\n</pre>"));
}

#[test]
fn light_theme_document_for_hello() {
    let doc = render_document("hello\n", "echo hello", Theme::Light).unwrap();
    assert!(doc.contains("background-color: #ffffff;"));
    assert!(doc.contains("<title>echo hello</title>"));
    assert!(doc.contains("<pre>hello\n</pre>"));
}

#[test]
fn empty_capture_gives_empty_preformatted_body() {
    let doc = render_document("", "true", Theme::Dark).unwrap();
    assert!(doc.contains("<pre></pre>"));
}

#[test]
fn markup_comes_from_the_ansi_conversion() {
    let text = "\u{1b}[31mred\u{1b}[0m plain\n";
    let doc = render_document(text, "printf", Theme::Dark).unwrap();
    let markup = ansi_to_html::convert(text).unwrap();
    assert_ne!(markup, text);
    let body = format!("<pre>{}</pre>", markup);
    assert!(doc.contains(&body));
}

#[test]
fn rejected_ansi_sequence_gives_conversion_error() {
    let text = "\u{1b}[300mtoo big\u{1b}[0m\n";
    assert!(ansi_to_html::convert(text).is_err());
    assert!(render_document(text, "printf", Theme::Dark).is_err());
}

#[test]
fn dark_theme_document_colors() {
    let doc = render_document("x\n", "cmd", Theme::Dark).unwrap();
    assert!(doc.contains("background-color: #1e1e1e;"));
    assert!(doc.contains("color: #d4d4d4;"));
}
