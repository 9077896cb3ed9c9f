//! Assembly of the final self-contained HTML document.
//!
//! The ANSI-escape-to-HTML conversion itself is an external collaborator; the
//! document shell around its markup is fixed text parameterized by the theme
//! colors and the command used as the title.

use vstd::prelude::*;
use vstd::string::*;

use crate::theme::Theme;

verus! {

#[verifier::external_type_specification]
#[verifier::external_body]
pub struct ExAnsiToHtmlError(ansi_to_html::Error);

/// What ansi_to_html::convert returns, when it succeeds, for the given
/// text: the markup depends on the text alone.
pub uninterp spec fn html_of(text: Seq<char>) -> Seq<char>;

/// Whether ansi_to_html::convert accepts the given text: it fails exactly
/// on texts whose ANSI escape sequences it rejects, a condition of the text
/// alone.
pub uninterp spec fn ansi_convert_ok(text: Seq<char>) -> bool;

/// Relies on ansi_to_html::convert: the outcome is a function of the input
/// text alone — it succeeds exactly on the texts the converter accepts, the
/// markup then depends on the text alone, and an empty input converts to
/// empty markup.
#[verifier::external_body]
fn convert_ansi(text: &str) -> (r: Result<String, ansi_to_html::Error>)
    ensures
        r is Ok <==> ansi_convert_ok(text@),
        r matches Ok(m) ==> m@ == html_of(text@),
        text@.len() == 0 ==> r is Ok && r->Ok_0@.len() == 0,
{
    ansi_to_html::convert(text)
}

/// Why no document could be produced: the external ANSI-escape-to-HTML
/// conversion rejected the captured text.
#[derive(Debug)]
pub enum RenderError {
    Conversion(ansi_to_html::Error),
}

/// The complete document: a fixed head with the command as title and inline
/// CSS setting the theme colors and a monospace font, and a body holding the
/// markup verbatim inside a preformatted block.
pub open spec fn document_spec(
    title: Seq<char>,
    background: Seq<char>,
    foreground: Seq<char>,
    markup: Seq<char>,
) -> Seq<char> {
    "<!DOCTYPE html>\n<html>\n<head>\n    <meta charset=\"UTF-8\">\n    <title>"@ + title
        + "</title>\n    <style>\n        body {\n            background-color: "@ + background
        + ";\n            color: "@ + foreground
        + ";\n            font-family: 'Consolas', 'Courier New', monospace;\n            padding: 20px;\n            margin: 0;\n        }\n        pre {\n            white-space: pre-wrap;\n            word-wrap: break-word;\n        }\n    </style>\n</head>\n<body>\n    <pre>"@
        + markup + "</pre>\n</body>\n</html>"@
}

/// Wraps already-converted markup in the fixed HTML/CSS shell.
pub fn assemble_document(
    title: &str,
    background: &str,
    foreground: &str,
    markup: &str,
) -> (r: String)
    ensures
        r@ == document_spec(title@, background@, foreground@, markup@),
{
    let mut out = String::from_str(
        "<!DOCTYPE html>\n<html>\n<head>\n    <meta charset=\"UTF-8\">\n    <title>",
    );
    out.append(title);
    out.append("</title>\n    <style>\n        body {\n            background-color: ");
    out.append(background);
    out.append(";\n            color: ");
    out.append(foreground);
    out.append(
        ";\n            font-family: 'Consolas', 'Courier New', monospace;\n            padding: 20px;\n            margin: 0;\n        }\n        pre {\n            white-space: pre-wrap;\n            word-wrap: break-word;\n        }\n    </style>\n</head>\n<body>\n    <pre>",
    );
    out.append(markup);
    out.append("</pre>\n</body>\n</html>");
    out
}

/// Converts the captured text to markup and assembles the full document for
/// it. The document is a pure function of the captured text, the command
/// line and the theme; it is produced exactly when the converter accepts
/// the text, and an empty capture always yields a document with an empty
/// preformatted body.
pub fn render_document(output_text: &str, command_line: &str, theme: Theme) -> (r: Result<
    String,
    RenderError,
>)
    ensures
        r is Ok <==> ansi_convert_ok(output_text@),
        r matches Ok(doc) ==> doc@ == document_spec(
            command_line@,
            theme.background_color_spec(),
            theme.text_color_spec(),
            html_of(output_text@),
        ),
        output_text@.len() == 0 ==> (r matches Ok(doc) && doc@ == document_spec(
            command_line@,
            theme.background_color_spec(),
            theme.text_color_spec(),
            Seq::<char>::empty(),
        )),
{
    match convert_ansi(output_text) {
        Ok(markup) => Ok(
            assemble_document(
                command_line,
                theme.background_color(),
                theme.text_color(),
                markup.as_str(),
            ),
        ),
        Err(e) => Err(RenderError::Conversion(e)),
    }
}

} // verus!
