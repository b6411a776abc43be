use mail_enrich::error::ReconstructError;
use mail_enrich::message::Message;
use mail_enrich::render::{
    text_body, text_body_as_html, wrap_document, DOCUMENT_BETWEEN, DOCUMENT_HEAD, DOCUMENT_TAIL,
};

fn message_with_bodies(bodies: &[&str]) -> Message {
    Message {
        headers: vec![],
        text_bodies: bodies.iter().map(|b| String::from(*b)).collect(),
        attachments: vec![],
        message_id: None,
    }
}

fn expected_document(body: &str, append: &str) -> String {
    format!(
        "\n        <html>\n            <head>\n            <meta http-equiv=\"Content-Type\" content=\"text/html charset=UTF-8\" />\n            <meta name=\"generator\" content=\"mutt-html-markdown/0.1\" />\n            <style>\n                code {{ margin-left: 20px; background: #ddd; display: inline-block; padding: 10px 16px; font-family: monospace; }}\n                blockquote {{ white-space: normal; border-left: 10px solid #ddd; margin-left: 0; padding-left: 10px }}\n            </style>\n            </head>\n            <body>\n                {}\n                {}\n            </body>\n        </html>\n        ",
        body, append
    )
}

#[test]
fn first_text_body_is_the_text_body() {
    assert_eq!(text_body(&message_with_bodies(&["first", "second"])), Ok(String::from("first")));
    assert_eq!(text_body(&message_with_bodies(&[""])), Ok(String::new()));
}

#[test]
fn message_without_text_body_is_refused() {
    assert_eq!(text_body(&message_with_bodies(&[])), Err(ReconstructError::MissingTextBody));
    assert_eq!(text_body_as_html(&message_with_bodies(&[]), None), Err(ReconstructError::MissingTextBody));
    assert_eq!(
        text_body_as_html(&message_with_bodies(&[]), Some(String::from("x"))),
        Err(ReconstructError::MissingTextBody)
    );
}

#[test]
fn document_is_built_around_body_and_fragment() {
    assert_eq!(wrap_document("<p>b</p>\n", "<img />"), expected_document("<p>b</p>\n", "<img />"));
    assert_eq!(wrap_document("", ""), expected_document("", ""));
    assert_eq!(wrap_document("B", "A"), format!("{}B{}A{}", DOCUMENT_HEAD, DOCUMENT_BETWEEN, DOCUMENT_TAIL));
}

#[test]
fn document_declares_generator_and_styles() {
    let document = wrap_document("", "");
    assert!(document.contains("<meta name=\"generator\" content=\"mutt-html-markdown/0.1\" />"));
    assert!(document.contains("code { margin-left: 20px; background: #ddd; display: inline-block;"));
    assert!(document.contains("blockquote { white-space: normal; border-left: 10px solid #ddd;"));
}

#[test]
fn two_lines_are_rendered_with_a_hard_break() {
    let html = text_body_as_html(&message_with_bodies(&["line one\nline two"]), None).unwrap();
    let rendered = comrak::markdown_to_html("line one  \nline two  \n", &comrak::Options::default());
    assert_eq!(html, expected_document(&rendered, ""));
    assert!(rendered.contains("line one<br />\nline two"));
}

#[test]
fn markdown_of_the_body_is_rendered() {
    let html = text_body_as_html(&message_with_bodies(&["# Title\n\nsome *emphasis*"]), None).unwrap();
    assert!(html.contains("<h1>Title</h1>"));
    assert!(html.contains("<em>emphasis</em>"));
    assert!(!html.contains("# Title"));
}

#[test]
fn fragment_follows_the_rendered_body() {
    let html = text_body_as_html(&message_with_bodies(&["hello"]), Some(String::from("<img src=\"p\" />"))).unwrap();
    let rendered = comrak::markdown_to_html("hello  \n", &comrak::Options::default());
    assert_eq!(html, expected_document(&rendered, "<img src=\"p\" />"));
}

#[test]
fn only_the_first_text_body_is_rendered() {
    let html = text_body_as_html(&message_with_bodies(&["one", "two"]), None).unwrap();
    assert!(html.contains("<p>one</p>"));
    assert!(!html.contains("two"));
}

#[test]
fn rendering_twice_gives_the_same_document() {
    let message = message_with_bodies(&["a\n\n> quoted\n\n    code\n\r\nlast"]);
    let first = text_body_as_html(&message, Some(String::from("x")));
    let second = text_body_as_html(&message, Some(String::from("x")));
    assert!(first.is_ok());
    assert_eq!(first, second);
}
