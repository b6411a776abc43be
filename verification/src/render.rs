//! Renders the plain-text body of a message to an HTML document.
//!
//! The body gets a hard break after each line, goes through the markdown
//! renderer of the `comrak` crate, and is set into a fixed document together
//! with an optional fragment that follows it.

use crate::error::{result_view, ReconstructError};
use crate::lines::{hard_broken, pre_markdown};
use crate::message::Message;
use vstd::prelude::*;

verus! {

/// The document up to the rendered body.
pub const DOCUMENT_HEAD: &'static str = r#"
        <html>
            <head>
            <meta http-equiv="Content-Type" content="text/html charset=UTF-8" />
            <meta name="generator" content="mutt-html-markdown/0.1" />
            <style>
                code { margin-left: 20px; background: #ddd; display: inline-block; padding: 10px 16px; font-family: monospace; }
                blockquote { white-space: normal; border-left: 10px solid #ddd; margin-left: 0; padding-left: 10px }
            </style>
            </head>
            <body>
                "#;

/// What stands between the rendered body and the fragment that follows it.
pub const DOCUMENT_BETWEEN: &'static str = "\n                ";

/// The document after the fragment.
pub const DOCUMENT_TAIL: &'static str = r#"
            </body>
        </html>
        "#;

/// The HTML that the markdown renderer makes of `text` with its default
/// options.
pub uninterp spec fn markdown_html(text: Seq<char>) -> Seq<char>;

/// The document around a rendered body and the fragment that follows it.
pub open spec fn html_document(body: Seq<char>, append: Seq<char>) -> Seq<char> {
    DOCUMENT_HEAD@ + body + DOCUMENT_BETWEEN@ + append + DOCUMENT_TAIL@
}

/// The fragment that follows the body: the given one, or nothing.
pub open spec fn fragment(append: Option<Seq<char>>) -> Seq<char> {
    match append {
        Some(text) => text,
        None => Seq::empty(),
    }
}

/// The HTML document for a plain-text body and the fragment that follows it.
pub open spec fn body_as_html(body: Seq<char>, append: Option<Seq<char>>) -> Seq<char> {
    html_document(markdown_html(hard_broken(body)), fragment(append))
}

/// `comrak::markdown_to_html` with the default options: the result is the
/// rendering of `text`, which depends on `text` alone.
#[verifier::external_body]
pub(crate) fn render_markdown(text: &str) -> (result: String)
    ensures
        result@ == markdown_html(text@),
{
    comrak::markdown_to_html(text, &comrak::Options::default())
}

/// The first text body of `message`. A message without a text body is
/// refused.
pub fn text_body(message: &Message) -> (result: Result<String, ReconstructError>)
    ensures
        match result {
            Ok(text) => message@.text_bodies.len() > 0 && text@ == message@.text_bodies[0],
            Err(error) => message@.text_bodies.len() == 0 && error
                == ReconstructError::MissingTextBody,
        },
{
    if message.text_bodies.len() == 0 {
        Err(ReconstructError::MissingTextBody)
    } else {
        assert(message@.text_bodies[0] == message.text_bodies[0]@);
        Ok(message.text_bodies[0].clone())
    }
}

/// Sets a rendered body and the fragment that follows it into the document.
pub fn wrap_document(body: &str, append: &str) -> (result: String)
    ensures
        result@ == html_document(body@, append@),
{
    let mut result = String::from_str(DOCUMENT_HEAD);
    result.append(body);
    result.append(DOCUMENT_BETWEEN);
    result.append(append);
    result.append(DOCUMENT_TAIL);
    result
}

/// What `text_body_as_html` returns for the text bodies of a message and a
/// fragment: the document for the first text body, or the refusal of a
/// message without a text body.
pub open spec fn html_rendered(
    text_bodies: Seq<Seq<char>>,
    append: Option<Seq<char>>,
    result: Result<Seq<char>, ReconstructError>,
) -> bool {
    if text_bodies.len() > 0 {
        result == Ok::<Seq<char>, ReconstructError>(body_as_html(text_bodies[0], append))
    } else {
        result == Err::<Seq<char>, ReconstructError>(ReconstructError::MissingTextBody)
    }
}

/// Renders the first text body of `message` to an HTML document, with
/// `append` after the rendered body. A message without a text body is
/// refused.
pub fn text_body_as_html(message: &Message, append: Option<String>) -> (result: Result<
    String,
    ReconstructError,
>)
    ensures
        html_rendered(message@.text_bodies, append.deep_view(), result_view(result)),
{
    match text_body(message) {
        Ok(text) => {
            let prepared = pre_markdown(text.as_str());
            let body = render_markdown(prepared.as_str());
            let document = match &append {
                Some(extra) => wrap_document(body.as_str(), extra.as_str()),
                None => {
                    proof {
                        reveal_strlit("");
                        assert(""@ == Seq::<char>::empty());
                    }
                    wrap_document(body.as_str(), "")
                },
            };
            Ok(document)
        },
        Err(error) => Err(error),
    }
}

/// Rendering has no hidden state: what was rendered from the same text bodies
/// and the same fragment is the same each time, document or refusal.
pub proof fn lemma_rendering_is_deterministic(
    text_bodies: Seq<Seq<char>>,
    append: Option<Seq<char>>,
    first: Result<Seq<char>, ReconstructError>,
    second: Result<Seq<char>, ReconstructError>,
)
    requires
        html_rendered(text_bodies, append, first),
        html_rendered(text_bodies, append, second),
    ensures
        first == second,
{
}

} // verus!
