//! Rebuilds a message: the text body, the headers and the attachments of a
//! parsed message are assigned to a new builder, and an HTML body where one is
//! asked for. Either everything is assigned or no builder is returned.

use crate::assignment::{AssignedAttachment, AssignedHeader};
use crate::attachments::{attachments_of, copy_attachments};
use crate::delivery::{HtmlMode, HtmlModeView};
use crate::error::ReconstructError;
use crate::headers::{
    all_supported, assignments, copy_headers_with, header_refused, ContentTypePolicy,
};
use crate::message::{Message, MessageView};
use crate::outgoing::{
    assigned_attachments, assigned_headers, assigned_html_body, assigned_text_body,
    new_builder, with_html_body, with_text_body,
};
use crate::pixel::{encoded_id, get_pixel_element, pixel_element};
use crate::render::{body_as_html, text_body, text_body_as_html};
use mail_builder::MessageBuilder;
use vstd::prelude::*;

verus! {

/// The HTML body that a message with a text body gets in `mode`: none, the
/// rendered text body, or the rendered text body followed by the pixel, which
/// a message without an identifier cannot have.
pub open spec fn html_body_of(message: MessageView, mode: HtmlModeView) -> Result<
    Option<Seq<char>>,
    ReconstructError,
> {
    let text = message.text_bodies[0];
    match mode {
        HtmlModeView::Plain => Ok(None),
        HtmlModeView::Rendered => Ok(Some(body_as_html(text, None))),
        HtmlModeView::WithPixel(base_url) => match message.message_id {
            Some(id) => Ok(
                Some(body_as_html(text, Some(pixel_element(base_url, encoded_id(id))))),
            ),
            None => Err(ReconstructError::MissingMessageId),
        },
    }
}

/// What `reconstruct` returns for `message`, `mode` and `policy`.
///
/// A message without a text body is refused; then a message with a header
/// that is not supported, by the first such header; then a message without an
/// identifier, where the pixel is asked for. Any other message gives a
/// builder that holds the first text body, the headers and the attachments
/// of the message, and the HTML body of `mode`.
pub open spec fn reconstructed(
    message: MessageView,
    mode: HtmlModeView,
    policy: ContentTypePolicy,
    result: Result<MessageBuilder<'static>, ReconstructError>,
) -> bool {
    if message.text_bodies.len() == 0 {
        result matches Err(error) && error == ReconstructError::MissingTextBody
    } else if !all_supported(message.headers, policy) {
        result matches Err(error) && header_refused(message.headers, policy, error)
    } else {
        match html_body_of(message, mode) {
            Ok(html) => {
                &&& result matches Ok(builder)
                &&& assigned_text_body(builder) == Some(message.text_bodies[0])
                &&& assigned_headers(builder) == assignments(message.headers, policy)
                &&& assigned_attachments(builder) == attachments_of(message.attachments)
                &&& assigned_html_body(builder) == html
            },
            Err(refusal) => result matches Err(error) && error == refusal,
        }
    }
}

/// A refusal on account of a header is owed to a header that is not
/// supported.
pub proof fn lemma_refused_is_unsupported(
    headers: Seq<crate::message::HeaderView>,
    policy: ContentTypePolicy,
    error: ReconstructError,
)
    requires
        header_refused(headers, policy, error),
    ensures
        !all_supported(headers, policy),
{
    let index = error->index as int;
    assert(!crate::headers::supported(headers[index], policy));
}

/// Rebuilds `message` with the HTML body of `mode`, and treats a content type
/// among the headers as `policy` says.
pub fn reconstruct(message: &Message, mode: &HtmlMode, policy: ContentTypePolicy) -> (result:
    Result<MessageBuilder<'static>, ReconstructError>)
    ensures
        reconstructed(message@, mode@, policy, result),
{
    let text = match text_body(message) {
        Ok(text) => text,
        Err(error) => {
            return Err(error);
        },
    };
    let builder = with_text_body(new_builder(), text);
    let builder = match copy_headers_with(builder, message, policy) {
        Ok(builder) => builder,
        Err(error) => {
            proof {
                lemma_refused_is_unsupported(message@.headers, policy, error);
            }
            return Err(error);
        },
    };
    let builder = copy_attachments(builder, message);
    assert(assigned_headers(builder) == assignments(message@.headers, policy)) by {
        assert(Seq::<AssignedHeader>::empty() + assignments(message@.headers, policy)
            == assignments(message@.headers, policy));
    }
    assert(assigned_attachments(builder) == attachments_of(message@.attachments)) by {
        assert(Seq::<AssignedAttachment>::empty() + attachments_of(message@.attachments)
            == attachments_of(message@.attachments));
    }
    let append = match mode {
        HtmlMode::Plain => {
            return Ok(builder);
        },
        HtmlMode::Rendered => None,
        HtmlMode::WithPixel(base_url) => match get_pixel_element(base_url.as_str(), message) {
            Ok(pixel) => Some(pixel),
            Err(error) => {
                return Err(error);
            },
        },
    };
    match text_body_as_html(message, append) {
        Ok(html) => Ok(with_html_body(builder, html)),
        Err(error) => Err(error),
    }
}

/// Rebuilds `message` without an HTML body and without a content type among
/// its headers: a builder with the first text body, the headers and the
/// attachments of the message.
pub fn get_builder_from_parser(message: &Message) -> (result: Result<
    MessageBuilder<'static>,
    ReconstructError,
>)
    ensures
        reconstructed(message@, HtmlModeView::Plain, ContentTypePolicy::Drop, result),
{
    reconstruct(message, &HtmlMode::Plain, ContentTypePolicy::Drop)
}

} // verus!
