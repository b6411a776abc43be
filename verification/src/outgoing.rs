//! The message builder of the `mail_builder` crate, which collects what the
//! reconstruction assigns.
//!
//! Verus does not look into a builder. What one holds has four names here,
//! and each function of this module states, without proof, what one method of
//! the builder does to them.

use crate::assignment::{
    Address, AssignedAttachment, AssignedHeader, AttachmentBody, HeaderAssignment,
};
use mail_builder::headers::address::Address as BuilderAddress;
use mail_builder::headers::content_type::ContentType;
use mail_builder::headers::date::Date;
use mail_builder::headers::text::Text;
use mail_builder::headers::HeaderType;
use mail_builder::MessageBuilder;
use vstd::prelude::*;

verus! {

#[verifier::external_type_specification]
#[verifier::external_body]
pub struct ExMessageBuilder<'x>(MessageBuilder<'x>);

/// The headers that `builder` holds, in the order in which they were added.
pub uninterp spec fn assigned_headers(builder: MessageBuilder<'static>) -> Seq<AssignedHeader>;

/// The attachments that `builder` holds, in the order in which they were
/// added.
pub uninterp spec fn assigned_attachments(builder: MessageBuilder<'static>) -> Seq<
    AssignedAttachment,
>;

/// The plain-text body that `builder` holds, if it was given one.
pub uninterp spec fn assigned_text_body(builder: MessageBuilder<'static>) -> Option<Seq<char>>;

/// The HTML body that `builder` holds, if it was given one.
pub uninterp spec fn assigned_html_body(builder: MessageBuilder<'static>) -> Option<Seq<char>>;

/// `MessageBuilder::new`: a builder without headers, bodies or attachments.
#[verifier::external_body]
pub(crate) fn new_builder() -> (result: MessageBuilder<'static>)
    ensures
        assigned_headers(result) == Seq::<AssignedHeader>::empty(),
        assigned_attachments(result) == Seq::<AssignedAttachment>::empty(),
        assigned_text_body(result) == None::<Seq<char>>,
        assigned_html_body(result) == None::<Seq<char>>,
{
    MessageBuilder::new()
}

/// `MessageBuilder::text_body`: sets the plain-text body, replacing an earlier
/// one, and leaves the rest of the builder as it is.
#[verifier::external_body]
pub(crate) fn with_text_body(dest: MessageBuilder<'static>, text: String) -> (result:
    MessageBuilder<'static>)
    ensures
        assigned_text_body(result) == Some(text@),
        assigned_headers(result) == assigned_headers(dest),
        assigned_attachments(result) == assigned_attachments(dest),
        assigned_html_body(result) == assigned_html_body(dest),
{
    dest.text_body(text)
}

/// `MessageBuilder::html_body`: sets the HTML body, replacing an earlier one,
/// and leaves the rest of the builder as it is.
#[verifier::external_body]
pub(crate) fn with_html_body(dest: MessageBuilder<'static>, html: String) -> (result:
    MessageBuilder<'static>)
    ensures
        assigned_html_body(result) == Some(html@),
        assigned_headers(result) == assigned_headers(dest),
        assigned_attachments(result) == assigned_attachments(dest),
        assigned_text_body(result) == assigned_text_body(dest),
{
    dest.html_body(html)
}

/// `MessageBuilder::header`: adds one header after those that are there,
/// whatever their names, and leaves the rest of the builder as it is. The
/// value is handed over as the builder's own type of the same kind, made by
/// `Address::new_address`, `Address::List`, `Text::new`, `Date::new` and
/// `ContentType::new`, which keep what they are given.
#[verifier::external_body]
pub(crate) fn with_header(
    dest: MessageBuilder<'static>,
    name: String,
    value: HeaderAssignment,
) -> (result: MessageBuilder<'static>)
    ensures
        assigned_headers(result) == assigned_headers(dest).push(
            AssignedHeader { name: name@, value: value@ },
        ),
        assigned_attachments(result) == assigned_attachments(dest),
        assigned_text_body(result) == assigned_text_body(dest),
        assigned_html_body(result) == assigned_html_body(dest),
{
    let single = |a: Address| BuilderAddress::new_address(a.name, a.address);
    let value = match value {
        HeaderAssignment::Address(a) => HeaderType::Address(single(a)),
        HeaderAssignment::AddressList(list) => HeaderType::Address(
            BuilderAddress::List(list.into_iter().map(single).collect()),
        ),
        HeaderAssignment::Text(text) => HeaderType::Text(Text::new(text)),
        HeaderAssignment::Date(timestamp) => HeaderType::Date(Date::new(timestamp)),
        HeaderAssignment::ContentType(text) => HeaderType::ContentType(ContentType::new(text)),
    };
    dest.header(name, value)
}

/// `MessageBuilder::binary_attachment`: adds one attachment with these bytes
/// after those that are there, and leaves the rest of the builder as it is.
#[verifier::external_body]
pub(crate) fn with_binary_attachment(
    dest: MessageBuilder<'static>,
    content_type: String,
    file_name: String,
    body: Vec<u8>,
) -> (result: MessageBuilder<'static>)
    ensures
        assigned_attachments(result) == assigned_attachments(dest).push(
            AssignedAttachment {
                content_type: content_type@,
                file_name: file_name@,
                body: AttachmentBody::Binary(body@),
            },
        ),
        assigned_headers(result) == assigned_headers(dest),
        assigned_text_body(result) == assigned_text_body(dest),
        assigned_html_body(result) == assigned_html_body(dest),
{
    dest.binary_attachment(content_type, file_name, body)
}

/// `MessageBuilder::text_attachment`: adds one attachment with this text
/// after those that are there, and leaves the rest of the builder as it is.
#[verifier::external_body]
pub(crate) fn with_text_attachment(
    dest: MessageBuilder<'static>,
    content_type: String,
    file_name: String,
    body: String,
) -> (result: MessageBuilder<'static>)
    ensures
        assigned_attachments(result) == assigned_attachments(dest).push(
            AssignedAttachment {
                content_type: content_type@,
                file_name: file_name@,
                body: AttachmentBody::Text(body@),
            },
        ),
        assigned_headers(result) == assigned_headers(dest),
        assigned_text_body(result) == assigned_text_body(dest),
        assigned_html_body(result) == assigned_html_body(dest),
{
    dest.text_attachment(content_type, file_name, body)
}

} // verus!
