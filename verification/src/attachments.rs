//! Carries the attachments of a parsed message over to a message builder.
//!
//! The content type and the file name of an attachment are read from the
//! headers of the part; a part without them gets an empty string. Parts that
//! carry bytes or text are attached again with what they carry, and parts of
//! any other shape are passed over.

use crate::assignment::{AssignedAttachment, AttachmentBody};
use crate::message::{
    HeaderValue, HeaderValueView, HeaderView, Message, MessagePart, MessagePartView, PartType,
    PartTypeView,
};
use crate::outgoing::{
    assigned_attachments, assigned_headers, assigned_html_body, assigned_text_body,
    with_binary_attachment, with_text_attachment,
};
use mail_builder::MessageBuilder;
use vstd::prelude::*;

verus! {

/// The name of the header that states the content type of a part.
pub const CONTENT_TYPE: &'static str = "Content-Type";

/// The name of the header that states how a part is to be presented.
pub const CONTENT_DISPOSITION: &'static str = "Content-Disposition";

/// The attribute of a content disposition that holds the file name.
pub const FILENAME: &'static str = "filename";

/// The file name among `headers`: the `filename` attribute of the last
/// content-disposition header whose value has the shape of a content type.
/// It is empty where that header has no such attribute, and where there is no
/// such header.
pub open spec fn file_name_of(headers: Seq<HeaderView>) -> Seq<char>
    decreases headers.len(),
{
    if headers.len() == 0 {
        Seq::empty()
    } else {
        let header = headers.last();
        match header.value {
            HeaderValueView::ContentType(disposition) if header.name == CONTENT_DISPOSITION@ => {
                match disposition.attribute(FILENAME@) {
                    Some(name) => name,
                    None => Seq::empty(),
                }
            },
            _ => file_name_of(headers.drop_last()),
        }
    }
}

/// The content type among `headers`: `type` or `type/subtype` of the
/// content-type header whose value has the shape of a content type. Where
/// there are several such headers, theirs follow one another; where there is
/// none, it is empty.
pub open spec fn content_type_of(headers: Seq<HeaderView>) -> Seq<char>
    decreases headers.len(),
{
    if headers.len() == 0 {
        Seq::empty()
    } else {
        let header = headers.last();
        let earlier = content_type_of(headers.drop_last());
        match header.value {
            HeaderValueView::ContentType(content_type) if header.name == CONTENT_TYPE@ => {
                earlier + content_type.type_string()
            },
            _ => earlier,
        }
    }
}

/// The attachment that `part` becomes: one with its bytes or its text, or
/// none where the part carries anything else.
pub open spec fn attachment_of(part: MessagePartView) -> Option<AssignedAttachment> {
    match part.body {
        PartTypeView::Binary(bytes) => Some(
            AssignedAttachment {
                content_type: content_type_of(part.headers),
                file_name: file_name_of(part.headers),
                body: AttachmentBody::Binary(bytes),
            },
        ),
        PartTypeView::Text(text) => Some(
            AssignedAttachment {
                content_type: content_type_of(part.headers),
                file_name: file_name_of(part.headers),
                body: AttachmentBody::Text(text),
            },
        ),
        _ => None,
    }
}

/// The attachments that `parts` become, in their order.
pub open spec fn attachments_of(parts: Seq<MessagePartView>) -> Seq<AssignedAttachment> {
    parts.filter_map(|part: MessagePartView| attachment_of(part))
}

/// The file name of an attachment, read from the part's own headers.
pub fn get_file_name(attachment: &MessagePart) -> (result: String)
    ensures
        result@ == file_name_of(attachment@.headers),
{
    let ghost headers = attachment@.headers;
    let wanted = String::from_str(CONTENT_DISPOSITION);
    let mut result = String::new();
    let mut i: usize = 0;
    while i < attachment.headers.len()
        invariant
            i <= attachment.headers.len(),
            headers == attachment@.headers,
            wanted@ == CONTENT_DISPOSITION@,
            result@ == file_name_of(headers.take(i as int)),
        decreases attachment.headers.len() - i,
    {
        let header = &attachment.headers[i];
        assert(headers[i as int] == header@);
        assert(headers.take(i + 1).drop_last() == headers.take(i as int));
        if header.name == wanted {
            match &header.value {
                HeaderValue::ContentType(disposition) => {
                    result =
                    match disposition.attribute(FILENAME) {
                        Some(name) => name,
                        None => String::new(),
                    };
                },
                _ => {},
            }
        }
        i += 1;
    }
    assert(headers.take(i as int) == headers);
    result
}

/// The content type of an attachment, read from the part's own headers.
pub fn get_content_type(attachment: &MessagePart) -> (result: String)
    ensures
        result@ == content_type_of(attachment@.headers),
{
    let ghost headers = attachment@.headers;
    let wanted = String::from_str(CONTENT_TYPE);
    let mut result = String::new();
    let mut i: usize = 0;
    while i < attachment.headers.len()
        invariant
            i <= attachment.headers.len(),
            headers == attachment@.headers,
            wanted@ == CONTENT_TYPE@,
            result@ == content_type_of(headers.take(i as int)),
        decreases attachment.headers.len() - i,
    {
        let header = &attachment.headers[i];
        assert(headers[i as int] == header@);
        assert(headers.take(i + 1).drop_last() == headers.take(i as int));
        if header.name == wanted {
            match &header.value {
                HeaderValue::ContentType(content_type) => {
                    let text = content_type.type_string();
                    result.append(text.as_str());
                },
                _ => {},
            }
        }
        i += 1;
    }
    assert(headers.take(i as int) == headers);
    result
}

/// Attaches the attachments of `source` to `dest` again, in their order:
/// those that carry bytes or text, each with its content type, its file name
/// and what it carries. Nothing else of the builder changes.
pub fn copy_attachments(dest: MessageBuilder<'static>, source: &Message) -> (result:
    MessageBuilder<'static>)
    ensures
        assigned_attachments(result) == assigned_attachments(dest) + attachments_of(
            source@.attachments,
        ),
        assigned_headers(result) == assigned_headers(dest),
        assigned_text_body(result) == assigned_text_body(dest),
        assigned_html_body(result) == assigned_html_body(dest),
{
    let ghost parts = source@.attachments;
    let ghost before = dest;
    let mut dest = dest;
    let mut i: usize = 0;
    while i < source.attachments.len()
        invariant
            i <= source.attachments.len(),
            parts == source@.attachments,
            assigned_attachments(dest) == assigned_attachments(before) + attachments_of(
                parts.take(i as int),
            ),
            assigned_headers(dest) == assigned_headers(before),
            assigned_text_body(dest) == assigned_text_body(before),
            assigned_html_body(dest) == assigned_html_body(before),
        decreases source.attachments.len() - i,
    {
        let attachment = &source.attachments[i];
        assert(parts[i as int] == attachment@);
        proof {
            parts.lemma_filter_map_take_succ(
                |part: MessagePartView| attachment_of(part),
                i as int,
            );
        }
        match &attachment.body {
            PartType::Binary(body) => {
                let content_type = get_content_type(attachment);
                let file_name = get_file_name(attachment);
                dest = with_binary_attachment(dest, content_type, file_name, body.clone());
            },
            PartType::Text(body) => {
                let content_type = get_content_type(attachment);
                let file_name = get_file_name(attachment);
                dest = with_text_attachment(dest, content_type, file_name, body.clone());
            },
            _ => {},
        }
        i += 1;
    }
    assert(parts.take(i as int) == parts);
    dest
}

/// The part carries bytes or text, and so is attached again.
pub open spec fn attachable(part: MessagePartView) -> bool {
    part.body is Binary || part.body is Text
}

/// What the attachment carries is what the part carried: the same bytes, or
/// the same characters.
pub open spec fn same_payload(source: PartTypeView, attached: AttachmentBody) -> bool {
    match (source, attached) {
        (PartTypeView::Binary(from), AttachmentBody::Binary(to)) => from == to,
        (PartTypeView::Text(from), AttachmentBody::Text(to)) => from == to,
        _ => false,
    }
}

/// The attachments of the rebuilt message are the parts that carry bytes or
/// text, one for one and in the same order, each with what it carried. The
/// other parts are not among them.
pub proof fn lemma_attachment_payloads_kept(parts: Seq<MessagePartView>)
    ensures
        ({
            let kept = parts.filter(|part: MessagePartView| attachable(part));
            let attached = attachments_of(parts);
            &&& attached.len() == kept.len()
            &&& forall|k: int|
                0 <= k < attached.len() ==> same_payload(
                    kept[k].body,
                    (#[trigger] attached[k]).body,
                )
        }),
{
    let each = |part: MessagePartView| attachment_of(part);
    let is_kept = |part: MessagePartView| each(part) is Some;
    crate::sequences::lemma_filter_map_keeps(parts, each);
    assert(is_kept =~= |part: MessagePartView| attachable(part));
    let kept = parts.filter(is_kept);
    let attached = attachments_of(parts);
    assert forall|k: int| 0 <= k < attached.len() implies same_payload(
        kept[k].body,
        (#[trigger] attached[k]).body,
    ) by {
        parts.lemma_filter_pred(is_kept, k);
        assert(attached[k] == each(kept[k])->0);
    }
}

} // verus!
