use mail_builder::headers::text::Text;
use mail_builder::headers::HeaderType;
use mail_builder::mime::{BodyPart, MimePart};
use mail_enrich::delivery::HtmlMode;
use mail_enrich::error::{HeaderFault, ReconstructError};
use mail_enrich::headers::ContentTypePolicy;
use mail_enrich::message::{Addr, ContentType, Group, Header, HeaderValue, Message, MessagePart, PartType};
use mail_enrich::pixel::get_pixel_element;
use mail_enrich::rebuild::{get_builder_from_parser, reconstruct};
use mail_enrich::render::text_body_as_html;

fn text_header(name: &str, text: &str) -> Header {
    Header { name: String::from(name), value: HeaderValue::Text(String::from(text)) }
}

fn example_message() -> Message {
    Message {
        headers: vec![
            text_header("Message-ID", "<abc123@example.com>"),
            text_header("Subject", "Hello"),
            Header {
                name: String::from("Content-Type"),
                value: HeaderValue::ContentType(ContentType {
                    c_type: String::from("multipart"),
                    c_subtype: Some(String::from("mixed")),
                    attributes: vec![(String::from("boundary"), String::from("x"))],
                }),
            },
        ],
        text_bodies: vec![String::from("line one\nline two")],
        attachments: vec![MessagePart {
            headers: vec![
                Header {
                    name: String::from("Content-Type"),
                    value: HeaderValue::ContentType(ContentType {
                        c_type: String::from("text"),
                        c_subtype: Some(String::from("plain")),
                        attributes: vec![],
                    }),
                },
                Header {
                    name: String::from("Content-Disposition"),
                    value: HeaderValue::ContentType(ContentType {
                        c_type: String::from("attachment"),
                        c_subtype: None,
                        attributes: vec![(String::from("filename"), String::from("note.txt"))],
                    }),
                },
            ],
            body: PartType::Text(String::from("hi")),
        }],
        message_id: Some(String::from("<abc123@example.com>")),
    }
}

fn text_of(part: &Option<MimePart<'static>>) -> Option<String> {
    match part {
        Some(MimePart { contents: BodyPart::Text(text), .. }) => Some(text.to_string()),
        Some(_) => panic!("a body that is no text"),
        None => None,
    }
}

#[test]
fn example_message_is_rebuilt() {
    let builder = get_builder_from_parser(&example_message()).unwrap();
    assert_eq!(text_of(&builder.text_body), Some(String::from("line one\nline two")));
    assert_eq!(text_of(&builder.html_body), None);
    assert_eq!(builder.headers.len(), 2);
    assert_eq!(builder.headers[0].0, "Message-ID");
    assert_eq!(builder.headers[0].1, HeaderType::Text(Text::new("<abc123@example.com>")));
    assert_eq!(builder.headers[1].0, "Subject");
    assert_eq!(builder.headers[1].1, HeaderType::Text(Text::new("Hello")));
    let attached = builder.attachments.clone().unwrap();
    assert_eq!(attached.len(), 1);
    assert!(matches!(&attached[0].contents, BodyPart::Text(t) if t == "hi"));
    assert!(builder.body.is_none());
    let written = builder.write_to_string().unwrap();
    assert!(written.contains("Subject: Hello\r\n"));
    assert!(written.contains("line one\r\nline two"));
    assert!(written.contains("note.txt"));
}

#[test]
fn text_body_comes_from_the_message_alone() {
    let mut message = example_message();
    message.text_bodies = vec![String::from("first"), String::from("second")];
    let builder = get_builder_from_parser(&message).unwrap();
    assert_eq!(text_of(&builder.text_body), Some(String::from("first")));
}

#[test]
fn plain_mode_is_the_plain_reconstruction() {
    let builder = reconstruct(&example_message(), &HtmlMode::Plain, ContentTypePolicy::Drop).unwrap();
    assert!(builder.html_body.is_none());
    assert_eq!(builder.headers.len(), 2);
}

#[test]
fn rendered_mode_adds_the_html_body() {
    let message = example_message();
    let builder = reconstruct(&message, &HtmlMode::Rendered, ContentTypePolicy::Drop).unwrap();
    let expected = text_body_as_html(&message, None).unwrap();
    assert_eq!(text_of(&builder.html_body), Some(expected));
    assert_eq!(text_of(&builder.text_body), Some(String::from("line one\nline two")));
    assert_eq!(builder.headers.len(), 2);
    assert_eq!(builder.attachments.map(|a| a.len()), Some(1));
}

#[test]
fn pixel_mode_adds_the_pixel_after_the_body() {
    let message = example_message();
    let mode = HtmlMode::WithPixel(String::from("https://t.example"));
    let builder = reconstruct(&message, &mode, ContentTypePolicy::Drop).unwrap();
    let pixel = get_pixel_element("https://t.example", &message).unwrap();
    let expected = text_body_as_html(&message, Some(pixel)).unwrap();
    let html = text_of(&builder.html_body).unwrap();
    assert_eq!(html, expected);
    assert!(html.contains("src=\"https://t.example/image/PGFiYzEyM0BleGFtcGxlLmNvbT4.gif\""));
    assert!(html.contains("line one<br />\nline two"));
}

#[test]
fn regenerate_policy_keeps_the_content_type() {
    let builder = reconstruct(&example_message(), &HtmlMode::Plain, ContentTypePolicy::Regenerate).unwrap();
    assert_eq!(builder.headers.len(), 3);
    assert_eq!(builder.headers[2].0, "Content-Type");
    match &builder.headers[2].1 {
        HeaderType::ContentType(ct) => {
            assert_eq!(ct.c_type, "multipart/mixed");
            assert!(ct.attributes.is_empty());
        }
        _ => panic!("not a content type"),
    }
}

#[test]
fn missing_text_body_comes_first() {
    let mut message = example_message();
    message.text_bodies = vec![];
    message.headers.push(Header { name: String::from("X"), value: HeaderValue::Empty });
    message.message_id = None;
    for mode in [HtmlMode::Plain, HtmlMode::Rendered, HtmlMode::WithPixel(String::from("u"))] {
        assert_eq!(
            reconstruct(&message, &mode, ContentTypePolicy::Drop).err(),
            Some(ReconstructError::MissingTextBody)
        );
    }
    assert_eq!(get_builder_from_parser(&message).err(), Some(ReconstructError::MissingTextBody));
}

#[test]
fn unsupported_header_comes_before_missing_identifier() {
    let mut message = example_message();
    message.headers.push(Header {
        name: String::from("To"),
        value: HeaderValue::Group(Group { name: None, addresses: vec![] }),
    });
    message.message_id = None;
    let mode = HtmlMode::WithPixel(String::from("u"));
    assert_eq!(
        reconstruct(&message, &mode, ContentTypePolicy::Drop).err(),
        Some(ReconstructError::Header { index: 3, fault: HeaderFault::Group })
    );
}

#[test]
fn missing_identifier_matters_for_the_pixel_only() {
    let mut message = example_message();
    message.message_id = None;
    assert!(reconstruct(&message, &HtmlMode::Plain, ContentTypePolicy::Drop).is_ok());
    assert!(reconstruct(&message, &HtmlMode::Rendered, ContentTypePolicy::Drop).is_ok());
    assert_eq!(
        reconstruct(&message, &HtmlMode::WithPixel(String::from("u")), ContentTypePolicy::Drop).err(),
        Some(ReconstructError::MissingMessageId)
    );
}

#[test]
fn missing_address_stops_the_reconstruction() {
    let mut message = example_message();
    message.headers.insert(
        0,
        Header {
            name: String::from("From"),
            value: HeaderValue::Address(Addr { name: Some(String::from("J")), address: None }),
        },
    );
    assert_eq!(
        get_builder_from_parser(&message).err(),
        Some(ReconstructError::Header { index: 0, fault: HeaderFault::MissingAddress })
    );
}
