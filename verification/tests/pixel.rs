use mail_enrich::error::ReconstructError;
use mail_enrich::message::Message;
use mail_enrich::pixel::{get_pixel_element, wrap_pixel, PIXEL_HEAD, PIXEL_PATH, PIXEL_SUFFIX, PIXEL_TAIL};

fn message_with_id(id: Option<&str>) -> Message {
    Message { headers: vec![], text_bodies: vec![], attachments: vec![], message_id: id.map(String::from) }
}

fn segment_of(element: &str, base_url: &str) -> String {
    let start = format!("{}{}{}", PIXEL_HEAD, base_url, PIXEL_PATH);
    let end = format!("{}{}", PIXEL_SUFFIX, PIXEL_TAIL);
    assert!(element.starts_with(&start));
    assert!(element.ends_with(&end));
    String::from(&element[start.len()..element.len() - end.len()])
}

#[test]
fn pixel_for_the_example_message() {
    let got = get_pixel_element("https://t.example", &message_with_id(Some("<abc123@example.com>"))).unwrap();
    let expected = "\n        <img src=\"https://t.example/image/PGFiYzEyM0BleGFtcGxlLmNvbT4.gif\" alt=\"Open pixel\" style=\"border: 0px; width: 0px; max-width: 1px;\" />\n        ";
    assert_eq!(got, expected);
}

#[test]
fn pixel_needs_an_identifier() {
    assert_eq!(
        get_pixel_element("https://t.example", &message_with_id(None)),
        Err(ReconstructError::MissingMessageId)
    );
}

#[test]
fn identifier_is_encoded_without_padding() {
    for (id, encoded) in [("", ""), ("M", "TQ"), ("Ma", "TWE"), ("Man", "TWFu"), ("Many", "TWFueQ"), ("\u{e9}", "w6k")] {
        let got = get_pixel_element("b", &message_with_id(Some(id))).unwrap();
        assert_eq!(segment_of(&got, "b"), encoded);
    }
}

#[test]
fn identifier_is_encoded_with_the_standard_alphabet() {
    let got = get_pixel_element("b", &message_with_id(Some(">>>???"))).unwrap();
    assert_eq!(segment_of(&got, "b"), "Pj4+Pz8/");
}

#[test]
fn same_input_gives_the_same_pixel() {
    let message = message_with_id(Some("<abc123@example.com>"));
    assert_eq!(get_pixel_element("https://t.example", &message), get_pixel_element("https://t.example", &message));
}

#[test]
fn one_changed_character_changes_the_encoded_part() {
    let first = get_pixel_element("u", &message_with_id(Some("<abc123@example.com>"))).unwrap();
    let second = get_pixel_element("u", &message_with_id(Some("<abd123@example.com>"))).unwrap();
    assert_eq!(segment_of(&first, "u"), "PGFiYzEyM0BleGFtcGxlLmNvbT4");
    assert_eq!(segment_of(&second, "u"), "PGFiZDEyM0BleGFtcGxlLmNvbT4");
    assert_ne!(first, second);
}

#[test]
fn base_address_is_taken_as_it_is() {
    let got = get_pixel_element("http://h/x/", &message_with_id(Some("M"))).unwrap();
    assert!(got.contains("src=\"http://h/x//image/TQ.gif\""));
    let got = get_pixel_element("", &message_with_id(Some("M"))).unwrap();
    assert!(got.contains("src=\"/image/TQ.gif\""));
}

#[test]
fn element_is_built_around_address_and_encoded_part() {
    assert_eq!(
        wrap_pixel("B", "E"),
        "\n        <img src=\"B/image/E.gif\" alt=\"Open pixel\" style=\"border: 0px; width: 0px; max-width: 1px;\" />\n        "
    );
}
