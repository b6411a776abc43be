use mail_enrich::delivery::{
    html_mode, parse_port, plan_delivery, select_query, sender_address, stored_mode, ConfigError,
    Delivery, HtmlMode, Query,
};
use mail_enrich::message::{Addr, HeaderValue};

#[test]
fn port_numbers_are_read() {
    assert_eq!(parse_port("0"), Some(0));
    assert_eq!(parse_port("993"), Some(993));
    assert_eq!(parse_port("65535"), Some(65535));
    assert_eq!(parse_port("+143"), Some(143));
    assert_eq!(parse_port("000993"), Some(993));
    assert_eq!(parse_port("0000000000000000000065535"), Some(65535));
}

#[test]
fn what_is_no_port_number_is_refused() {
    for text in ["", "+", "-1", "65536", "99999999999999999999", "12a", "a12", " 12", "12 ", "++1", "1+", "+-1", "١٢", "1_000", "0x10"] {
        assert_eq!(parse_port(text), None, "{:?}", text);
    }
}

#[test]
fn ports_are_read_as_std_reads_them() {
    let samples = ["", "+", "-", "0", "7", "+7", "-7", "65535", "65536", "70000", "655350", "00", "+0", "1a", "a", "9 ", "429496729600", "4294967296", "/", ":", "+65535", "+65536"];
    for text in samples {
        assert_eq!(parse_port(text), text.parse::<u16>().ok(), "{:?}", text);
    }
}

#[test]
fn without_a_mailbox_nothing_is_stored() {
    assert_eq!(plan_delivery(None, None, None, None, None), Ok(None));
    assert_eq!(plan_delivery(None, Some("s"), Some("not a port"), Some("u"), Some("p")), Ok(None));
    assert_eq!(plan_delivery(None, Some("s"), None, None, None), Ok(None));
}

#[test]
fn a_mailbox_with_all_arguments_is_a_delivery() {
    assert_eq!(
        plan_delivery(Some("Sent"), Some("imap.example.com"), Some("993"), Some("me"), Some("secret")),
        Ok(Some(Delivery {
            mailbox: String::from("Sent"),
            server: String::from("imap.example.com"),
            port: 993,
            user: String::from("me"),
            password: String::from("secret"),
        }))
    );
}

#[test]
fn a_mailbox_without_all_arguments_is_refused() {
    assert_eq!(plan_delivery(Some("Sent"), None, Some("993"), Some("u"), Some("p")), Err(ConfigError::MissingArguments));
    assert_eq!(plan_delivery(Some("Sent"), Some("s"), None, Some("u"), Some("p")), Err(ConfigError::MissingArguments));
    assert_eq!(plan_delivery(Some("Sent"), Some("s"), Some("993"), None, Some("p")), Err(ConfigError::MissingArguments));
    assert_eq!(plan_delivery(Some("Sent"), Some("s"), Some("993"), Some("u"), None), Err(ConfigError::MissingArguments));
    assert_eq!(plan_delivery(Some("Sent"), None, None, None, None), Err(ConfigError::MissingArguments));
    assert_eq!(plan_delivery(Some("Sent"), None, Some("x"), Some("u"), Some("p")), Err(ConfigError::MissingArguments));
}

#[test]
fn a_port_that_is_no_port_is_refused() {
    assert_eq!(plan_delivery(Some("Sent"), Some("s"), Some("imap"), Some("u"), Some("p")), Err(ConfigError::InvalidPort));
    assert_eq!(plan_delivery(Some("Sent"), Some("s"), Some("65536"), Some("u"), Some("p")), Err(ConfigError::InvalidPort));
    assert_eq!(plan_delivery(Some("Sent"), Some("s"), Some(""), Some("u"), Some("p")), Err(ConfigError::InvalidPort));
}

#[test]
fn the_first_query_asked_for_is_answered() {
    assert_eq!(select_query(false, false, false, false), None);
    assert_eq!(select_query(true, true, true, true), Some(Query::MessageId));
    assert_eq!(select_query(false, true, true, true), Some(Query::Subject));
    assert_eq!(select_query(false, false, true, true), Some(Query::FromEmail));
    assert_eq!(select_query(false, false, false, true), Some(Query::HtmlPreview));
    assert_eq!(select_query(true, false, false, false), Some(Query::MessageId));
    assert_eq!(select_query(false, true, false, false), Some(Query::Subject));
    assert_eq!(select_query(false, false, true, false), Some(Query::FromEmail));
}

#[test]
fn a_pixel_is_added_to_a_generated_body_only() {
    assert_eq!(html_mode(false, None), HtmlMode::Plain);
    assert_eq!(html_mode(false, Some("https://t.example")), HtmlMode::Plain);
    assert_eq!(html_mode(true, None), HtmlMode::Rendered);
    assert_eq!(html_mode(true, Some("https://t.example")), HtmlMode::WithPixel(String::from("https://t.example")));
}

#[test]
fn the_stored_copy_has_no_pixel() {
    assert_eq!(stored_mode(&HtmlMode::Plain), HtmlMode::Plain);
    assert_eq!(stored_mode(&HtmlMode::Rendered), HtmlMode::Rendered);
    assert_eq!(stored_mode(&HtmlMode::WithPixel(String::from("u"))), HtmlMode::Rendered);
}

#[test]
fn sender_is_the_address_string_of_a_single_address() {
    let from = HeaderValue::Address(Addr { name: Some(String::from("J")), address: Some(String::from("j@x")) });
    assert_eq!(sender_address(&from), "j@x");
    let nameless = HeaderValue::Address(Addr { name: Some(String::from("J")), address: None });
    assert_eq!(sender_address(&nameless), "");
    let list = HeaderValue::AddressList(vec![Addr { name: None, address: Some(String::from("a@x")) }]);
    assert_eq!(sender_address(&list), "");
    assert_eq!(sender_address(&HeaderValue::Empty), "");
    assert_eq!(sender_address(&HeaderValue::Text(String::from("j@x"))), "");
}
