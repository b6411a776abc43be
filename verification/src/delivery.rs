//! What the reconstruction is asked to do, decided from plain values: which
//! single value is printed instead of a message, which HTML body the message
//! gets, and where a copy of it is stored.

use crate::error::result_view;
use crate::message::{HeaderValue, HeaderValueView};
use vstd::prelude::*;
use vstd::std_specs::iter::IteratorSpec;

verus! {

/// A single value that is printed in place of the rebuilt message.
#[derive(Clone, Copy, Debug, PartialEq, Eq)]
pub enum Query {
    /// The identifier of the message.
    MessageId,
    /// The subject of the message.
    Subject,
    /// The address string of the sender.
    FromEmail,
    /// The text body as an HTML document.
    HtmlPreview,
}

/// The query that is answered: the first that was asked for, in the order of
/// identifier, subject, sender and preview; none where none was asked for.
pub open spec fn query_of(
    get_message_id: bool,
    get_subject: bool,
    get_from_email: bool,
    html_preview: bool,
) -> Option<Query> {
    if get_message_id {
        Some(Query::MessageId)
    } else if get_subject {
        Some(Query::Subject)
    } else if get_from_email {
        Some(Query::FromEmail)
    } else if html_preview {
        Some(Query::HtmlPreview)
    } else {
        None
    }
}

/// Picks the one query that is answered in place of a reconstruction.
pub fn select_query(
    get_message_id: bool,
    get_subject: bool,
    get_from_email: bool,
    html_preview: bool,
) -> (result: Option<Query>)
    ensures
        result == query_of(get_message_id, get_subject, get_from_email, html_preview),
{
    if get_message_id {
        Some(Query::MessageId)
    } else if get_subject {
        Some(Query::Subject)
    } else if get_from_email {
        Some(Query::FromEmail)
    } else if html_preview {
        Some(Query::HtmlPreview)
    } else {
        None
    }
}

/// The address string of a sender: that of a single address, and nothing for
/// an address without one and for any other value.
pub open spec fn sender_of(from: HeaderValueView) -> Seq<char> {
    match from {
        HeaderValueView::Address(addr) => match addr.address {
            Some(address) => address,
            None => Seq::empty(),
        },
        _ => Seq::empty(),
    }
}

/// The address string of the sender, from the value of the sender's header.
pub fn sender_address(from: &HeaderValue) -> (result: String)
    ensures
        result@ == sender_of(from@),
{
    match from {
        HeaderValue::Address(addr) => match &addr.address {
            Some(address) => address.clone(),
            None => String::new(),
        },
        _ => String::new(),
    }
}

/// The HTML body that the rebuilt message gets.
#[derive(Clone, Debug, PartialEq, Eq)]
pub enum HtmlMode {
    /// None: the message keeps its text body alone.
    Plain,
    /// The text body, rendered.
    Rendered,
    /// The text body, rendered, followed by the tracking pixel for this base
    /// address.
    WithPixel(String),
}

pub enum HtmlModeView {
    Plain,
    Rendered,
    WithPixel(Seq<char>),
}

impl View for HtmlMode {
    type V = HtmlModeView;

    open spec fn view(&self) -> HtmlModeView {
        match self {
            HtmlMode::Plain => HtmlModeView::Plain,
            HtmlMode::Rendered => HtmlModeView::Rendered,
            HtmlMode::WithPixel(base_url) => HtmlModeView::WithPixel(base_url@),
        }
    }
}

impl DeepView for HtmlMode {
    type V = HtmlModeView;

    open spec fn deep_view(&self) -> HtmlModeView {
        self@
    }
}

/// The HTML body for what was asked for: a pixel is added to a generated body
/// only, so that without one the base address counts for nothing.
pub open spec fn html_mode_of(generate_html: bool, add_pixel: Option<Seq<char>>) -> HtmlModeView {
    if !generate_html {
        HtmlModeView::Plain
    } else {
        match add_pixel {
            Some(base_url) => HtmlModeView::WithPixel(base_url),
            None => HtmlModeView::Rendered,
        }
    }
}

/// Decides which HTML body the message that is sent gets.
pub fn html_mode(generate_html: bool, add_pixel: Option<&str>) -> (result: HtmlMode)
    ensures
        result@ == html_mode_of(generate_html, add_pixel.deep_view()),
{
    if !generate_html {
        HtmlMode::Plain
    } else {
        match add_pixel {
            Some(base_url) => HtmlMode::WithPixel(String::from_str(base_url)),
            None => HtmlMode::Rendered,
        }
    }
}

/// The HTML body of the copy that is stored: that of the message that is
/// sent, without the pixel.
pub open spec fn stored_mode_of(sent: HtmlModeView) -> HtmlModeView {
    match sent {
        HtmlModeView::Plain => HtmlModeView::Plain,
        _ => HtmlModeView::Rendered,
    }
}

/// Decides which HTML body the stored copy of a message gets.
pub fn stored_mode(sent: &HtmlMode) -> (result: HtmlMode)
    ensures
        result@ == stored_mode_of(sent@),
{
    match sent {
        HtmlMode::Plain => HtmlMode::Plain,
        _ => HtmlMode::Rendered,
    }
}

/// `c` is one of the digits `0` to `9`.
pub open spec fn is_digit(c: char) -> bool {
    '0' <= c <= '9'
}

/// Every character of `s` is a digit.
pub open spec fn all_digits(s: Seq<char>) -> bool {
    forall|i: int| 0 <= i < s.len() ==> is_digit(#[trigger] s[i])
}

/// The number that the digits of `s` write in base ten.
pub open spec fn decimal(s: Seq<char>) -> nat
    decreases s.len(),
{
    if s.len() == 0 {
        0
    } else {
        (decimal(s.drop_last()) * 10 + (s.last() as int - '0' as int)) as nat
    }
}

/// `text` without the plus sign that may stand in front of a number.
pub open spec fn unsigned_part(text: Seq<char>) -> Seq<char> {
    if text.len() > 0 && text[0] == '+' {
        text.skip(1)
    } else {
        text
    }
}

/// The port that `text` writes: one or more digits, a plus sign in front of
/// them or not, and a number of at most 65535.
pub open spec fn port_of(text: Seq<char>) -> Option<u16> {
    let digits = unsigned_part(text);
    if digits.len() > 0 && all_digits(digits) && decimal(digits) <= u16::MAX {
        Some(decimal(digits) as u16)
    } else {
        None
    }
}

/// More digits never write a smaller number.
pub proof fn lemma_decimal_grows(s: Seq<char>, k: int)
    requires
        0 <= k <= s.len(),
        all_digits(s),
    ensures
        decimal(s.take(k)) <= decimal(s),
    decreases s.len() - k,
{
    if k == s.len() {
        assert(s.take(k) == s);
    } else {
        let shorter = s.drop_last();
        assert(shorter.take(k) == s.take(k));
        assert(is_digit(s[s.len() - 1]));
        assert forall|i: int| 0 <= i < shorter.len() implies is_digit(#[trigger] shorter[i]) by {
            assert(shorter[i] == s[i]);
        }
        lemma_decimal_grows(shorter, k);
    }
}

/// The value of a digit.
fn digit(c: char) -> (result: Option<u32>)
    ensures
        is_digit(c) <==> result is Some,
        result matches Some(value) ==> value == c as int - '0' as int,
{
    match c {
        '0' => Some(0),
        '1' => Some(1),
        '2' => Some(2),
        '3' => Some(3),
        '4' => Some(4),
        '5' => Some(5),
        '6' => Some(6),
        '7' => Some(7),
        '8' => Some(8),
        '9' => Some(9),
        _ => None,
    }
}

/// Reads a port number.
pub fn parse_port(text: &str) -> (result: Option<u16>)
    ensures
        result == port_of(text@),
{
    broadcast use vstd::string::axiom_spec_iter;

    let ghost digits = unsigned_part(text@);
    let ghost offset = text@.len() - digits.len();
    let mut value: u32 = 0;
    let mut any = false;
    let mut first = true;
    for c in it: text.chars()
        invariant
            it.seq() == text@,
            digits == unsigned_part(text@),
            offset == text@.len() - digits.len(),
            first == (it.index() == 0),
            first ==> value == 0,
            it.index() >= offset || it.index() == 0,
            any == (it.index() > offset),
            it.index() >= offset ==> all_digits(digits.take(it.index() - offset)),
            it.index() >= offset ==> value == decimal(digits.take(it.index() - offset)),
            value <= u16::MAX,
    {
        let ghost i = it.index();
        assert(c == text@[i]);
        if first && c == '+' {
            first = false;
            assert(digits.take(0) == Seq::<char>::empty());

        } else {
            first = false;
            let ghost k = i - offset;
            assert(digits[k] == c);
            assert(digits.take(k + 1).drop_last() == digits.take(k));
            match digit(c) {
                Some(d) => {
                    let next = value * 10 + d;
                    if next > 65535 {
                        proof {
                            if all_digits(digits) {
                                lemma_decimal_grows(digits, k + 1);
                            }
                        }
                        return None;
                    }
                    value = next;
                    any = true;

                    assert(all_digits(digits.take(k + 1))) by {
                        assert forall|j: int| 0 <= j < k + 1 implies is_digit(
                            #[trigger] digits.take(k + 1)[j],
                        ) by {
                            if j < k {
                                assert(digits.take(k + 1)[j] == digits.take(k)[j]);
                            }
                        }
                    }
                },
                None => {
                    return None;
                },
            }
        }
    }
    assert(digits.take(digits.len() as int) == digits);
    if any {
        Some(value as u16)
    } else {
        None
    }
}

/// Where a copy of the message is stored.
#[derive(Clone, Debug, PartialEq, Eq)]
pub struct Delivery {
    pub mailbox: String,
    pub server: String,
    pub port: u16,
    pub user: String,
    pub password: String,
}

pub struct DeliveryView {
    pub mailbox: Seq<char>,
    pub server: Seq<char>,
    pub port: u16,
    pub user: Seq<char>,
    pub password: Seq<char>,
}

impl View for Delivery {
    type V = DeliveryView;

    open spec fn view(&self) -> DeliveryView {
        DeliveryView {
            mailbox: self.mailbox@,
            server: self.server@,
            port: self.port,
            user: self.user@,
            password: self.password@,
        }
    }
}

impl DeepView for Delivery {
    type V = DeliveryView;

    open spec fn deep_view(&self) -> DeliveryView {
        self@
    }
}

/// Why the message cannot be stored as asked.
#[derive(Clone, Copy, Debug, PartialEq, Eq)]
pub enum ConfigError {
    /// A mailbox was named, and the server, the port, the user or the
    /// password is missing.
    MissingArguments,
    /// The port is no number from 0 to 65535.
    InvalidPort,
}

/// Where the message is stored, for what was given of mailbox, server, port,
/// user and password. Without a mailbox nothing is stored, whatever else was
/// given. With a mailbox all the others are needed, and the port has to be a
/// port number.
pub open spec fn delivery_of(
    mailbox: Option<Seq<char>>,
    server: Option<Seq<char>>,
    port: Option<Seq<char>>,
    user: Option<Seq<char>>,
    password: Option<Seq<char>>,
) -> Result<Option<DeliveryView>, ConfigError> {
    if mailbox is None {
        Ok(None)
    } else if server is None || port is None || user is None || password is None {
        Err(ConfigError::MissingArguments)
    } else {
        match port_of(port->0) {
            Some(number) => Ok(
                Some(
                    DeliveryView {
                        mailbox: mailbox->0,
                        server: server->0,
                        port: number,
                        user: user->0,
                        password: password->0,
                    },
                ),
            ),
            None => Err(ConfigError::InvalidPort),
        }
    }
}

/// Decides whether and where a copy of the message is stored, before any
/// connection is made.
pub fn plan_delivery(
    mailbox: Option<&str>,
    server: Option<&str>,
    port: Option<&str>,
    user: Option<&str>,
    password: Option<&str>,
) -> (result: Result<Option<Delivery>, ConfigError>)
    ensures
        result_view(result) == delivery_of(
            mailbox.deep_view(),
            server.deep_view(),
            port.deep_view(),
            user.deep_view(),
            password.deep_view(),
        ),
{
    match (mailbox, server, port, user, password) {
        (None, _, _, _, _) => Ok(None),
        (Some(mailbox), Some(server), Some(port), Some(user), Some(password)) => {
            match parse_port(port) {
                Some(number) => Ok(
                    Some(
                        Delivery {
                            mailbox: String::from_str(mailbox),
                            server: String::from_str(server),
                            port: number,
                            user: String::from_str(user),
                            password: String::from_str(password),
                        },
                    ),
                ),
                None => Err(ConfigError::InvalidPort),
            }
        },
        _ => Err(ConfigError::MissingArguments),
    }
}

} // verus!
