//! A parsed e-mail message, as the reconstruction reads it: headers with typed
//! values, the text bodies, and the attachment parts.
//!
//! Every type has a view, which holds the same data as sequences and is what
//! the contracts of the other modules speak of.

use vstd::prelude::*;

verus! {

/// An address: a display name and an address string, each of which a parser
/// may have failed to find.
#[derive(Clone, Debug, PartialEq, Eq)]
pub struct Addr {
    pub name: Option<String>,
    pub address: Option<String>,
}

pub struct AddrView {
    pub name: Option<Seq<char>>,
    pub address: Option<Seq<char>>,
}

impl View for Addr {
    type V = AddrView;

    open spec fn view(&self) -> AddrView {
        AddrView { name: self.name.deep_view(), address: self.address.deep_view() }
    }
}

impl DeepView for Addr {
    type V = AddrView;

    open spec fn deep_view(&self) -> AddrView {
        self@
    }
}

/// A named group of addresses.
#[derive(Clone, Debug, PartialEq, Eq)]
pub struct Group {
    pub name: Option<String>,
    pub addresses: Vec<Addr>,
}

pub struct GroupView {
    pub name: Option<Seq<char>>,
    pub addresses: Seq<AddrView>,
}

impl View for Group {
    type V = GroupView;

    open spec fn view(&self) -> GroupView {
        GroupView { name: self.name.deep_view(), addresses: self.addresses.deep_view() }
    }
}

impl DeepView for Group {
    type V = GroupView;

    open spec fn deep_view(&self) -> GroupView {
        self@
    }
}

/// The value of a content-type or content-disposition header: a type, a
/// subtype, and named attributes in the order in which they were written.
#[derive(Clone, Debug, PartialEq, Eq)]
pub struct ContentType {
    pub c_type: String,
    pub c_subtype: Option<String>,
    pub attributes: Vec<(String, String)>,
}

pub struct ContentTypeView {
    pub c_type: Seq<char>,
    pub c_subtype: Option<Seq<char>>,
    pub attributes: Seq<(Seq<char>, Seq<char>)>,
}

impl View for ContentType {
    type V = ContentTypeView;

    open spec fn view(&self) -> ContentTypeView {
        ContentTypeView {
            c_type: self.c_type@,
            c_subtype: self.c_subtype.deep_view(),
            attributes: self.attributes.deep_view(),
        }
    }
}

impl DeepView for ContentType {
    type V = ContentTypeView;

    open spec fn deep_view(&self) -> ContentTypeView {
        self@
    }
}

/// The value of the first pair of `attributes` that is named `name`.
pub open spec fn attribute_of(attributes: Seq<(Seq<char>, Seq<char>)>, name: Seq<char>) -> Option<
    Seq<char>,
>
    decreases attributes.len(),
{
    if attributes.len() == 0 {
        None
    } else if attributes[0].0 == name {
        Some(attributes[0].1)
    } else {
        attribute_of(attributes.drop_first(), name)
    }
}

impl ContentTypeView {
    /// The type alone, or the type, a slash and the subtype where there is
    /// one.
    pub open spec fn type_string(self) -> Seq<char> {
        match self.c_subtype {
            Some(subtype) => self.c_type + seq!['/'] + subtype,
            None => self.c_type,
        }
    }

    /// The value of the first attribute named `name`.
    pub open spec fn attribute(self, name: Seq<char>) -> Option<Seq<char>> {
        attribute_of(self.attributes, name)
    }
}

impl ContentType {
    /// The type alone, or the type, a slash and the subtype where there is
    /// one.
    pub fn type_string(&self) -> (result: String)
        ensures
            result@ == self@.type_string(),
    {
        let mut result = self.c_type.clone();
        match &self.c_subtype {
            Some(subtype) => {
                result.push('/');
                result.append(subtype.as_str());
            },
            None => {},
        }
        result
    }

    /// The value of the first attribute named `name`, if there is one.
    pub fn attribute(&self, name: &str) -> (result: Option<String>)
        ensures
            result.deep_view() == self@.attribute(name@),
    {
        let wanted = String::from_str(name);
        let ghost all = self.attributes.deep_view();
        let mut i: usize = 0;
        assert(all.skip(0) == all);
        while i < self.attributes.len()
            invariant
                i <= self.attributes.len(),
                all == self.attributes.deep_view(),
                wanted@ == name@,
                attribute_of(all, name@) == attribute_of(all.skip(i as int), name@),
            decreases self.attributes.len() - i,
        {
            let ghost rest = all.skip(i as int);
            assert(rest[0] == all[i as int]);
            assert(rest.drop_first() == all.skip(i + 1));
            if self.attributes[i].0 == wanted {
                return Some(self.attributes[i].1.clone());
            }
            i += 1;
        }
        None
    }
}

/// The typed value of a header.
#[derive(Clone, Debug, PartialEq, Eq)]
pub enum HeaderValue {
    /// A single address.
    Address(Addr),
    /// Addresses in the order of the header.
    AddressList(Vec<Addr>),
    /// A named group of addresses.
    Group(Group),
    /// Several groups of addresses.
    GroupList(Vec<Group>),
    /// Free text.
    Text(String),
    /// Several texts.
    TextList(Vec<String>),
    /// A date, in seconds since the epoch.
    DateTime(i64),
    /// A content type or a content disposition.
    ContentType(ContentType),
    /// No value.
    Empty,
}

pub enum HeaderValueView {
    Address(AddrView),
    AddressList(Seq<AddrView>),
    Group(GroupView),
    GroupList(Seq<GroupView>),
    Text(Seq<char>),
    TextList(Seq<Seq<char>>),
    DateTime(i64),
    ContentType(ContentTypeView),
    Empty,
}

impl View for HeaderValue {
    type V = HeaderValueView;

    open spec fn view(&self) -> HeaderValueView {
        match self {
            HeaderValue::Address(addr) => HeaderValueView::Address(addr@),
            HeaderValue::AddressList(list) => HeaderValueView::AddressList(list.deep_view()),
            HeaderValue::Group(group) => HeaderValueView::Group(group@),
            HeaderValue::GroupList(list) => HeaderValueView::GroupList(list.deep_view()),
            HeaderValue::Text(text) => HeaderValueView::Text(text@),
            HeaderValue::TextList(list) => HeaderValueView::TextList(list.deep_view()),
            HeaderValue::DateTime(timestamp) => HeaderValueView::DateTime(*timestamp),
            HeaderValue::ContentType(content_type) => HeaderValueView::ContentType(content_type@),
            HeaderValue::Empty => HeaderValueView::Empty,
        }
    }
}

/// A header: its name, in the spelling in which it is written out again, and
/// its value.
#[derive(Clone, Debug, PartialEq, Eq)]
pub struct Header {
    pub name: String,
    pub value: HeaderValue,
}

pub struct HeaderView {
    pub name: Seq<char>,
    pub value: HeaderValueView,
}

impl View for Header {
    type V = HeaderView;

    open spec fn view(&self) -> HeaderView {
        HeaderView { name: self.name@, value: self.value@ }
    }
}

impl DeepView for Header {
    type V = HeaderView;

    open spec fn deep_view(&self) -> HeaderView {
        self@
    }
}

/// What a message part carries.
#[derive(Clone, Debug, PartialEq, Eq)]
pub enum PartType {
    /// Decoded text.
    Text(String),
    /// Decoded HTML.
    Html(String),
    /// Bytes.
    Binary(Vec<u8>),
    /// Bytes that are shown within the message.
    InlineBinary(Vec<u8>),
    /// A message of its own.
    Message,
    /// Further parts.
    Multipart,
}

pub enum PartTypeView {
    Text(Seq<char>),
    Html(Seq<char>),
    Binary(Seq<u8>),
    InlineBinary(Seq<u8>),
    Message,
    Multipart,
}

impl View for PartType {
    type V = PartTypeView;

    open spec fn view(&self) -> PartTypeView {
        match self {
            PartType::Text(text) => PartTypeView::Text(text@),
            PartType::Html(html) => PartTypeView::Html(html@),
            PartType::Binary(bytes) => PartTypeView::Binary(bytes@),
            PartType::InlineBinary(bytes) => PartTypeView::InlineBinary(bytes@),
            PartType::Message => PartTypeView::Message,
            PartType::Multipart => PartTypeView::Multipart,
        }
    }
}

/// A part of a message, with the headers of the part itself.
#[derive(Clone, Debug, PartialEq, Eq)]
pub struct MessagePart {
    pub headers: Vec<Header>,
    pub body: PartType,
}

pub struct MessagePartView {
    pub headers: Seq<HeaderView>,
    pub body: PartTypeView,
}

impl View for MessagePart {
    type V = MessagePartView;

    open spec fn view(&self) -> MessagePartView {
        MessagePartView { headers: self.headers.deep_view(), body: self.body@ }
    }
}

impl DeepView for MessagePart {
    type V = MessagePartView;

    open spec fn deep_view(&self) -> MessagePartView {
        self@
    }
}

/// A parsed message: the headers of the message itself in their order, its
/// text bodies, its attachment parts in their order, and its identifier.
#[derive(Clone, Debug, PartialEq, Eq)]
pub struct Message {
    pub headers: Vec<Header>,
    pub text_bodies: Vec<String>,
    pub attachments: Vec<MessagePart>,
    pub message_id: Option<String>,
}

pub struct MessageView {
    pub headers: Seq<HeaderView>,
    pub text_bodies: Seq<Seq<char>>,
    pub attachments: Seq<MessagePartView>,
    pub message_id: Option<Seq<char>>,
}

impl View for Message {
    type V = MessageView;

    open spec fn view(&self) -> MessageView {
        MessageView {
            headers: self.headers.deep_view(),
            text_bodies: self.text_bodies.deep_view(),
            attachments: self.attachments.deep_view(),
            message_id: self.message_id.deep_view(),
        }
    }
}

} // verus!
