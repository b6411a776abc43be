//! What the reconstruction assigns to the message builder: header values and
//! attachments.

use vstd::prelude::*;

verus! {

/// An address of the rebuilt message: the address string is there, the
/// display name may be missing.
#[derive(Clone, Debug, PartialEq, Eq)]
pub struct Address {
    pub name: Option<String>,
    pub address: String,
}

pub struct AddressView {
    pub name: Option<Seq<char>>,
    pub address: Seq<char>,
}

impl View for Address {
    type V = AddressView;

    open spec fn view(&self) -> AddressView {
        AddressView { name: self.name.deep_view(), address: self.address@ }
    }
}

impl DeepView for Address {
    type V = AddressView;

    open spec fn deep_view(&self) -> AddressView {
        self@
    }
}

/// The value that a header of the rebuilt message is given.
#[derive(Clone, Debug, PartialEq, Eq)]
pub enum HeaderAssignment {
    /// A single address.
    Address(Address),
    /// A list of addresses.
    AddressList(Vec<Address>),
    /// Free text.
    Text(String),
    /// A date, in seconds since the epoch.
    Date(i64),
    /// A content type, written as `type` or `type/subtype`.
    ContentType(String),
}

pub enum HeaderAssignmentView {
    Address(AddressView),
    AddressList(Seq<AddressView>),
    Text(Seq<char>),
    Date(i64),
    ContentType(Seq<char>),
}

impl View for HeaderAssignment {
    type V = HeaderAssignmentView;

    open spec fn view(&self) -> HeaderAssignmentView {
        match self {
            HeaderAssignment::Address(address) => HeaderAssignmentView::Address(address@),
            HeaderAssignment::AddressList(list) => HeaderAssignmentView::AddressList(
                list.deep_view(),
            ),
            HeaderAssignment::Text(text) => HeaderAssignmentView::Text(text@),
            HeaderAssignment::Date(timestamp) => HeaderAssignmentView::Date(*timestamp),
            HeaderAssignment::ContentType(text) => HeaderAssignmentView::ContentType(text@),
        }
    }
}

impl DeepView for HeaderAssignment {
    type V = HeaderAssignmentView;

    open spec fn deep_view(&self) -> HeaderAssignmentView {
        self@
    }
}

/// A header of the rebuilt message: its name and the value it was given.
pub struct AssignedHeader {
    pub name: Seq<char>,
    pub value: HeaderAssignmentView,
}

/// What an attachment of the rebuilt message carries.
pub enum AttachmentBody {
    Binary(Seq<u8>),
    Text(Seq<char>),
}

/// An attachment of the rebuilt message.
pub struct AssignedAttachment {
    pub content_type: Seq<char>,
    pub file_name: Seq<char>,
    pub body: AttachmentBody,
}

} // verus!
