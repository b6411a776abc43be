//! Carries the headers of a parsed message over to a message builder.
//!
//! Each header is transformed by the kind of its value. Addresses, texts and
//! dates are assigned under the header's name; lists of texts are joined into
//! one text; a content type is left out, or written as a string where that is
//! asked for; groups of addresses and headers without a value stop the
//! reconstruction at the first of them.

use crate::assignment::{
    Address, AddressView, AssignedHeader, HeaderAssignment, HeaderAssignmentView,
};
use crate::error::{result_view, HeaderFault, ReconstructError};
use crate::message::{Addr, AddrView, Header, HeaderValue, HeaderValueView, HeaderView, Message};
use crate::outgoing::{
    assigned_attachments, assigned_headers, assigned_html_body, assigned_text_body, with_header,
};
use mail_builder::MessageBuilder;
use vstd::prelude::*;

verus! {

/// What becomes of a content-type header of the message itself.
#[derive(Clone, Copy, Debug, PartialEq, Eq)]
pub enum ContentTypePolicy {
    /// It is left out: whoever writes the message out states the content type
    /// that fits the bodies and attachments it was given.
    Drop,
    /// It is assigned again, as `type` or `type/subtype`.
    Regenerate,
}

/// What stands between the texts of a list that is joined into one text: a
/// tab and a line feed.
pub const TEXT_LIST_SEPARATOR: &'static str = "\t\n";

/// The texts of `list` in their order, with `separator` between each two of
/// them.
pub open spec fn joined(list: Seq<Seq<char>>, separator: Seq<char>) -> Seq<char>
    decreases list.len(),
{
    if list.len() == 0 {
        Seq::empty()
    } else if list.len() == 1 {
        list[0]
    } else {
        joined(list.drop_last(), separator) + separator + list.last()
    }
}

/// The address that `addr` becomes: name and address string as they are. An
/// address without an address string becomes none.
pub open spec fn address_of(addr: AddrView) -> Result<AddressView, HeaderFault> {
    match addr.address {
        Some(address) => Ok(AddressView { name: addr.name, address }),
        None => Err(HeaderFault::MissingAddress),
    }
}

/// `addr` with its address string taken for granted.
pub open spec fn addressed(addr: AddrView) -> AddressView {
    AddressView { name: addr.name, address: addr.address->0 }
}

/// The addresses that those of `list` become, in the same order; none if one
/// of them lacks its address string.
pub open spec fn addresses_of(list: Seq<AddrView>) -> Result<Seq<AddressView>, HeaderFault> {
    if forall|i: int| 0 <= i < list.len() ==> (#[trigger] list[i]).address is Some {
        Ok(list.map_values(|addr: AddrView| addressed(addr)))
    } else {
        Err(HeaderFault::MissingAddress)
    }
}

/// What a header value becomes: a value to assign, nothing, or the reason for
/// which the header cannot be carried over.
pub open spec fn transformed(value: HeaderValueView, policy: ContentTypePolicy) -> Result<
    Option<HeaderAssignmentView>,
    HeaderFault,
> {
    match value {
        HeaderValueView::Address(addr) => match address_of(addr) {
            Ok(address) => Ok(Some(HeaderAssignmentView::Address(address))),
            Err(fault) => Err(fault),
        },
        HeaderValueView::AddressList(list) => match addresses_of(list) {
            Ok(addresses) => Ok(Some(HeaderAssignmentView::AddressList(addresses))),
            Err(fault) => Err(fault),
        },
        HeaderValueView::Text(text) => Ok(Some(HeaderAssignmentView::Text(text))),
        HeaderValueView::TextList(list) => Ok(
            Some(HeaderAssignmentView::Text(joined(list, TEXT_LIST_SEPARATOR@))),
        ),
        HeaderValueView::DateTime(timestamp) => Ok(Some(HeaderAssignmentView::Date(timestamp))),
        HeaderValueView::ContentType(content_type) => match policy {
            ContentTypePolicy::Drop => Ok(None),
            ContentTypePolicy::Regenerate => Ok(
                Some(HeaderAssignmentView::ContentType(content_type.type_string())),
            ),
        },
        HeaderValueView::Group(_) => Err(HeaderFault::Group),
        HeaderValueView::GroupList(_) => Err(HeaderFault::GroupList),
        HeaderValueView::Empty => Err(HeaderFault::Empty),
    }
}

/// The header can be carried over, or is left out on purpose.
pub open spec fn supported(header: HeaderView, policy: ContentTypePolicy) -> bool {
    transformed(header.value, policy) is Ok
}

/// The header that `header` becomes in the rebuilt message, if it becomes one.
pub open spec fn assignment_of(header: HeaderView, policy: ContentTypePolicy) -> Option<
    AssignedHeader,
> {
    match transformed(header.value, policy) {
        Ok(Some(value)) => Some(AssignedHeader { name: header.name, value }),
        _ => None,
    }
}

/// The headers that `headers` become in the rebuilt message, in their order.
pub open spec fn assignments(headers: Seq<HeaderView>, policy: ContentTypePolicy) -> Seq<
    AssignedHeader,
> {
    headers.filter_map(|header: HeaderView| assignment_of(header, policy))
}

/// Converts one parsed address. The display name is passed on as it is, also
/// where there is none; the address string is copied without any change. An
/// address without an address string is refused.
pub fn transform_address(address: &Addr) -> (result: Result<Address, HeaderFault>)
    ensures
        result_view(result) == address_of(address@),
{
    match &address.address {
        Some(text) => Ok(Address { name: address.name.clone(), address: text.clone() }),
        None => Err(HeaderFault::MissingAddress),
    }
}

/// Converts the addresses of a list in their order, and refuses the list if
/// one of them lacks its address string.
pub fn transform_addresses(list: &Vec<Addr>) -> (result: Result<Vec<Address>, HeaderFault>)
    ensures
        result_view(result) == addresses_of(list.deep_view()),
{
    let ghost source = list.deep_view();
    let mut addresses: Vec<Address> = Vec::new();
    let mut i: usize = 0;
    while i < list.len()
        invariant
            i <= list.len(),
            source == list.deep_view(),
            forall|j: int| 0 <= j < i ==> (#[trigger] source[j]).address is Some,
            addresses.len() == i,
            addresses.deep_view() == source.take(i as int).map_values(
                |addr: AddrView| addressed(addr),
            ),
        decreases list.len() - i,
    {
        assert(source[i as int] == list[i as int]@);
        match transform_address(&list[i]) {
            Ok(address) => {
                let ghost earlier = addresses;
                addresses.push(address);
                assert forall|j: int| 0 <= j < i + 1 implies #[trigger] addresses.deep_view()[j]
                    == addressed(source[j]) by {
                    if j < i {
                        assert(addresses@[j] == earlier@[j]);
                        assert(earlier.deep_view()[j] == addressed(source.take(i as int)[j]));
                    }
                }
                assert(addresses.deep_view() == source.take(i + 1).map_values(
                    |addr: AddrView| addressed(addr),
                ));
            },
            Err(fault) => {
                return Err(fault);
            },
        }
        i += 1;
    }
    assert(source.take(i as int) == source);
    Ok(addresses)
}

/// Joins the texts of `list` in their order, with `separator` between each
/// two of them.
pub fn join_texts(list: &Vec<String>, separator: &str) -> (result: String)
    ensures
        result@ == joined(list.deep_view(), separator@),
{
    let ghost source = list.deep_view();
    let mut result = String::new();
    let mut i: usize = 0;
    while i < list.len()
        invariant
            i <= list.len(),
            source == list.deep_view(),
            result@ == joined(source.take(i as int), separator@),
        decreases list.len() - i,
    {
        assert(source[i as int] == list[i as int]@);
        assert(source.take(i + 1).drop_last() == source.take(i as int));
        if i > 0 {
            result.append(separator);
        }
        result.append(list[i].as_str());
        i += 1;
    }
    assert(source.take(i as int) == source);
    result
}

/// Transforms one header value: to the value that is assigned under the
/// header's name, to nothing where the header is left out, or to the reason
/// for which the header cannot be carried over.
pub fn transform_header(header: &Header, policy: ContentTypePolicy) -> (result: Result<
    Option<HeaderAssignment>,
    HeaderFault,
>)
    ensures
        result_view(result) == transformed(header@.value, policy),
{
    match &header.value {
        HeaderValue::Address(addr) => match transform_address(addr) {
            Ok(address) => Ok(Some(HeaderAssignment::Address(address))),
            Err(fault) => Err(fault),
        },
        HeaderValue::AddressList(list) => match transform_addresses(list) {
            Ok(addresses) => Ok(Some(HeaderAssignment::AddressList(addresses))),
            Err(fault) => Err(fault),
        },
        HeaderValue::Text(text) => Ok(Some(HeaderAssignment::Text(text.clone()))),
        HeaderValue::TextList(list) => Ok(
            Some(HeaderAssignment::Text(join_texts(list, TEXT_LIST_SEPARATOR))),
        ),
        HeaderValue::DateTime(timestamp) => Ok(Some(HeaderAssignment::Date(*timestamp))),
        HeaderValue::ContentType(content_type) => match policy {
            ContentTypePolicy::Drop => Ok(None),
            ContentTypePolicy::Regenerate => Ok(
                Some(HeaderAssignment::ContentType(content_type.type_string())),
            ),
        },
        HeaderValue::Group(_) => Err(HeaderFault::Group),
        HeaderValue::GroupList(_) => Err(HeaderFault::GroupList),
        HeaderValue::Empty => Err(HeaderFault::Empty),
    }
}

/// Every header of `headers` is supported.
pub open spec fn all_supported(headers: Seq<HeaderView>, policy: ContentTypePolicy) -> bool {
    forall|i: int| 0 <= i < headers.len() ==> supported(#[trigger] headers[i], policy)
}

/// `error` names the first header of `headers` that is not supported, and says
/// why it is not.
pub open spec fn header_refused(
    headers: Seq<HeaderView>,
    policy: ContentTypePolicy,
    error: ReconstructError,
) -> bool {
    &&& error matches ReconstructError::Header { index, fault }
    &&& index < headers.len()
    &&& transformed(headers[index as int].value, policy) == Err::<
        Option<HeaderAssignmentView>,
        HeaderFault,
    >(fault)
    &&& all_supported(headers.take(index as int), policy)
}

/// What `copy_headers_with` returns for `dest`, `headers` and `policy`.
///
/// It succeeds exactly when every header is supported. The builder then holds
/// the headers it held, followed by what the headers of the message become, in
/// their order and with repeated names kept apart; nothing else of the builder
/// has changed. Otherwise no builder is returned, and the error names the
/// first header that is not supported.
pub open spec fn headers_copied(
    dest: MessageBuilder<'static>,
    headers: Seq<HeaderView>,
    policy: ContentTypePolicy,
    result: Result<MessageBuilder<'static>, ReconstructError>,
) -> bool {
    match result {
        Ok(builder) => {
            &&& all_supported(headers, policy)
            &&& assigned_headers(builder) == assigned_headers(dest) + assignments(headers, policy)
            &&& assigned_attachments(builder) == assigned_attachments(dest)
            &&& assigned_text_body(builder) == assigned_text_body(dest)
            &&& assigned_html_body(builder) == assigned_html_body(dest)
        },
        Err(error) => header_refused(headers, policy, error),
    }
}

/// Carries the headers of `source` over to `dest`, in their order, and stops
/// at the first header that cannot be carried over.
pub fn copy_headers_with(
    dest: MessageBuilder<'static>,
    source: &Message,
    policy: ContentTypePolicy,
) -> (result: Result<MessageBuilder<'static>, ReconstructError>)
    ensures
        headers_copied(dest, source@.headers, policy, result),
{
    let ghost headers = source@.headers;
    let ghost before = dest;
    let mut dest = dest;
    let mut i: usize = 0;
    while i < source.headers.len()
        invariant
            i <= source.headers.len(),
            headers == source@.headers,
            all_supported(headers.take(i as int), policy),
            assigned_headers(dest) == assigned_headers(before) + assignments(
                headers.take(i as int),
                policy,
            ),
            assigned_attachments(dest) == assigned_attachments(before),
            assigned_text_body(dest) == assigned_text_body(before),
            assigned_html_body(dest) == assigned_html_body(before),
        decreases source.headers.len() - i,
    {
        let header = &source.headers[i];
        assert(headers[i as int] == header@);
        proof {
            headers.lemma_filter_map_take_succ(
                |header: HeaderView| assignment_of(header, policy),
                i as int,
            );
        }
        match transform_header(header, policy) {
            Ok(Some(value)) => {
                dest = with_header(dest, header.name.clone(), value);
            },
            Ok(None) => {},
            Err(fault) => {
                return Err(ReconstructError::Header { index: i, fault });
            },
        }
        assert(all_supported(headers.take(i + 1), policy)) by {
            assert forall|j: int| 0 <= j < i + 1 implies supported(
                #[trigger] headers.take(i + 1)[j],
                policy,
            ) by {
                if j < i {
                    assert(headers.take(i + 1)[j] == headers.take(i as int)[j]);
                }
            }
        }
        i += 1;
    }
    assert(headers.take(i as int) == headers);
    Ok(dest)
}

/// Carries the headers of `source` over to `dest` and leaves a content type
/// out.
pub fn copy_headers(dest: MessageBuilder<'static>, source: &Message) -> (result: Result<
    MessageBuilder<'static>,
    ReconstructError,
>)
    ensures
        headers_copied(dest, source@.headers, ContentTypePolicy::Drop, result),
{
    copy_headers_with(dest, source, ContentTypePolicy::Drop)
}

/// The value that was assigned says what the value of the header said: an
/// address has the same name and address string, a list of addresses the same
/// addresses in the same order, a text the same characters, a list of texts
/// its texts joined, a date the same timestamp, and a content type its type
/// and subtype.
pub open spec fn same_value(source: HeaderValueView, assigned: HeaderAssignmentView) -> bool {
    match (source, assigned) {
        (HeaderValueView::Address(from), HeaderAssignmentView::Address(to)) => {
            from.name == to.name && from.address == Some(to.address)
        },
        (HeaderValueView::AddressList(from), HeaderAssignmentView::AddressList(to)) => {
            &&& from.len() == to.len()
            &&& forall|i: int|
                0 <= i < from.len() ==> (#[trigger] from[i]).name == to[i].name && from[i].address
                    == Some(to[i].address)
        },
        (HeaderValueView::Text(from), HeaderAssignmentView::Text(to)) => from == to,
        (HeaderValueView::TextList(from), HeaderAssignmentView::Text(to)) => {
            to == joined(from, TEXT_LIST_SEPARATOR@)
        },
        (HeaderValueView::DateTime(from), HeaderAssignmentView::Date(to)) => from == to,
        (HeaderValueView::ContentType(from), HeaderAssignmentView::ContentType(to)) => {
            to == from.type_string()
        },
        _ => false,
    }
}

/// The header becomes a header of the rebuilt message.
pub open spec fn carried(header: HeaderView, policy: ContentTypePolicy) -> bool {
    assignment_of(header, policy) is Some
}

/// The headers of the rebuilt message are the headers of the message that are
/// carried over, one for one and in the same order: each under the same name,
/// with a value that says what the value of the header said.
pub proof fn lemma_header_fidelity(headers: Seq<HeaderView>, policy: ContentTypePolicy)
    ensures
        ({
            let kept = headers.filter(|header: HeaderView| carried(header, policy));
            let assigned = assignments(headers, policy);
            &&& assigned.len() == kept.len()
            &&& forall|k: int|
                0 <= k < assigned.len() ==> (#[trigger] assigned[k]).name == kept[k].name
                    && same_value(kept[k].value, assigned[k].value)
        }),
{
    let each = |header: HeaderView| assignment_of(header, policy);
    let is_kept = |header: HeaderView| each(header) is Some;
    crate::sequences::lemma_filter_map_keeps(headers, each);
    assert(is_kept == |header: HeaderView| carried(header, policy)) by {
        assert forall|header: HeaderView| #[trigger] is_kept(header) == carried(header, policy) by {
        }
        assert(is_kept =~= |header: HeaderView| carried(header, policy));
    }
    let kept = headers.filter(is_kept);
    let assigned = assignments(headers, policy);
    assert forall|k: int| 0 <= k < assigned.len() implies (#[trigger] assigned[k]).name
        == kept[k].name && same_value(kept[k].value, assigned[k].value) by {
        headers.lemma_filter_pred(is_kept, k);
        assert(assigned[k] == each(kept[k])->0);
    }
}

/// Where every header is carried over, the rebuilt message has as many
/// headers as the message, and each stands where the header stood that it
/// was made from.
pub proof fn lemma_headers_keep_their_places(headers: Seq<HeaderView>, policy: ContentTypePolicy)
    requires
        forall|i: int| 0 <= i < headers.len() ==> carried(#[trigger] headers[i], policy),
    ensures
        assignments(headers, policy).len() == headers.len(),
        forall|i: int|
            0 <= i < headers.len() ==> (#[trigger] assignments(headers, policy)[i]).name
                == headers[i].name && same_value(
                headers[i].value,
                assignments(headers, policy)[i].value,
            ),
    decreases headers.len(),
{
    if headers.len() > 0 {
        let rest = headers.drop_last();
        lemma_headers_keep_their_places(rest, policy);
        assert(carried(headers[headers.len() - 1], policy));
        let assigned = assignments(headers, policy);
        assert(assigned == assignments(rest, policy).push(
            assignment_of(headers.last(), policy)->0,
        ));
        assert forall|i: int| 0 <= i < headers.len() implies (#[trigger] assigned[i]).name
            == headers[i].name && same_value(headers[i].value, assigned[i].value) by {
            if i < rest.len() {
                assert(assigned[i] == assignments(rest, policy)[i]);
                assert(rest[i] == headers[i]);
            }
        }
    }
}

/// Under `ContentTypePolicy::Drop` a content type among the headers leaves no
/// trace: the rebuilt message has the headers it would have without it, and
/// none of them holds a content type.
pub proof fn lemma_content_type_is_dropped(headers: Seq<HeaderView>)
    ensures
        assignments(headers, ContentTypePolicy::Drop) == assignments(
            headers.filter(|header: HeaderView| !(header.value is ContentType)),
            ContentTypePolicy::Drop,
        ),
        forall|k: int|
            0 <= k < assignments(headers, ContentTypePolicy::Drop).len() ==> !((
            #[trigger] assignments(headers, ContentTypePolicy::Drop)[k]).value is ContentType),
    decreases headers.len(),
{
    reveal(Seq::filter);
    let policy = ContentTypePolicy::Drop;
    let other = |header: HeaderView| !(header.value is ContentType);
    if headers.len() > 0 {
        let rest = headers.drop_last();
        let last = headers.last();
        lemma_content_type_is_dropped(rest);
        if other(last) {
            assert(headers.filter(other) == rest.filter(other).push(last));
            assert(rest.filter(other).push(last).drop_last() == rest.filter(other));
        }
        let assigned = assignments(headers, policy);
        assert forall|k: int| 0 <= k < assigned.len() implies !((
        #[trigger] assigned[k]).value is ContentType) by {
            if k < assignments(rest, policy).len() {
                assert(assigned[k] == assignments(rest, policy)[k]);
            }
        }
    }
}

/// A header that is not supported leaves no builder behind: copying stops at
/// it, and what was assigned before it is not handed out.
pub proof fn lemma_unsupported_header_stops_the_copy(
    dest: MessageBuilder<'static>,
    headers: Seq<HeaderView>,
    policy: ContentTypePolicy,
    result: Result<MessageBuilder<'static>, ReconstructError>,
    index: int,
)
    requires
        headers_copied(dest, headers, policy, result),
        0 <= index < headers.len(),
        !supported(headers[index], policy),
    ensures
        result matches Err(ReconstructError::Header { index: first, .. }) && first <= index,
{
    if let Err(error) = result {
        let first = error->index as int;
        if first > index {
            assert(headers.take(first)[index] == headers[index]);
        }
    }
}

} // verus!
