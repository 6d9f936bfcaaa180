//! The record store and the link graph.
//!
//! The store is an append-only log of records. Writing gives back the address
//! of the new record; nothing is ever changed or removed. A record is public
//! or private, and a private record can be read by its author only: to anyone
//! else it is as if nothing stood at its address. The link graph is a list of
//! typed edges between addresses, oldest first; asking for the edges from a
//! base never fails and may give none.
//!
//! [`SubstrateView`] is the model that contracts speak of; [`Substrate`]
//! keeps the same state in memory. In this model the address of a record is
//! made from its position in the log, so that two records never share one.

use crate::address::{action_prefix, copy_bytes, is_action_address, Address, ADDRESS_LEN};
use crate::person::{PersonDataView, PrivatePersonData};
use vstd::bytes::{
    lemma_auto_spec_u64_to_from_le_bytes, spec_u64_from_le_bytes, spec_u64_to_le_bytes,
    u64_from_le_bytes, u64_to_le_bytes,
};
use vstd::prelude::*;

verus! {

/// Why the store refused a request.
#[derive(Debug, Clone, Copy, PartialEq, Eq, Structural)]
pub enum SubstrateFault {
    /// No record that the caller can read stands at the address.
    UnknownAddress,
    /// The record to replace was written by somebody else.
    NotAuthor,
}

/// Who may read a record.
#[derive(Debug, Clone, Copy, PartialEq, Eq, Structural)]
pub enum Visibility {
    /// Every participant.
    Public,
    /// The author only.
    Private,
}

/// The kinds of edge that this subsystem follows and writes.
#[derive(Debug, Clone, Copy, PartialEq, Eq, Structural)]
pub enum LinkType {
    /// From an identity to its public profile record.
    AgentToProfile,
    /// From a profile record to a private record of its owner.
    ProfileToPrivateData,
}

/// What a record holds: private person data, or something this subsystem
/// does not read.
pub enum ContentView {
    PrivateData(PersonDataView),
    Other(Seq<u8>),
}

impl ContentView {
    /// The content read as private person data, if it is that.
    pub open spec fn private_data(self) -> Option<PersonDataView> {
        match self {
            ContentView::PrivateData(data) => Some(data),
            ContentView::Other(_) => None,
        }
    }
}

/// A record as a reader gets it: where it stands and what it holds.
pub struct RecordView {
    pub address: Seq<u8>,
    pub content: ContentView,
}

/// An edge of the link graph.
pub struct LinkView {
    pub base: Seq<u8>,
    pub target: Seq<u8>,
    pub link_type: LinkType,
}

/// A record as the log keeps it.
pub struct StoredView {
    pub author: Seq<u8>,
    pub visibility: Visibility,
    pub content: ContentView,
    /// The record that this one replaced, if it came from an update.
    pub previous: Option<Seq<u8>>,
}

impl StoredView {
    /// Whether `reader` may read this record.
    pub open spec fn readable_by(self, reader: Seq<u8>) -> bool {
        self.visibility == Visibility::Public || self.author == reader
    }
}

/// Number of bytes of an address that follow the prefix and the position.
pub const ADDRESS_PADDING: usize = 28;

/// The bytes that fill an address behind the position.
pub open spec fn address_padding() -> Seq<u8> {
    Seq::new(ADDRESS_PADDING as nat, |i: int| 0u8)
}

/// The address of the record at `position` of the log: the action prefix, the
/// position in eight bytes, lowest first, and zeros.
pub open spec fn record_address(position: nat) -> Seq<u8> {
    action_prefix() + spec_u64_to_le_bytes(position as u64) + address_padding()
}

/// The position that `address` names, if it has the form of a record's
/// address.
pub open spec fn address_position(address: Seq<u8>) -> Option<nat> {
    if is_action_address(address) && address.subrange(11, 39) == address_padding() {
        Some(spec_u64_from_le_bytes(address.subrange(3, 11)) as nat)
    } else {
        None
    }
}

/// The address of a position names that position, and is an action's address.
pub proof fn lemma_address_names_position(position: nat)
    requires
        position <= u64::MAX,
    ensures
        is_action_address(record_address(position)),
        address_position(record_address(position)) == Some(position),
{
    lemma_auto_spec_u64_to_from_le_bytes();
    let address = record_address(position);
    let middle = spec_u64_to_le_bytes(position as u64);
    assert(middle.len() == 8);
    assert(address.subrange(0, 3) =~= action_prefix());
    assert(address.subrange(3, 11) =~= middle);
    assert(address.subrange(11, 39) =~= address_padding());
}

/// Only one address names a position: the address of that position.
pub proof fn lemma_position_names_address(address: Seq<u8>)
    ensures
        address_position(address) matches Some(position) ==> position <= u64::MAX
            && record_address(position) == address,
{
    if let Some(position) = address_position(address) {
        lemma_auto_spec_u64_to_from_le_bytes();
        let middle = address.subrange(3, 11);
        assert(middle.len() == 8);
        assert(spec_u64_to_le_bytes(spec_u64_from_le_bytes(middle)) == middle);
        assert(address =~= address.subrange(0, 3) + middle + address.subrange(11, 39));
    }
}

/// The predicate that picks the edges from `base` of kind `link_type`.
pub open spec fn leads_from(base: Seq<u8>, link_type: LinkType) -> spec_fn(LinkView) -> bool {
    |link: LinkView| link.base == base && link.link_type == link_type
}

/// The state of the store and of the link graph.
pub struct SubstrateView {
    /// The log, in the order of writing.
    pub records: Seq<StoredView>,
    /// The edges, oldest first.
    pub links: Seq<LinkView>,
}

impl SubstrateView {
    /// A store with nothing in it.
    pub open spec fn empty() -> SubstrateView {
        SubstrateView { records: Seq::empty(), links: Seq::empty() }
    }

    /// Every position of the log has an address.
    pub open spec fn well_formed(self) -> bool {
        self.records.len() <= u64::MAX
    }

    /// The address that the next write will give back.
    pub open spec fn next_address(self) -> Seq<u8> {
        record_address(self.records.len())
    }

    /// The record that the log keeps at `address`, if any.
    pub open spec fn stored_at(self, address: Seq<u8>) -> Option<StoredView> {
        match address_position(address) {
            Some(position) => if position < self.records.len() {
                Some(self.records[position as int])
            } else {
                None
            },
            None => None,
        }
    }

    /// What `reader` gets at `address`: the record, or nothing where none
    /// stands there or where it is private to somebody else.
    pub open spec fn read(self, reader: Seq<u8>, address: Seq<u8>) -> Option<RecordView> {
        match self.stored_at(address) {
            Some(stored) => if stored.readable_by(reader) {
                Some(RecordView { address, content: stored.content })
            } else {
                None
            },
            None => None,
        }
    }

    /// The record that the one at `address` replaced, as far as `reader` may
    /// know: nothing where `reader` reads no record there, or where the record
    /// came from a plain write.
    pub open spec fn predecessor(self, reader: Seq<u8>, address: Seq<u8>) -> Option<Seq<u8>> {
        match self.stored_at(address) {
            Some(stored) => if stored.readable_by(reader) {
                stored.previous
            } else {
                None
            },
            None => None,
        }
    }

    /// The store after `author` wrote `content`.
    pub open spec fn write(
        self,
        author: Seq<u8>,
        content: ContentView,
        visibility: Visibility,
    ) -> SubstrateView {
        SubstrateView {
            records: self.records.push(
                StoredView { author, visibility, content, previous: None },
            ),
            links: self.links,
        }
    }

    /// The fault that the store answers an update with, if it refuses it:
    /// the author must be able to read the record to replace, and must have
    /// written it.
    pub open spec fn update_fault(self, author: Seq<u8>, previous: Seq<u8>) -> Option<
        SubstrateFault,
    > {
        match self.stored_at(previous) {
            Some(stored) => if !stored.readable_by(author) {
                Some(SubstrateFault::UnknownAddress)
            } else if stored.author != author {
                Some(SubstrateFault::NotAuthor)
            } else {
                None
            },
            None => Some(SubstrateFault::UnknownAddress),
        }
    }

    /// The store after `author` replaced the record at `previous` by
    /// `content`, where the store accepts that: a new record, as visible as
    /// the old one, which names the old one as its predecessor.
    pub open spec fn update(
        self,
        author: Seq<u8>,
        previous: Seq<u8>,
        content: ContentView,
    ) -> SubstrateView {
        SubstrateView {
            records: self.records.push(
                StoredView {
                    author,
                    visibility: self.stored_at(previous).unwrap().visibility,
                    content,
                    previous: Some(previous),
                },
            ),
            links: self.links,
        }
    }

    /// The graph after an edge was added. Nothing is merged: the same edge
    /// added twice stands twice.
    pub open spec fn link(self, base: Seq<u8>, target: Seq<u8>, link_type: LinkType) -> SubstrateView {
        SubstrateView {
            records: self.records,
            links: self.links.push(LinkView { base, target, link_type }),
        }
    }

    /// The edges from `base` of kind `link_type`, oldest first.
    pub open spec fn links_from(self, base: Seq<u8>, link_type: LinkType) -> Seq<LinkView> {
        self.links.filter(leads_from(base, link_type))
    }

    /// Whether `later` holds all that `self` holds, in the same places, and
    /// whatever else behind it.
    pub open spec fn extended_by(self, later: SubstrateView) -> bool {
        self.records.is_prefix_of(later.records) && self.links.is_prefix_of(later.links)
    }
}

/// What a record holds.
#[derive(Debug, PartialEq, Eq)]
pub enum Content {
    /// The private fields of a person.
    PrivateData(PrivatePersonData),
    /// Anything else, as the bytes it was written with.
    Other(Vec<u8>),
}

impl View for Content {
    type V = ContentView;

    open spec fn view(&self) -> ContentView {
        match self {
            Content::PrivateData(data) => ContentView::PrivateData(data@),
            Content::Other(bytes) => ContentView::Other(bytes@),
        }
    }
}

impl Clone for Content {
    fn clone(&self) -> (copy: Content)
        ensures
            copy@ == self@,
    {
        match self {
            Content::PrivateData(data) => Content::PrivateData(data.clone()),
            Content::Other(bytes) => Content::Other(copy_bytes(bytes)),
        }
    }
}

/// A record as a reader gets it.
#[derive(Debug, PartialEq, Eq)]
pub struct Record {
    pub address: Address,
    pub content: Content,
}

impl View for Record {
    type V = RecordView;

    open spec fn view(&self) -> RecordView {
        RecordView { address: self.address@, content: self.content@ }
    }
}

impl DeepView for Record {
    type V = RecordView;

    open spec fn deep_view(&self) -> RecordView {
        self@
    }
}

impl Record {
    /// The content of the record read as private person data; nothing if it
    /// holds something else.
    pub fn into_private_data(self) -> (data: Option<PrivatePersonData>)
        ensures
            data.deep_view() == self@.content.private_data(),
    {
        match self.content {
            Content::PrivateData(data) => Some(data),
            Content::Other(_) => None,
        }
    }
}

/// An edge of the link graph.
#[derive(Debug, PartialEq, Eq)]
pub struct Link {
    pub base: Address,
    pub target: Address,
    pub link_type: LinkType,
}

impl View for Link {
    type V = LinkView;

    open spec fn view(&self) -> LinkView {
        LinkView { base: self.base@, target: self.target@, link_type: self.link_type }
    }
}

impl DeepView for Link {
    type V = LinkView;

    open spec fn deep_view(&self) -> LinkView {
        self@
    }
}

impl Clone for Link {
    fn clone(&self) -> (copy: Link)
        ensures
            copy@ == self@,
    {
        Link { base: self.base.clone(), target: self.target.clone(), link_type: self.link_type }
    }
}

/// A record as the log keeps it.
struct Stored {
    author: Address,
    visibility: Visibility,
    content: Content,
    previous: Option<Address>,
}

impl DeepView for Stored {
    type V = StoredView;

    closed spec fn deep_view(&self) -> StoredView {
        StoredView {
            author: self.author@,
            visibility: self.visibility,
            content: self.content@,
            previous: self.previous.deep_view(),
        }
    }
}

impl Stored {
    fn readable_by(&self, reader: &Address) -> (readable: bool)
        ensures
            readable == self.deep_view().readable_by(reader@),
    {
        match self.visibility {
            Visibility::Public => true,
            Visibility::Private => self.author.same_as(reader),
        }
    }
}

/// The address of the record at `position`.
fn address_at(position: usize) -> (address: Address)
    ensures
        address@ == record_address(position as nat),
{
    let middle = u64_to_le_bytes(position as u64);
    let mut raw: Vec<u8> = Vec::with_capacity(ADDRESS_LEN);
    raw.push(0x84);
    raw.push(0x29);
    raw.push(0x24);
    assert(raw@ =~= action_prefix());
    let mut i: usize = 0;
    while i < 8
        invariant
            i <= 8,
            middle@.len() == 8,
            raw@ == action_prefix() + middle@.take(i as int),
        decreases 8 - i,
    {
        raw.push(middle[i]);
        assert(raw@ =~= action_prefix() + middle@.take(i + 1));
        i += 1;
    }
    assert(middle@.take(8) =~= middle@);
    let mut j: usize = 0;
    while j < ADDRESS_PADDING
        invariant
            j <= ADDRESS_PADDING,
            raw@ == action_prefix() + middle@ + Seq::new(j as nat, |k: int| 0u8),
        decreases ADDRESS_PADDING - j,
    {
        raw.push(0);
        assert(raw@ =~= action_prefix() + middle@ + Seq::new((j + 1) as nat, |k: int| 0u8));
        j += 1;
    }
    Address { raw }
}

/// The position that `address` names, if it has the form of a record's
/// address.
fn position_of(address: &Address) -> (position: Option<u64>)
    ensures
        match position {
            Some(p) => address_position(address@) == Some(p as nat),
            None => address_position(address@) is None,
        },
{
    let raw = &address.raw;
    if raw.len() != ADDRESS_LEN {
        return None;
    }
    if raw[0] != 0x84 || raw[1] != 0x29 || raw[2] != 0x24 {
        assert(raw@.subrange(0, 3)[0] == raw@[0]);
        assert(raw@.subrange(0, 3)[1] == raw@[1]);
        assert(raw@.subrange(0, 3)[2] == raw@[2]);
        return None;
    }
    assert(raw@.subrange(0, 3) =~= action_prefix());
    let mut middle: Vec<u8> = Vec::with_capacity(8);
    let mut i: usize = 3;
    while i < 11
        invariant
            3 <= i <= 11,
            raw.len() == ADDRESS_LEN,
            middle@ == raw@.subrange(3, i as int),
        decreases 11 - i,
    {
        middle.push(raw[i]);
        assert(middle@ =~= raw@.subrange(3, i + 1));
        i += 1;
    }
    while i < ADDRESS_LEN
        invariant
            11 <= i <= ADDRESS_LEN,
            raw.len() == ADDRESS_LEN,
            raw@ == address@,
            forall|k: int| 11 <= k < i ==> raw@[k] == 0,
        decreases ADDRESS_LEN - i,
    {
        if raw[i] != 0 {
            assert(raw@.subrange(11, 39)[i - 11] == raw@[i as int]);
            assert(address_padding()[i - 11] == 0u8);
            return None;
        }
        i += 1;
    }
    assert(raw@.subrange(11, 39) =~= address_padding());
    Some(u64_from_le_bytes(middle.as_slice()))
}

/// The record store and the link graph, kept in memory.
pub struct Substrate {
    records: Vec<Stored>,
    links: Vec<Link>,
}

impl View for Substrate {
    type V = SubstrateView;

    closed spec fn view(&self) -> SubstrateView {
        SubstrateView { records: self.records.deep_view(), links: self.links.deep_view() }
    }
}

impl Substrate {
    /// A store with nothing in it.
    pub fn new() -> (substrate: Substrate)
        ensures
            substrate@ == SubstrateView::empty(),
    {
        let substrate = Substrate { records: Vec::new(), links: Vec::new() };
        assert(substrate.records.deep_view() =~= Seq::empty());
        assert(substrate.links.deep_view() =~= Seq::empty());
        substrate
    }

    /// The state of a store in memory is well formed.
    pub proof fn lemma_well_formed(&self)
        ensures
            self@.well_formed(),
    {
        assert(self.records.deep_view().len() == self.records.len());
    }

    /// How many records the log holds.
    pub fn record_count(&self) -> (count: usize)
        ensures
            count == self@.records.len(),
    {
        assert(self.records.deep_view().len() == self.records.len());
        self.records.len()
    }

    /// How many edges the graph holds.
    pub fn link_count(&self) -> (count: usize)
        ensures
            count == self@.links.len(),
    {
        assert(self.links.deep_view().len() == self.links.len());
        self.links.len()
    }

    /// Appends a record written by `author` and gives back its address.
    pub fn write(&mut self, author: &Address, content: Content, visibility: Visibility) -> (address:
        Address)
        ensures
            final(self)@ == old(self)@.write(author@, content@, visibility),
            address@ == old(self)@.next_address(),
    {
        let address = address_at(self.records.len());
        let stored = Stored { author: author.clone(), visibility, content, previous: None };
        self.records.push(stored);
        assert(self.records.deep_view() =~= old(self).records.deep_view().push(
            stored.deep_view(),
        ));
        address
    }

    /// The record at `address` as `reader` may see it.
    pub fn read(&self, reader: &Address, address: &Address) -> (found: Option<Record>)
        ensures
            found.deep_view() == self@.read(reader@, address@),
    {
        match position_of(address) {
            Some(position) => {
                if position < self.records.len() as u64 {
                    let stored = &self.records[position as usize];
                    if stored.readable_by(reader) {
                        Some(Record { address: address.clone(), content: stored.content.clone() })
                    } else {
                        None
                    }
                } else {
                    None
                }
            },
            None => None,
        }
    }

    /// The address of the record that the one at `address` replaced, as far
    /// as `reader` may know.
    pub fn predecessor(&self, reader: &Address, address: &Address) -> (previous: Option<Address>)
        ensures
            previous.deep_view() == self@.predecessor(reader@, address@),
    {
        match position_of(address) {
            Some(position) => {
                if position < self.records.len() as u64 {
                    let stored = &self.records[position as usize];
                    if stored.readable_by(reader) {
                        match &stored.previous {
                            Some(previous) => Some(previous.clone()),
                            None => None,
                        }
                    } else {
                        None
                    }
                } else {
                    None
                }
            },
            None => None,
        }
    }

    /// The record at `address` as `reader` may see it, or the fault of there
    /// being none.
    pub fn resolve(&self, reader: &Address, address: &Address) -> (found: Result<
        Record,
        SubstrateFault,
    >)
        ensures
            match self@.read(reader@, address@) {
                Some(record) => found matches Ok(r) && r@ == record,
                None => found matches Err(fault) && fault == SubstrateFault::UnknownAddress,
            },
    {
        match self.read(reader, address) {
            Some(record) => Ok(record),
            None => Err(SubstrateFault::UnknownAddress),
        }
    }

    /// Appends a record by `author` that replaces the one at `previous`, and
    /// gives back its address; or refuses, and changes nothing.
    pub fn update(&mut self, author: &Address, previous: &Address, content: Content) -> (written:
        Result<Address, SubstrateFault>)
        ensures
            match old(self)@.update_fault(author@, previous@) {
                Some(fault) => {
                    &&& written matches Err(f) && f == fault
                    &&& final(self)@ == old(self)@
                },
                None => {
                    &&& written matches Ok(address) && address@ == old(self)@.next_address()
                    &&& final(self)@ == old(self)@.update(author@, previous@, content@)
                },
            },
    {
        let position = match position_of(previous) {
            Some(position) => position,
            None => return Err(SubstrateFault::UnknownAddress),
        };
        if position >= self.records.len() as u64 {
            return Err(SubstrateFault::UnknownAddress);
        }
        let replaced = &self.records[position as usize];
        if !replaced.readable_by(author) {
            return Err(SubstrateFault::UnknownAddress);
        }
        if !replaced.author.same_as(author) {
            return Err(SubstrateFault::NotAuthor);
        }
        let visibility = replaced.visibility;
        let address = address_at(self.records.len());
        let stored = Stored {
            author: author.clone(),
            visibility,
            content,
            previous: Some(previous.clone()),
        };
        self.records.push(stored);
        assert(self.records.deep_view() =~= old(self).records.deep_view().push(
            stored.deep_view(),
        ));
        Ok(address)
    }

    /// Appends an edge from `base` to `target`.
    pub fn link(&mut self, base: Address, target: Address, link_type: LinkType)
        ensures
            final(self)@ == old(self)@.link(base@, target@, link_type),
    {
        let link = Link { base, target, link_type };
        self.links.push(link);
        assert(self.links.deep_view() =~= old(self).links.deep_view().push(link@));
    }

    /// The edges from `base` of kind `link_type`, oldest first.
    pub fn links_from(&self, base: &Address, link_type: LinkType) -> (links: Vec<Link>)
        ensures
            links.deep_view() == self@.links_from(base@, link_type),
    {
        let ghost all = self.links.deep_view();
        let ghost wanted = leads_from(base@, link_type);
        let mut links: Vec<Link> = Vec::new();
        let mut i: usize = 0;
        assert(all.take(0) =~= Seq::empty());
        assert(links.deep_view() =~= Seq::empty());
        proof {
            reveal(Seq::filter);
        }
        while i < self.links.len()
            invariant
                i <= self.links.len(),
                all == self.links.deep_view(),
                wanted == leads_from(base@, link_type),
                links.deep_view() == all.take(i as int).filter(wanted),
            decreases self.links.len() - i,
        {
            let link = &self.links[i];
            let ghost before = links.deep_view();
            proof {
                assert(all.take(i + 1) =~= all.take(i as int).push(link@));
                all.take(i as int).lemma_filter_push(link@, wanted);
            }
            if link.link_type == link_type && link.base.same_as(base) {
                links.push(link.clone());
                assert(links.deep_view() =~= before.push(link@));
            }
            i += 1;
        }
        assert(all.take(self.links.len() as int) =~= all);
        links
    }
}

} // verus!
