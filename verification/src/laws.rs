//! What holds of the store, and of the operations run against it.
//!
//! Each law is stated over the model of the store, in which the contracts of
//! the executable functions are written too.

use crate::controller::{
    get_next, get_start, store_next, store_start, update_next, update_start, GetState, ReplyView,
    RequestView, StepView, StoreStateView, UpdateStateView,
};
use crate::person::{PersonDataView, UpdateInputView};
use crate::private_data::{after_store, after_update, private_data_of, reached_over};
use crate::substrate::{
    address_position, leads_from, lemma_address_names_position, lemma_position_names_address,
    ContentView, LinkType, LinkView, RecordView, SubstrateView, Visibility,
};
use vstd::prelude::*;

verus! {

/// Round trip: what was written, its author reads back at the address that
/// writing gave, field for field. An optional field that was absent comes back
/// absent, and one that was present and empty comes back present and empty,
/// since the record holds the content as it was written.
pub proof fn law_round_trip(
    store: SubstrateView,
    author: Seq<u8>,
    content: ContentView,
    visibility: Visibility,
)
    requires
        store.well_formed(),
    ensures
        store.write(author, content, visibility).read(author, store.next_address()) == Some(
            RecordView { address: store.next_address(), content },
        ),
{
    lemma_address_names_position(store.records.len());
}

/// Nothing is removed or changed: where a record stood at an address, every
/// reader gets from a later state of the store what the reader got before.
pub proof fn law_prior_writes_stay(
    before: SubstrateView,
    after: SubstrateView,
    reader: Seq<u8>,
    address: Seq<u8>,
)
    requires
        before.extended_by(after),
        before.stored_at(address) is Some,
    ensures
        after.stored_at(address) == before.stored_at(address),
        after.read(reader, address) == before.read(reader, address),
{
    let position = address_position(address).unwrap() as int;
    assert(after.records.subrange(0, before.records.len() as int)[position]
        == after.records[position]);
}

/// Writing, updating and linking only add to the store.
pub proof fn law_requests_only_add(
    store: SubstrateView,
    author: Seq<u8>,
    address: Seq<u8>,
    target: Seq<u8>,
    content: ContentView,
    visibility: Visibility,
    link_type: LinkType,
)
    ensures
        store.extended_by(store),
        store.extended_by(store.write(author, content, visibility)),
        store.extended_by(store.update(author, address, content)),
        store.extended_by(store.link(address, target, link_type)),
{
}

/// Update chain: after some content was written and then replaced by its
/// author, the new address reads as the replacement and names the first
/// address as its predecessor, and the first address still reads as it did
/// before the update.
pub proof fn law_update_chain(
    store: SubstrateView,
    author: Seq<u8>,
    first: ContentView,
    second: ContentView,
    visibility: Visibility,
)
    requires
        store.write(author, first, visibility).well_formed(),
    ensures
        ({
            let written = store.write(author, first, visibility);
            let updated = written.update(author, store.next_address(), second);
            &&& written.update_fault(author, store.next_address()) is None
            &&& written.next_address() != store.next_address()
            &&& updated.read(author, written.next_address()) == Some(
                RecordView { address: written.next_address(), content: second },
            )
            &&& updated.read(author, store.next_address()) == Some(
                RecordView { address: store.next_address(), content: first },
            )
            &&& updated.read(author, store.next_address()) == written.read(
                author,
                store.next_address(),
            )
            &&& updated.predecessor(author, written.next_address()) == Some(store.next_address())
            &&& updated.predecessor(author, store.next_address()) is None
        }),
{
    let written = store.write(author, first, visibility);
    let updated = written.update(author, store.next_address(), second);
    lemma_address_names_position(store.records.len());
    lemma_address_names_position(written.records.len());
    law_round_trip(store, author, first, visibility);
    law_requests_only_add(
        written,
        author,
        store.next_address(),
        store.next_address(),
        second,
        visibility,
        LinkType::AgentToProfile,
    );
    law_prior_writes_stay(written, updated, author, store.next_address());
}

/// Visibility: a record written as private is never read by anyone but its
/// author, in the state right after the write or in any later one.
pub proof fn law_private_to_author(
    store: SubstrateView,
    author: Seq<u8>,
    reader: Seq<u8>,
    content: ContentView,
    later: SubstrateView,
)
    requires
        store.well_formed(),
        reader != author,
        store.write(author, content, Visibility::Private).extended_by(later),
    ensures
        store.write(author, content, Visibility::Private).read(reader, store.next_address())
            is None,
        later.read(reader, store.next_address()) is None,
{
    let written = store.write(author, content, Visibility::Private);
    lemma_address_names_position(store.records.len());
    law_prior_writes_stay(written, later, reader, store.next_address());
}

/// Two addresses that read as records are the same address only if they name
/// the same place in the log: no record is reached under two addresses.
pub proof fn law_one_address_per_record(store: SubstrateView, a: Seq<u8>, b: Seq<u8>)
    requires
        store.stored_at(a) is Some,
        store.stored_at(b) is Some,
        address_position(a) == address_position(b),
    ensures
        a == b,
{
    lemma_position_names_address(a);
    lemma_position_names_address(b);
}

/// The edge that storing adds from `profile` to the record at `target`.
pub open spec fn data_edge(profile: Seq<u8>, target: Seq<u8>) -> LinkView {
    LinkView { base: profile, target, link_type: LinkType::ProfileToPrivateData }
}

/// Storing adds one record and, where the caller has a profile, one edge from
/// the first profile to the new record, behind the edges that were there. The
/// caller's profiles are the same afterwards.
pub proof fn law_store_adds(store: SubstrateView, caller: Seq<u8>, data: PersonDataView)
    ensures
        ({
            let after = after_store(store, caller, data);
            let profiles = store.links_from(caller, LinkType::AgentToProfile);
            &&& store.extended_by(after)
            &&& after.records.len() == store.records.len() + 1
            &&& after.links_from(caller, LinkType::AgentToProfile) == profiles
            &&& profiles.len() == 0 ==> after.links == store.links
            &&& profiles.len() > 0 ==> after.links_from(
                profiles[0].target,
                LinkType::ProfileToPrivateData,
            ) == store.links_from(profiles[0].target, LinkType::ProfileToPrivateData).push(
                data_edge(profiles[0].target, store.next_address()),
            )
        }),
{
    let content = ContentView::PrivateData(data);
    let written = store.write(caller, content, Visibility::Private);
    let after = after_store(store, caller, data);
    let profiles = store.links_from(caller, LinkType::AgentToProfile);
    law_requests_only_add(
        store,
        caller,
        caller,
        caller,
        content,
        Visibility::Private,
        LinkType::AgentToProfile,
    );
    if profiles.len() > 0 {
        let profile = profiles[0].target;
        let edge = data_edge(profile, store.next_address());
        assert(after.links == store.links.push(edge));
        store.links.lemma_filter_push(edge, leads_from(caller, LinkType::AgentToProfile));
        store.links.lemma_filter_push(edge, leads_from(profile, LinkType::ProfileToPrivateData));
    }
}

/// Orphan store: where the caller has no profile, storing leaves the new
/// record unlinked, and the caller reaches no private data afterwards.
pub proof fn law_orphan_store(store: SubstrateView, caller: Seq<u8>, data: PersonDataView)
    requires
        store.links_from(caller, LinkType::AgentToProfile).len() == 0,
    ensures
        after_store(store, caller, data) == store.write(
            caller,
            ContentView::PrivateData(data),
            Visibility::Private,
        ),
        private_data_of(after_store(store, caller, data), caller) is None,
{
}

/// Stored, then found: a caller with a profile from which no edge to private
/// data leads yet reaches, after storing, exactly what was stored. Where such
/// an edge was there already, the first of them goes on to decide what the
/// caller reaches.
pub proof fn law_stored_is_found(store: SubstrateView, caller: Seq<u8>, data: PersonDataView)
    requires
        store.well_formed(),
        store.links_from(caller, LinkType::AgentToProfile).len() > 0,
    ensures
        ({
            let after = after_store(store, caller, data);
            let profile = store.links_from(caller, LinkType::AgentToProfile)[0].target;
            let edges_before = store.links_from(profile, LinkType::ProfileToPrivateData);
            &&& edges_before.len() == 0 ==> private_data_of(after, caller) == Some(data)
            &&& edges_before.len() > 0 ==> private_data_of(after, caller) == reached_over(
                after,
                caller,
                edges_before[0].target,
            )
        }),
{
    let content = ContentView::PrivateData(data);
    let after = after_store(store, caller, data);
    law_store_adds(store, caller, data);
    law_round_trip(store, caller, content, Visibility::Private);
    lemma_address_names_position(store.records.len());
    assert(after.read(caller, store.next_address()) == store.write(
        caller,
        content,
        Visibility::Private,
    ).read(caller, store.next_address()));
}

/// Multiple links: storing twice for a caller with a profile adds two records
/// and two edges from the profile, in the order of storing and behind the
/// edges that were there. What the caller reaches is what the first edge
/// leads to: where no edge was there before, that is what was stored first.
pub proof fn law_first_edge_decides(
    store: SubstrateView,
    caller: Seq<u8>,
    first: PersonDataView,
    second: PersonDataView,
)
    requires
        after_store(store, caller, first).well_formed(),
        store.links_from(caller, LinkType::AgentToProfile).len() > 0,
    ensures
        ({
            let once = after_store(store, caller, first);
            let twice = after_store(once, caller, second);
            let profile = store.links_from(caller, LinkType::AgentToProfile)[0].target;
            let edges_before = store.links_from(profile, LinkType::ProfileToPrivateData);
            &&& twice.records.len() == store.records.len() + 2
            &&& once.next_address() != store.next_address()
            &&& twice.links_from(profile, LinkType::ProfileToPrivateData) == edges_before.push(
                data_edge(profile, store.next_address()),
            ).push(data_edge(profile, once.next_address()))
            &&& edges_before.len() == 0 ==> private_data_of(twice, caller) == Some(first)
        }),
{
    let once = after_store(store, caller, first);
    let twice = after_store(once, caller, second);
    let profile = store.links_from(caller, LinkType::AgentToProfile)[0].target;
    let edges_before = store.links_from(profile, LinkType::ProfileToPrivateData);
    law_store_adds(store, caller, first);
    law_store_adds(once, caller, second);
    lemma_address_names_position(store.records.len());
    lemma_address_names_position(once.records.len());
    if edges_before.len() == 0 {
        law_stored_is_found(store, caller, first);
        law_prior_writes_stay(once, twice, caller, store.next_address());
    }
}

/// What a caller reaches, the caller reaches in every later state of the
/// store: the first edges stay the first, and the record they lead to stays
/// as it is.
pub proof fn law_reached_data_is_kept(before: SubstrateView, after: SubstrateView, caller: Seq<u8>)
    requires
        before.extended_by(after),
        private_data_of(before, caller) is Some,
    ensures
        private_data_of(after, caller) == private_data_of(before, caller),
{
    let to_profile = leads_from(caller, LinkType::AgentToProfile);
    before.links.lemma_filter_monotone(after.links, to_profile);
    let profile = before.links_from(caller, LinkType::AgentToProfile)[0].target;
    assert(after.links_from(caller, LinkType::AgentToProfile)[0].target == profile);
    let to_data = leads_from(profile, LinkType::ProfileToPrivateData);
    before.links.lemma_filter_monotone(after.links, to_data);
    let target = before.links_from(profile, LinkType::ProfileToPrivateData)[0].target;
    assert(after.links_from(profile, LinkType::ProfileToPrivateData)[0].target == target);
    assert(reached_over(before, caller, target) is Some);
    law_prior_writes_stay(before, after, caller, target);
}

/// An update adds no edge, and changes nothing of what its caller, or anyone,
/// reaches through a profile: the edge keeps leading to the record that it
/// was made for, the start of the chain.
pub proof fn law_update_keeps_what_is_reached(
    store: SubstrateView,
    caller: Seq<u8>,
    input: UpdateInputView,
    reader: Seq<u8>,
)
    requires
        private_data_of(store, reader) is Some,
    ensures
        after_update(store, caller, input).links == store.links,
        store.extended_by(after_update(store, caller, input)),
        private_data_of(after_update(store, caller, input), reader) == private_data_of(
            store,
            reader,
        ),
{
    law_requests_only_add(
        store,
        caller,
        input.previous,
        input.previous,
        ContentView::PrivateData(input.updated),
        Visibility::Private,
        LinkType::AgentToProfile,
    );
    law_reached_data_is_kept(store, after_update(store, caller, input), reader);
}

/// The store answers each request in its kind.
pub proof fn law_store_answers_in_kind(store: SubstrateView, caller: Seq<u8>, request: RequestView)
    ensures
        store.serve(caller, request).1 matches Ok(reply) ==> request.answered_by(reply),
        store.answer(caller, request) matches Some(reply) ==> request.answered_by(reply),
{
}

/// Storing takes every answer to its requests: handed a reply in the kind of
/// the request that it named, it never hands its state back.
pub proof fn law_storing_takes_answers(
    caller: Seq<u8>,
    data: PersonDataView,
    state: StoreStateView,
    reply: ReplyView,
    answer: ReplyView,
)
    ensures
        store_start(caller, data).1.answered_by(answer) ==> !(store_next(
            store_start(caller, data).0,
            answer,
        ) is Unanswered),
        store_next(state, reply) matches StepView::Ask { state: next, request } ==> (
            request.answered_by(answer) ==> !(store_next(next, answer) is Unanswered)),
{
}

/// Updating takes every answer to its requests.
pub proof fn law_updating_takes_answers(
    input: UpdateInputView,
    state: UpdateStateView,
    reply: ReplyView,
    answer: ReplyView,
)
    ensures
        update_start(input).1.answered_by(answer) ==> !(update_next(update_start(input).0, answer)
            is Unanswered),
        update_next(state, reply) matches StepView::Ask { state: next, request } ==> (
            request.answered_by(answer) ==> !(update_next(next, answer) is Unanswered)),
{
}

/// Reading takes every answer to its requests.
pub proof fn law_reading_takes_answers(
    caller: Seq<u8>,
    state: GetState,
    reply: ReplyView,
    answer: ReplyView,
)
    ensures
        get_start(caller).1.answered_by(answer) ==> !(get_next(get_start(caller).0, answer)
            is Unanswered),
        get_next(state, reply) matches StepView::Ask { state: next, request } ==> (
            request.answered_by(answer) ==> !(get_next(next, answer) is Unanswered)),
{
}

} // verus!
