//! The operations on private data, run against the store.
//!
//! Each operation runs its machine to the end: it performs the request that
//! the machine names, hands the reply back, and stops with the store's fault
//! where the store refuses. The contracts say what the store holds afterwards
//! and what the caller gets, in one piece.

use crate::address::{is_action_address, Address};
use crate::controller::{
    get_begin, get_step, store_begin, store_start, store_step, update_begin, update_start,
    update_step, GetState, Reply, ReplyView, Request, RequestView, Step, StoreStateView,
    UpdateStateView,
};
use crate::laws::law_round_trip;
use crate::person::{
    PersonDataView, PersonError, PersonErrorView, PrivatePersonData, UpdateInputView,
};
pub use crate::person::{PrivatePersonDataInput, UpdatePrivatePersonDataInput};
use crate::substrate::{
    lemma_address_names_position, ContentView, LinkType, Record, RecordView, Substrate,
    SubstrateFault, SubstrateView, Visibility,
};
use vstd::prelude::*;

verus! {

/// What the store answers to a request, over views.
pub open spec fn served(reply: Result<Reply, SubstrateFault>) -> Result<ReplyView, SubstrateFault> {
    match reply {
        Ok(reply) => Ok(reply@),
        Err(fault) => Err(fault),
    }
}

impl SubstrateView {
    /// The reply to a request that only asks; nothing for one that writes or
    /// that the store may refuse.
    pub open spec fn answer(self, caller: Seq<u8>, request: RequestView) -> Option<ReplyView> {
        match request {
            RequestView::Read { address } => Some(ReplyView::Found(self.read(caller, address))),
            RequestView::LinksFrom { base, link_type } => Some(
                ReplyView::Links(self.links_from(base, link_type)),
            ),
            _ => None,
        }
    }

    /// The store after `caller` made `request`, and the reply or the fault
    /// that the caller got. A request that is refused changes nothing.
    pub open spec fn serve(self, caller: Seq<u8>, request: RequestView) -> (
        SubstrateView,
        Result<ReplyView, SubstrateFault>,
    ) {
        match request {
            RequestView::Write { content, visibility } => (
                self.write(caller, content, visibility),
                Ok(ReplyView::Written(self.next_address())),
            ),
            RequestView::Update { previous, content } => match self.update_fault(
                caller,
                previous,
            ) {
                Some(fault) => (self, Err(fault)),
                None => (
                    self.update(caller, previous, content),
                    Ok(ReplyView::Written(self.next_address())),
                ),
            },
            RequestView::Resolve { address } => match self.read(caller, address) {
                Some(_) => (self, Ok(ReplyView::Resolved)),
                None => (self, Err(SubstrateFault::UnknownAddress)),
            },
            RequestView::Link { base, target, link_type } => (
                self.link(base, target, link_type),
                Ok(ReplyView::Linked),
            ),
            RequestView::Read { .. } | RequestView::LinksFrom { .. } => (
                self,
                Ok(self.answer(caller, request).unwrap()),
            ),
        }
    }
}

impl Substrate {
    /// Answers a request that only asks, and no other.
    pub fn answer(&self, caller: &Address, request: &Request) -> (reply: Option<Reply>)
        ensures
            reply.deep_view() == self@.answer(caller@, request@),
    {
        match request {
            Request::Read { address } => Some(Reply::Found(self.read(caller, address))),
            Request::LinksFrom { base, link_type } => Some(
                Reply::Links(self.links_from(base, *link_type)),
            ),
            _ => None,
        }
    }

    /// Performs `request` for `caller` and answers it.
    pub fn serve(&mut self, caller: &Address, request: &Request) -> (reply: Result<
        Reply,
        SubstrateFault,
    >)
        ensures
            (final(self)@, served(reply)) == old(self)@.serve(caller@, request@),
    {
        match request {
            Request::Write { content, visibility } => Ok(
                Reply::Written(self.write(caller, content.clone(), *visibility)),
            ),
            Request::Update { previous, content } => {
                match self.update(caller, previous, content.clone()) {
                    Ok(address) => Ok(Reply::Written(address)),
                    Err(fault) => Err(fault),
                }
            },
            Request::Resolve { address } => match self.resolve(caller, address) {
                Ok(_) => Ok(Reply::Resolved),
                Err(fault) => Err(fault),
            },
            Request::Link { base, target, link_type } => {
                self.link(base.clone(), target.clone(), *link_type);
                Ok(Reply::Linked)
            },
            Request::Read { address } => Ok(Reply::Found(self.read(caller, address))),
            Request::LinksFrom { base, link_type } => Ok(
                Reply::Links(self.links_from(base, *link_type)),
            ),
        }
    }
}

// ---------------------------------------------------------------- storing

/// The record that storing `data` in `store` gives back.
pub open spec fn stored_record(store: SubstrateView, data: PersonDataView) -> RecordView {
    RecordView { address: store.next_address(), content: ContentView::PrivateData(data) }
}

/// The store after `caller` stored `data`: a new private record, and an edge
/// to it from the first profile of `caller`, where there is one.
pub open spec fn after_store(
    store: SubstrateView,
    caller: Seq<u8>,
    data: PersonDataView,
) -> SubstrateView {
    let written = store.write(caller, ContentView::PrivateData(data), Visibility::Private);
    let profiles = store.links_from(caller, LinkType::AgentToProfile);
    if profiles.len() > 0 {
        written.link(profiles[0].target, store.next_address(), LinkType::ProfileToPrivateData)
    } else {
        written
    }
}

/// What holds between two requests of storing: how far the store has got
/// from `start`, and that the request in hand is the one that comes next.
spec fn store_underway(
    start: SubstrateView,
    caller: Seq<u8>,
    data: PersonDataView,
    now: SubstrateView,
    state: StoreStateView,
    request: RequestView,
) -> bool {
    let written = start.write(caller, ContentView::PrivateData(data), Visibility::Private);
    let profiles = start.links_from(caller, LinkType::AgentToProfile);
    match state {
        StoreStateView::Writing { caller: c } => {
            &&& c == caller
            &&& now == start
            &&& request == store_start(caller, data).1
        },
        StoreStateView::ReadingBack { caller: c, address } => {
            &&& c == caller
            &&& now == written
            &&& address == start.next_address()
            &&& request == RequestView::Read { address }
        },
        StoreStateView::FindingProfile { address, record } => {
            &&& now == written
            &&& address == start.next_address()
            &&& record == stored_record(start, data)
            &&& request == RequestView::LinksFrom { base: caller, link_type: LinkType::AgentToProfile }
        },
        StoreStateView::Linking { record } => {
            &&& now == written
            &&& record == stored_record(start, data)
            &&& profiles.len() > 0
            &&& request == RequestView::Link {
                base: profiles[0].target,
                target: start.next_address(),
                link_type: LinkType::ProfileToPrivateData,
            }
        },
    }
}

/// Stores `input` as the private data of `caller`.
///
/// The fields are written as a private record, which is read back. Where
/// `caller` has a profile, the first profile found is linked to the new
/// record; where not, the record stays unlinked, and that is no error. The
/// result is the record as read back. Against this store the record is always
/// there to be read back, so storing always succeeds.
pub fn store_private_person_data(
    substrate: &mut Substrate,
    caller: &Address,
    input: PrivatePersonDataInput,
) -> (result: Result<Record, PersonError>)
    ensures
        final(substrate)@ == after_store(old(substrate)@, caller@, input@),
        result matches Ok(record) && record@ == stored_record(old(substrate)@, input@),
{
    let ghost start = substrate@;
    let ghost data = input@;
    proof {
        substrate.lemma_well_formed();
    }
    let (mut state, mut request) = store_begin(caller.clone(), input);
    loop
        invariant
            start == old(substrate)@,
            data == input@,
            start.well_formed(),
            store_underway(start, caller@, data, substrate@, state@, request@),
        decreases state@.rank(),
    {
        proof {
            law_round_trip(
                start,
                caller@,
                ContentView::PrivateData(data),
                Visibility::Private,
            );
        }
        let reply = match substrate.serve(caller, &request) {
            Ok(reply) => reply,
            Err(fault) => {
                return Err(PersonError::Substrate(fault));
            },
        };
        match store_step(state, reply) {
            Step::Ask { state: next, request: asked } => {
                state = next;
                request = asked;
            },
            Step::Done(result) => {
                return result;
            },
            Step::Unanswered(same) => {
                state = same;
            },
        }
    }
}

// --------------------------------------------------------------- updating

/// The fault that ends an update of `caller`, if the store refuses it: the
/// record that the chain started with must be there for `caller` to read, and
/// the record to replace must be one that `caller` wrote.
pub open spec fn update_refusal(
    store: SubstrateView,
    caller: Seq<u8>,
    input: UpdateInputView,
) -> Option<SubstrateFault> {
    if store.read(caller, input.original) is None {
        Some(SubstrateFault::UnknownAddress)
    } else {
        store.update_fault(caller, input.previous)
    }
}

/// The store after the update: one more record where the store accepts the
/// update, and no change where it refuses. No edge is added either way.
pub open spec fn after_update(
    store: SubstrateView,
    caller: Seq<u8>,
    input: UpdateInputView,
) -> SubstrateView {
    if update_refusal(store, caller, input) is Some {
        store
    } else {
        store.update(caller, input.previous, ContentView::PrivateData(input.updated))
    }
}

/// What holds between two requests of updating.
spec fn update_underway(
    start: SubstrateView,
    caller: Seq<u8>,
    input: UpdateInputView,
    now: SubstrateView,
    state: UpdateStateView,
    request: RequestView,
) -> bool {
    match state {
        UpdateStateView::Resolving { previous, updated } => {
            &&& now == start
            &&& (state, request) == update_start(input)
        },
        UpdateStateView::Updating => {
            &&& now == start
            &&& start.read(caller, input.original) is Some
            &&& request == RequestView::Update {
                previous: input.previous,
                content: ContentView::PrivateData(input.updated),
            }
        },
        UpdateStateView::ReadingBack => {
            &&& update_refusal(start, caller, input) is None
            &&& now == after_update(start, caller, input)
            &&& request == RequestView::Read { address: start.next_address() }
        },
    }
}

/// Replaces private data of `caller` by the fields of `input`.
///
/// The record that the chain started with is resolved first, then the new
/// fields are written as the replacement of the direct predecessor, and the
/// new record is read back. A fault of the store ends the update and is
/// passed on; the store is then as it was. No edge is added: the profile
/// keeps pointing at the start of the chain.
pub fn update_private_person_data(
    substrate: &mut Substrate,
    caller: &Address,
    input: UpdatePrivatePersonDataInput,
) -> (result: Result<Record, PersonError>)
    ensures
        final(substrate)@ == after_update(old(substrate)@, caller@, input@),
        match update_refusal(old(substrate)@, caller@, input@) {
            Some(fault) => result matches Err(error) && error@ == PersonErrorView::Substrate(
                fault,
            ),
            None => result matches Ok(record) && record@ == stored_record(
                old(substrate)@,
                input@.updated,
            ),
        },
{
    let ghost start = substrate@;
    let ghost asked_for = input@;
    proof {
        substrate.lemma_well_formed();
    }
    let (mut state, mut request) = update_begin(input);
    loop
        invariant
            start == old(substrate)@,
            asked_for == input@,
            start.well_formed(),
            update_underway(start, caller@, asked_for, substrate@, state@, request@),
        decreases state@.rank(),
    {
        proof {
            lemma_address_names_position(start.records.len());
        }
        let reply = match substrate.serve(caller, &request) {
            Ok(reply) => reply,
            Err(fault) => {
                return Err(PersonError::Substrate(fault));
            },
        };
        match update_step(state, reply) {
            Step::Ask { state: next, request: asked } => {
                state = next;
                request = asked;
            },
            Step::Done(result) => {
                return result;
            },
            Step::Unanswered(same) => {
                state = same;
            },
        }
    }
}

// ---------------------------------------------------------------- reading

/// The private data that `reader` gets over an edge to `target`: what stands
/// there, where `target` is an action's address at which `reader` reads
/// private person data.
pub open spec fn reached_over(store: SubstrateView, reader: Seq<u8>, target: Seq<u8>) -> Option<
    PersonDataView,
> {
    if is_action_address(target) {
        match store.read(reader, target) {
            Some(record) => record.content.private_data(),
            None => None,
        }
    } else {
        None
    }
}

/// The private data that `caller` reaches in `store`: from the first profile
/// of `caller`, over the first edge to private data. Nothing where the
/// profile or the edge is missing, or where the edge leads to none.
pub open spec fn private_data_of(store: SubstrateView, caller: Seq<u8>) -> Option<PersonDataView> {
    let profiles = store.links_from(caller, LinkType::AgentToProfile);
    if profiles.len() == 0 {
        None
    } else {
        let edges = store.links_from(profiles[0].target, LinkType::ProfileToPrivateData);
        if edges.len() == 0 {
            None
        } else {
            reached_over(store, caller, edges[0].target)
        }
    }
}

/// What holds between two requests of reading.
spec fn get_underway(
    store: SubstrateView,
    caller: Seq<u8>,
    state: GetState,
    request: RequestView,
) -> bool {
    let profiles = store.links_from(caller, LinkType::AgentToProfile);
    match state {
        GetState::FindingProfile => request == RequestView::LinksFrom {
            base: caller,
            link_type: LinkType::AgentToProfile,
        },
        GetState::FindingData => {
            &&& profiles.len() > 0
            &&& request == RequestView::LinksFrom {
                base: profiles[0].target,
                link_type: LinkType::ProfileToPrivateData,
            }
        },
        GetState::Reading => {
            let edges = store.links_from(profiles[0].target, LinkType::ProfileToPrivateData);
            &&& profiles.len() > 0
            &&& edges.len() > 0
            &&& is_action_address(edges[0].target)
            &&& request == RequestView::Read { address: edges[0].target }
        },
    }
}

/// The private data of `caller`, if `caller` reaches any.
///
/// Never fails: a missing profile, a missing edge, a record that is not
/// there or holds something else all give nothing.
pub fn get_my_private_person_data(substrate: &Substrate, caller: &Address) -> (data: Option<
    PrivatePersonData,
>)
    ensures
        data.deep_view() == private_data_of(substrate@, caller@),
{
    let (mut state, mut request) = get_begin(caller.clone());
    loop
        invariant
            get_underway(substrate@, caller@, state, request@),
        decreases state.rank(),
    {
        let reply = match substrate.answer(caller, &request) {
            Some(reply) => reply,
            None => {
                return None;
            },
        };
        match get_step(state, reply) {
            Step::Ask { state: next, request: asked } => {
                state = next;
                request = asked;
            },
            Step::Done(data) => {
                return data;
            },
            Step::Unanswered(same) => {
                state = same;
            },
        }
    }
}

} // verus!
