//! The three operations as state machines.
//!
//! An operation never touches the store itself. It starts by naming one
//! request; whoever runs it performs the request and hands back the reply;
//! the machine then names the next request, or is done. What stands between
//! two requests is all an operation decides, and it is decided here.
//!
//! A machine sees replies only. Where the store reports a fault instead of a
//! reply, the operation ends there with that fault, and the machine is not
//! asked again. A reply that does not answer the request in hand is not taken:
//! the machine hands its state back unchanged.

use crate::address::{is_action_address, Address};
use crate::person::{
    PersonDataView, PersonError, PersonErrorView, PrivatePersonData, PrivatePersonDataInput,
    UpdateInputView, UpdatePrivatePersonDataInput,
};
use crate::substrate::{
    Content, ContentView, Link, LinkType, LinkView, Record, RecordView, Visibility,
};
use vstd::prelude::*;

verus! {

/// What a machine asks of the store.
pub enum RequestView {
    Write { content: ContentView, visibility: Visibility },
    Update { previous: Seq<u8>, content: ContentView },
    Resolve { address: Seq<u8> },
    Read { address: Seq<u8> },
    Link { base: Seq<u8>, target: Seq<u8>, link_type: LinkType },
    LinksFrom { base: Seq<u8>, link_type: LinkType },
}

/// What a machine asks of the store.
#[derive(Debug, PartialEq, Eq)]
pub enum Request {
    /// Write a new record.
    Write { content: Content, visibility: Visibility },
    /// Write a record that replaces the one at `previous`.
    Update { previous: Address, content: Content },
    /// Confirm that a record stands at `address`.
    Resolve { address: Address },
    /// Read the record at `address`, if the caller may.
    Read { address: Address },
    /// Add an edge.
    Link { base: Address, target: Address, link_type: LinkType },
    /// List the edges from `base` of one kind, oldest first.
    LinksFrom { base: Address, link_type: LinkType },
}

impl View for Request {
    type V = RequestView;

    open spec fn view(&self) -> RequestView {
        match self {
            Request::Write { content, visibility } => RequestView::Write {
                content: content@,
                visibility: *visibility,
            },
            Request::Update { previous, content } => RequestView::Update {
                previous: previous@,
                content: content@,
            },
            Request::Resolve { address } => RequestView::Resolve { address: address@ },
            Request::Read { address } => RequestView::Read { address: address@ },
            Request::Link { base, target, link_type } => RequestView::Link {
                base: base@,
                target: target@,
                link_type: *link_type,
            },
            Request::LinksFrom { base, link_type } => RequestView::LinksFrom {
                base: base@,
                link_type: *link_type,
            },
        }
    }
}

/// What the store answers.
pub enum ReplyView {
    Written(Seq<u8>),
    Resolved,
    Found(Option<RecordView>),
    Linked,
    Links(Seq<LinkView>),
}

/// What the store answers.
#[derive(Debug, PartialEq, Eq)]
pub enum Reply {
    /// To `Write` and `Update`: the address of the new record.
    Written(Address),
    /// To `Resolve`: a record stands there.
    Resolved,
    /// To `Read`: the record, or nothing.
    Found(Option<Record>),
    /// To `Link`: the edge was added.
    Linked,
    /// To `LinksFrom`: the edges, oldest first.
    Links(Vec<Link>),
}

impl View for Reply {
    type V = ReplyView;

    open spec fn view(&self) -> ReplyView {
        match self {
            Reply::Written(address) => ReplyView::Written(address@),
            Reply::Resolved => ReplyView::Resolved,
            Reply::Found(found) => ReplyView::Found(found.deep_view()),
            Reply::Links(links) => ReplyView::Links(links.deep_view()),
            Reply::Linked => ReplyView::Linked,
        }
    }
}

impl DeepView for Reply {
    type V = ReplyView;

    open spec fn deep_view(&self) -> ReplyView {
        self@
    }
}

impl RequestView {
    /// Whether `reply` is an answer to this request.
    pub open spec fn answered_by(self, reply: ReplyView) -> bool {
        match self {
            RequestView::Write { .. } => reply is Written,
            RequestView::Update { .. } => reply is Written,
            RequestView::Resolve { .. } => reply is Resolved,
            RequestView::Read { .. } => reply is Found,
            RequestView::Link { .. } => reply is Linked,
            RequestView::LinksFrom { .. } => reply is Links,
        }
    }
}

/// What a machine does with a reply.
pub enum StepView<S, T> {
    Ask { state: S, request: RequestView },
    Done(T),
    Unanswered(S),
}

/// What a machine does with a reply.
#[derive(Debug, PartialEq, Eq)]
pub enum Step<S, T> {
    /// Perform `request` and come back with its reply.
    Ask { state: S, request: Request },
    /// The operation is over, with this result.
    Done(T),
    /// The reply did not answer the request in hand, which is still owed.
    Unanswered(S),
}

/// The result of storing or updating, over views.
pub open spec fn record_outcome(result: Result<Record, PersonError>) -> Result<
    RecordView,
    PersonErrorView,
> {
    match result {
        Ok(record) => Ok(record@),
        Err(error) => Err(error@),
    }
}

/// The cause given when a record just written cannot be read back.
pub open spec fn write_not_verified() -> Seq<char> {
    "post-write verification failed"@
}

/// The cause given when a record just updated cannot be read back.
pub open spec fn update_not_verified() -> Seq<char> {
    "post-update verification failed"@
}

// ---------------------------------------------------------------- storing

/// Where the storing of private data stands.
pub enum StoreStateView {
    Writing { caller: Seq<u8> },
    ReadingBack { caller: Seq<u8>, address: Seq<u8> },
    FindingProfile { address: Seq<u8>, record: RecordView },
    Linking { record: RecordView },
}

impl StoreStateView {
    /// How many requests are left at most, this one included.
    pub open spec fn rank(self) -> nat {
        match self {
            StoreStateView::Writing { .. } => 4,
            StoreStateView::ReadingBack { .. } => 3,
            StoreStateView::FindingProfile { .. } => 2,
            StoreStateView::Linking { .. } => 1,
        }
    }
}

/// Where the storing of private data stands.
#[derive(Debug, PartialEq, Eq)]
pub enum StoreState {
    /// The record is being written.
    Writing { caller: Address },
    /// The new record is being read back.
    ReadingBack { caller: Address, address: Address },
    /// The caller's profile is being looked up.
    FindingProfile { address: Address, record: Record },
    /// The profile is being linked to the new record.
    Linking { record: Record },
}

impl View for StoreState {
    type V = StoreStateView;

    open spec fn view(&self) -> StoreStateView {
        match self {
            StoreState::Writing { caller } => StoreStateView::Writing { caller: caller@ },
            StoreState::ReadingBack { caller, address } => StoreStateView::ReadingBack {
                caller: caller@,
                address: address@,
            },
            StoreState::FindingProfile { address, record } => StoreStateView::FindingProfile {
                address: address@,
                record: record@,
            },
            StoreState::Linking { record } => StoreStateView::Linking { record: record@ },
        }
    }
}

pub type StoreStepView = StepView<StoreStateView, Result<RecordView, PersonErrorView>>;

pub type StoreStep = Step<StoreState, Result<Record, PersonError>>;

impl View for Step<StoreState, Result<Record, PersonError>> {
    type V = StoreStepView;

    open spec fn view(&self) -> StoreStepView {
        match self {
            Step::Ask { state, request } => StepView::Ask { state: state@, request: request@ },
            Step::Done(result) => StepView::Done(record_outcome(*result)),
            Step::Unanswered(state) => StepView::Unanswered(state@),
        }
    }
}

/// How storing starts: the fields are written as a private record.
pub open spec fn store_start(caller: Seq<u8>, data: PersonDataView) -> (StoreStateView, RequestView) {
    (
        StoreStateView::Writing { caller },
        RequestView::Write {
            content: ContentView::PrivateData(data),
            visibility: Visibility::Private,
        },
    )
}

/// How storing goes on.
///
/// The new record is read back, and storing fails if it is not there. The
/// caller's profile is looked up: with no profile the record stays unlinked
/// and storing is done; else the first profile found is linked to the record.
pub open spec fn store_next(state: StoreStateView, reply: ReplyView) -> StoreStepView {
    match (state, reply) {
        (StoreStateView::Writing { caller }, ReplyView::Written(address)) => StepView::Ask {
            state: StoreStateView::ReadingBack { caller, address },
            request: RequestView::Read { address },
        },
        (StoreStateView::ReadingBack { caller, address }, ReplyView::Found(Some(record))) => {
            StepView::Ask {
                state: StoreStateView::FindingProfile { address, record },
                request: RequestView::LinksFrom { base: caller, link_type: LinkType::AgentToProfile },
            }
        },
        (StoreStateView::ReadingBack { .. }, ReplyView::Found(None)) => StepView::Done(
            Err(PersonErrorView::EntryOperationFailed(write_not_verified())),
        ),
        (StoreStateView::FindingProfile { address, record }, ReplyView::Links(profiles)) => {
            if profiles.len() > 0 {
                StepView::Ask {
                    state: StoreStateView::Linking { record },
                    request: RequestView::Link {
                        base: profiles[0].target,
                        target: address,
                        link_type: LinkType::ProfileToPrivateData,
                    },
                }
            } else {
                StepView::Done(Ok(record))
            }
        },
        (StoreStateView::Linking { record }, ReplyView::Linked) => StepView::Done(Ok(record)),
        (state, _) => StepView::Unanswered(state),
    }
}

/// Starts the storing of `input` for `caller`.
pub fn store_begin(caller: Address, input: PrivatePersonDataInput) -> (start: (StoreState, Request))
    ensures
        (start.0@, start.1@) == store_start(caller@, input@),
{
    (
        StoreState::Writing { caller },
        Request::Write {
            content: Content::PrivateData(input.into_data()),
            visibility: Visibility::Private,
        },
    )
}

/// Takes the reply to the request in hand and says how storing goes on.
pub fn store_step(state: StoreState, reply: Reply) -> (step: StoreStep)
    ensures
        step@ == store_next(state@, reply@),
        step matches Step::Ask { state: next, .. } ==> next@.rank() < state@.rank(),
{
    match (state, reply) {
        (StoreState::Writing { caller }, Reply::Written(address)) => Step::Ask {
            state: StoreState::ReadingBack { caller, address: address.clone() },
            request: Request::Read { address },
        },
        (StoreState::ReadingBack { caller, address }, Reply::Found(Some(record))) => Step::Ask {
            state: StoreState::FindingProfile { address, record },
            request: Request::LinksFrom { base: caller, link_type: LinkType::AgentToProfile },
        },
        (StoreState::ReadingBack { caller, address }, Reply::Found(None)) => Step::Done(
            Err(PersonError::EntryOperationFailed("post-write verification failed".to_owned())),
        ),
        (StoreState::FindingProfile { address, record }, Reply::Links(profiles)) => {
            if profiles.len() > 0 {
                let profile = profiles[0].target.clone();
                Step::Ask {
                    state: StoreState::Linking { record },
                    request: Request::Link {
                        base: profile,
                        target: address,
                        link_type: LinkType::ProfileToPrivateData,
                    },
                }
            } else {
                Step::Done(Ok(record))
            }
        },
        (StoreState::Linking { record }, Reply::Linked) => Step::Done(Ok(record)),
        (state, _) => Step::Unanswered(state),
    }
}

// --------------------------------------------------------------- updating

/// Where the updating of private data stands.
pub enum UpdateStateView {
    Resolving { previous: Seq<u8>, updated: PersonDataView },
    Updating,
    ReadingBack,
}

impl UpdateStateView {
    /// How many requests are left at most, this one included.
    pub open spec fn rank(self) -> nat {
        match self {
            UpdateStateView::Resolving { .. } => 3,
            UpdateStateView::Updating => 2,
            UpdateStateView::ReadingBack => 1,
        }
    }
}

/// Where the updating of private data stands.
#[derive(Debug, PartialEq, Eq)]
pub enum UpdateState {
    /// The record that the chain started with is being resolved.
    Resolving { previous: Address, updated: PrivatePersonData },
    /// The replacing record is being written.
    Updating,
    /// The replacing record is being read back.
    ReadingBack,
}

impl View for UpdateState {
    type V = UpdateStateView;

    open spec fn view(&self) -> UpdateStateView {
        match self {
            UpdateState::Resolving { previous, updated } => UpdateStateView::Resolving {
                previous: previous@,
                updated: updated@,
            },
            UpdateState::Updating => UpdateStateView::Updating,
            UpdateState::ReadingBack => UpdateStateView::ReadingBack,
        }
    }
}

pub type UpdateStepView = StepView<UpdateStateView, Result<RecordView, PersonErrorView>>;

pub type UpdateStep = Step<UpdateState, Result<Record, PersonError>>;

impl View for Step<UpdateState, Result<Record, PersonError>> {
    type V = UpdateStepView;

    open spec fn view(&self) -> UpdateStepView {
        match self {
            Step::Ask { state, request } => StepView::Ask { state: state@, request: request@ },
            Step::Done(result) => StepView::Done(record_outcome(*result)),
            Step::Unanswered(state) => StepView::Unanswered(state@),
        }
    }
}

/// How updating starts: the record that the chain started with is resolved.
pub open spec fn update_start(input: UpdateInputView) -> (UpdateStateView, RequestView) {
    (
        UpdateStateView::Resolving { previous: input.previous, updated: input.updated },
        RequestView::Resolve { address: input.original },
    )
}

/// How updating goes on.
///
/// Once the start of the chain is resolved, the new fields are written as the
/// replacement of the direct predecessor; the new record is read back, and
/// updating fails if it is not there. No edge is added.
pub open spec fn update_next(state: UpdateStateView, reply: ReplyView) -> UpdateStepView {
    match (state, reply) {
        (UpdateStateView::Resolving { previous, updated }, ReplyView::Resolved) => StepView::Ask {
            state: UpdateStateView::Updating,
            request: RequestView::Update { previous, content: ContentView::PrivateData(updated) },
        },
        (UpdateStateView::Updating, ReplyView::Written(address)) => StepView::Ask {
            state: UpdateStateView::ReadingBack,
            request: RequestView::Read { address },
        },
        (UpdateStateView::ReadingBack, ReplyView::Found(Some(record))) => StepView::Done(
            Ok(record),
        ),
        (UpdateStateView::ReadingBack, ReplyView::Found(None)) => StepView::Done(
            Err(PersonErrorView::EntryOperationFailed(update_not_verified())),
        ),
        (state, _) => StepView::Unanswered(state),
    }
}

/// Starts the update that `input` names.
pub fn update_begin(input: UpdatePrivatePersonDataInput) -> (start: (UpdateState, Request))
    ensures
        (start.0@, start.1@) == update_start(input@),
{
    (
        UpdateState::Resolving {
            previous: input.previous_action_hash,
            updated: input.updated_private_data.into_data(),
        },
        Request::Resolve { address: input.original_action_hash },
    )
}

/// Takes the reply to the request in hand and says how updating goes on.
pub fn update_step(state: UpdateState, reply: Reply) -> (step: UpdateStep)
    ensures
        step@ == update_next(state@, reply@),
        step matches Step::Ask { state: next, .. } ==> next@.rank() < state@.rank(),
{
    match (state, reply) {
        (UpdateState::Resolving { previous, updated }, Reply::Resolved) => Step::Ask {
            state: UpdateState::Updating,
            request: Request::Update { previous, content: Content::PrivateData(updated) },
        },
        (UpdateState::Updating, Reply::Written(address)) => Step::Ask {
            state: UpdateState::ReadingBack,
            request: Request::Read { address },
        },
        (UpdateState::ReadingBack, Reply::Found(Some(record))) => Step::Done(Ok(record)),
        (UpdateState::ReadingBack, Reply::Found(None)) => Step::Done(
            Err(PersonError::EntryOperationFailed("post-update verification failed".to_owned())),
        ),
        (state, _) => Step::Unanswered(state),
    }
}

// ---------------------------------------------------------------- reading

/// Where the reading of the caller's private data stands.
#[derive(Debug, Clone, Copy, PartialEq, Eq, Structural)]
pub enum GetState {
    /// The caller's profile is being looked up.
    FindingProfile,
    /// The private record of the profile is being looked up.
    FindingData,
    /// The private record is being read.
    Reading,
}

impl GetState {
    /// How many requests are left at most, this one included.
    pub open spec fn rank(self) -> nat {
        match self {
            GetState::FindingProfile => 3,
            GetState::FindingData => 2,
            GetState::Reading => 1,
        }
    }
}

pub type GetStepView = StepView<GetState, Option<PersonDataView>>;

pub type GetStep = Step<GetState, Option<PrivatePersonData>>;

impl View for Step<GetState, Option<PrivatePersonData>> {
    type V = GetStepView;

    open spec fn view(&self) -> GetStepView {
        match self {
            Step::Ask { state, request } => StepView::Ask { state: *state, request: request@ },
            Step::Done(data) => StepView::Done(data.deep_view()),
            Step::Unanswered(state) => StepView::Unanswered(*state),
        }
    }
}

/// How reading starts: the caller's profile is looked up.
pub open spec fn get_start(caller: Seq<u8>) -> (GetState, RequestView) {
    (
        GetState::FindingProfile,
        RequestView::LinksFrom { base: caller, link_type: LinkType::AgentToProfile },
    )
}

/// How reading goes on.
///
/// From the first profile found, the first edge to private data is followed,
/// where its target is the address of an action; what is read there is given
/// back where it is private person data. A missing profile, edge or record,
/// a target of another kind and a record of another content all end the
/// reading with nothing.
pub open spec fn get_next(state: GetState, reply: ReplyView) -> GetStepView {
    match (state, reply) {
        (GetState::FindingProfile, ReplyView::Links(profiles)) => {
            if profiles.len() > 0 {
                StepView::Ask {
                    state: GetState::FindingData,
                    request: RequestView::LinksFrom {
                        base: profiles[0].target,
                        link_type: LinkType::ProfileToPrivateData,
                    },
                }
            } else {
                StepView::Done(None)
            }
        },
        (GetState::FindingData, ReplyView::Links(edges)) => {
            if edges.len() > 0 && is_action_address(edges[0].target) {
                StepView::Ask {
                    state: GetState::Reading,
                    request: RequestView::Read { address: edges[0].target },
                }
            } else {
                StepView::Done(None)
            }
        },
        (GetState::Reading, ReplyView::Found(Some(record))) => StepView::Done(
            record.content.private_data(),
        ),
        (GetState::Reading, ReplyView::Found(None)) => StepView::Done(None),
        (state, _) => StepView::Unanswered(state),
    }
}

/// Starts the reading of the private data of `caller`.
pub fn get_begin(caller: Address) -> (start: (GetState, Request))
    ensures
        (start.0, start.1@) == get_start(caller@),
{
    (
        GetState::FindingProfile,
        Request::LinksFrom { base: caller, link_type: LinkType::AgentToProfile },
    )
}

/// Takes the reply to the request in hand and says how reading goes on.
pub fn get_step(state: GetState, reply: Reply) -> (step: GetStep)
    ensures
        step@ == get_next(state, reply@),
        step matches Step::Ask { state: next, .. } ==> next.rank() < state.rank(),
{
    match (state, reply) {
        (GetState::FindingProfile, Reply::Links(profiles)) => {
            if profiles.len() > 0 {
                Step::Ask {
                    state: GetState::FindingData,
                    request: Request::LinksFrom {
                        base: profiles[0].target.clone(),
                        link_type: LinkType::ProfileToPrivateData,
                    },
                }
            } else {
                Step::Done(None)
            }
        },
        (GetState::FindingData, Reply::Links(edges)) => {
            if edges.len() > 0 {
                match edges[0].target.to_action() {
                    Some(address) => Step::Ask {
                        state: GetState::Reading,
                        request: Request::Read { address },
                    },
                    None => Step::Done(None),
                }
            } else {
                Step::Done(None)
            }
        },
        (GetState::Reading, Reply::Found(Some(record))) => Step::Done(
            record.into_private_data(),
        ),
        (GetState::Reading, Reply::Found(None)) => Step::Done(None),
        (state, _) => Step::Unanswered(state),
    }
}

} // verus!
