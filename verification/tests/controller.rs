use zome_person::address::Address;
use zome_person::controller::{
    get_begin, get_step, store_begin, store_step, update_begin, update_step, GetState, Reply,
    Request, Step, StoreState, UpdateState,
};
use zome_person::person::{
    PersonError, PrivatePersonData, PrivatePersonDataInput, UpdatePrivatePersonDataInput,
};
use zome_person::substrate::{Content, Link, LinkType, Record, Visibility};

fn hash(prefix: [u8; 3], fill: u8) -> Address {
    let mut raw = prefix.to_vec();
    raw.extend(vec![fill; 36]);
    Address::from_raw(raw)
}

fn agent(fill: u8) -> Address {
    hash([0x84, 0x21, 0x24], fill)
}

fn action(fill: u8) -> Address {
    hash([0x84, 0x29, 0x24], fill)
}

fn input() -> PrivatePersonDataInput {
    PrivatePersonDataInput {
        legal_name: "Jane Doe".to_string(),
        email: "jane@example.com".to_string(),
        phone: None,
        address: None,
        emergency_contact: Some(String::new()),
        time_zone: None,
        location: None,
    }
}

fn data() -> PrivatePersonData {
    PrivatePersonData {
        legal_name: "Jane Doe".to_string(),
        email: "jane@example.com".to_string(),
        phone: None,
        address: None,
        emergency_contact: Some(String::new()),
        time_zone: None,
        location: None,
    }
}

fn record(fill: u8) -> Record {
    Record { address: action(fill), content: Content::PrivateData(data()) }
}

fn profile_link(owner: u8, profile: u8) -> Link {
    Link { base: agent(owner), target: action(profile), link_type: LinkType::AgentToProfile }
}

fn data_link(profile: u8, target: Address) -> Link {
    Link { base: action(profile), target, link_type: LinkType::ProfileToPrivateData }
}

#[test]
fn input_becomes_data_field_for_field() {
    assert_eq!(input().into_data(), data());
    let full = PrivatePersonDataInput {
        legal_name: "A".to_string(),
        email: "B".to_string(),
        phone: Some("C".to_string()),
        address: Some("D".to_string()),
        emergency_contact: Some("E".to_string()),
        time_zone: Some("F".to_string()),
        location: Some("G".to_string()),
    };
    let data = full.into_data();
    assert_eq!(data.legal_name, "A");
    assert_eq!(data.email, "B");
    assert_eq!(data.phone, Some("C".to_string()));
    assert_eq!(data.address, Some("D".to_string()));
    assert_eq!(data.emergency_contact, Some("E".to_string()));
    assert_eq!(data.time_zone, Some("F".to_string()));
    assert_eq!(data.location, Some("G".to_string()));
}

#[test]
fn storing_starts_with_a_private_write() {
    let (state, request) = store_begin(agent(1), input());
    assert_eq!(state, StoreState::Writing { caller: agent(1) });
    assert_eq!(
        request,
        Request::Write { content: Content::PrivateData(data()), visibility: Visibility::Private }
    );
}

#[test]
fn storing_links_the_first_profile() {
    let (state, _) = store_begin(agent(1), input());
    let step = store_step(state, Reply::Written(action(7)));
    assert_eq!(
        step,
        Step::Ask {
            state: StoreState::ReadingBack { caller: agent(1), address: action(7) },
            request: Request::Read { address: action(7) },
        }
    );
    let state = StoreState::ReadingBack { caller: agent(1), address: action(7) };
    let step = store_step(state, Reply::Found(Some(record(7))));
    assert_eq!(
        step,
        Step::Ask {
            state: StoreState::FindingProfile { address: action(7), record: record(7) },
            request: Request::LinksFrom { base: agent(1), link_type: LinkType::AgentToProfile },
        }
    );
    let state = StoreState::FindingProfile { address: action(7), record: record(7) };
    let step = store_step(state, Reply::Links(vec![profile_link(1, 3), profile_link(1, 4)]));
    assert_eq!(
        step,
        Step::Ask {
            state: StoreState::Linking { record: record(7) },
            request: Request::Link {
                base: action(3),
                target: action(7),
                link_type: LinkType::ProfileToPrivateData,
            },
        }
    );
    let step = store_step(StoreState::Linking { record: record(7) }, Reply::Linked);
    assert_eq!(step, Step::Done(Ok(record(7))));
}

#[test]
fn storing_without_a_profile_is_done_unlinked() {
    let state = StoreState::FindingProfile { address: action(7), record: record(7) };
    let step = store_step(state, Reply::Links(Vec::new()));
    assert_eq!(step, Step::Done(Ok(record(7))));
}

#[test]
fn storing_fails_when_the_record_is_not_read_back() {
    let state = StoreState::ReadingBack { caller: agent(1), address: action(7) };
    let step = store_step(state, Reply::Found(None));
    assert_eq!(
        step,
        Step::Done(Err(PersonError::EntryOperationFailed(
            "post-write verification failed".to_string()
        )))
    );
}

#[test]
fn storing_hands_back_its_state_for_a_reply_it_did_not_ask_for() {
    let step = store_step(StoreState::Writing { caller: agent(1) }, Reply::Linked);
    assert_eq!(step, Step::Unanswered(StoreState::Writing { caller: agent(1) }));
    let step = store_step(StoreState::Writing { caller: agent(1) }, Reply::Found(None));
    assert_eq!(step, Step::Unanswered(StoreState::Writing { caller: agent(1) }));
    let state = StoreState::ReadingBack { caller: agent(1), address: action(7) };
    let step = store_step(state, Reply::Written(action(8)));
    assert_eq!(
        step,
        Step::Unanswered(StoreState::ReadingBack { caller: agent(1), address: action(7) })
    );
    let state = StoreState::FindingProfile { address: action(7), record: record(7) };
    let step = store_step(state, Reply::Resolved);
    assert_eq!(
        step,
        Step::Unanswered(StoreState::FindingProfile { address: action(7), record: record(7) })
    );
    let step = store_step(StoreState::Linking { record: record(7) }, Reply::Links(Vec::new()));
    assert_eq!(step, Step::Unanswered(StoreState::Linking { record: record(7) }));
}

fn update_input() -> UpdatePrivatePersonDataInput {
    UpdatePrivatePersonDataInput {
        original_action_hash: action(1),
        previous_action_hash: action(2),
        updated_private_data: input(),
    }
}

#[test]
fn updating_resolves_the_chain_start_then_replaces_the_predecessor() {
    let (state, request) = update_begin(update_input());
    assert_eq!(state, UpdateState::Resolving { previous: action(2), updated: data() });
    assert_eq!(request, Request::Resolve { address: action(1) });
    let step = update_step(state, Reply::Resolved);
    assert_eq!(
        step,
        Step::Ask {
            state: UpdateState::Updating,
            request: Request::Update { previous: action(2), content: Content::PrivateData(data()) },
        }
    );
    let step = update_step(UpdateState::Updating, Reply::Written(action(3)));
    assert_eq!(
        step,
        Step::Ask { state: UpdateState::ReadingBack, request: Request::Read { address: action(3) } }
    );
    let step = update_step(UpdateState::ReadingBack, Reply::Found(Some(record(3))));
    assert_eq!(step, Step::Done(Ok(record(3))));
}

#[test]
fn updating_fails_when_the_record_is_not_read_back() {
    let step = update_step(UpdateState::ReadingBack, Reply::Found(None));
    assert_eq!(
        step,
        Step::Done(Err(PersonError::EntryOperationFailed(
            "post-update verification failed".to_string()
        )))
    );
}

#[test]
fn updating_hands_back_its_state_for_a_reply_it_did_not_ask_for() {
    let (state, _) = update_begin(update_input());
    let step = update_step(state, Reply::Written(action(3)));
    assert_eq!(
        step,
        Step::Unanswered(UpdateState::Resolving { previous: action(2), updated: data() })
    );
    assert_eq!(
        update_step(UpdateState::Updating, Reply::Resolved),
        Step::Unanswered(UpdateState::Updating)
    );
    assert_eq!(
        update_step(UpdateState::ReadingBack, Reply::Linked),
        Step::Unanswered(UpdateState::ReadingBack)
    );
}

#[test]
fn reading_starts_at_the_profile_of_the_caller() {
    let (state, request) = get_begin(agent(1));
    assert_eq!(state, GetState::FindingProfile);
    assert_eq!(
        request,
        Request::LinksFrom { base: agent(1), link_type: LinkType::AgentToProfile }
    );
}

#[test]
fn reading_follows_the_first_edges() {
    let step = get_step(
        GetState::FindingProfile,
        Reply::Links(vec![profile_link(1, 3), profile_link(1, 4)]),
    );
    assert_eq!(
        step,
        Step::Ask {
            state: GetState::FindingData,
            request: Request::LinksFrom {
                base: action(3),
                link_type: LinkType::ProfileToPrivateData
            },
        }
    );
    let step = get_step(
        GetState::FindingData,
        Reply::Links(vec![data_link(3, action(7)), data_link(3, action(8))]),
    );
    assert_eq!(
        step,
        Step::Ask { state: GetState::Reading, request: Request::Read { address: action(7) } }
    );
    let step = get_step(GetState::Reading, Reply::Found(Some(record(7))));
    assert_eq!(step, Step::Done(Some(data())));
}

#[test]
fn reading_gives_nothing_without_a_profile() {
    assert_eq!(get_step(GetState::FindingProfile, Reply::Links(Vec::new())), Step::Done(None));
}

#[test]
fn reading_gives_nothing_without_an_edge_to_data() {
    assert_eq!(get_step(GetState::FindingData, Reply::Links(Vec::new())), Step::Done(None));
}

#[test]
fn reading_gives_nothing_where_the_edge_leads_to_no_action() {
    let step = get_step(GetState::FindingData, Reply::Links(vec![data_link(3, agent(7))]));
    assert_eq!(step, Step::Done(None));
    // Only the first edge counts, whatever follows it.
    let step = get_step(
        GetState::FindingData,
        Reply::Links(vec![data_link(3, agent(7)), data_link(3, action(8))]),
    );
    assert_eq!(step, Step::Done(None));
}

#[test]
fn reading_gives_nothing_where_no_record_is_read() {
    assert_eq!(get_step(GetState::Reading, Reply::Found(None)), Step::Done(None));
}

#[test]
fn reading_gives_nothing_where_the_record_holds_something_else() {
    let other = Record { address: action(7), content: Content::Other(vec![1, 2, 3]) };
    assert_eq!(get_step(GetState::Reading, Reply::Found(Some(other))), Step::Done(None));
}

#[test]
fn reading_hands_back_its_state_for_a_reply_it_did_not_ask_for() {
    assert_eq!(
        get_step(GetState::FindingProfile, Reply::Found(None)),
        Step::Unanswered(GetState::FindingProfile)
    );
    assert_eq!(
        get_step(GetState::FindingData, Reply::Linked),
        Step::Unanswered(GetState::FindingData)
    );
    assert_eq!(
        get_step(GetState::Reading, Reply::Links(Vec::new())),
        Step::Unanswered(GetState::Reading)
    );
}
