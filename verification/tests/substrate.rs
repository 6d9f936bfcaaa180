use zome_person::address::Address;
use zome_person::person::PrivatePersonData;
use zome_person::substrate::{
    Content, Link, LinkType, Record, Substrate, SubstrateFault, Visibility,
};

fn identity(fill: u8) -> Address {
    let mut raw = vec![0x84, 0x21, 0x24];
    raw.extend(vec![fill; 36]);
    Address::from_raw(raw)
}

fn position(n: u8) -> Address {
    let mut raw = vec![0x84, 0x29, 0x24, n];
    raw.extend(vec![0u8; 35]);
    Address::from_raw(raw)
}

fn jane() -> PrivatePersonData {
    PrivatePersonData {
        legal_name: "Jane Doe".to_string(),
        email: "jane@example.com".to_string(),
        phone: None,
        address: Some(String::new()),
        emergency_contact: Some("John Doe".to_string()),
        time_zone: None,
        location: Some("Montreal".to_string()),
    }
}

fn joan() -> PrivatePersonData {
    PrivatePersonData {
        legal_name: "Joan Doe".to_string(),
        email: "joan@example.com".to_string(),
        phone: Some("555-0100".to_string()),
        address: None,
        emergency_contact: None,
        time_zone: Some("UTC".to_string()),
        location: None,
    }
}

#[test]
fn new_store_is_empty() {
    let store = Substrate::new();
    assert_eq!(store.record_count(), 0);
    assert_eq!(store.link_count(), 0);
    assert_eq!(store.read(&identity(1), &position(0)), None);
    assert_eq!(store.links_from(&identity(1), LinkType::AgentToProfile), Vec::<Link>::new());
}

#[test]
fn addresses_are_made_from_positions() {
    let mut store = Substrate::new();
    let first = store.write(&identity(1), Content::Other(vec![1]), Visibility::Public);
    let second = store.write(&identity(1), Content::Other(vec![1]), Visibility::Public);
    let mut expected = vec![0x84u8, 0x29, 0x24, 0, 0, 0, 0, 0, 0, 0, 0];
    expected.extend(vec![0u8; 28]);
    assert_eq!(first.raw, expected);
    expected[3] = 1;
    assert_eq!(second.raw, expected);
    assert_eq!(first, position(0));
    assert_eq!(second, position(1));
    assert_eq!(store.record_count(), 2);
}

#[test]
fn position_fills_eight_bytes_lowest_first() {
    let mut store = Substrate::new();
    let mut last = position(0);
    for _ in 0..258 {
        last = store.write(&identity(1), Content::Other(Vec::new()), Visibility::Public);
    }
    let mut expected = vec![0x84u8, 0x29, 0x24, 1, 1, 0, 0, 0, 0, 0, 0];
    expected.extend(vec![0u8; 28]);
    assert_eq!(last.raw, expected);
    assert_eq!(
        store.read(&identity(2), &last),
        Some(Record { address: Address::from_raw(expected), content: Content::Other(Vec::new()) })
    );
}

#[test]
fn written_addresses_are_action_addresses() {
    let mut store = Substrate::new();
    let address = store.write(&identity(1), Content::PrivateData(jane()), Visibility::Private);
    assert_eq!(address.to_action(), Some(position(0)));
}

#[test]
fn round_trip_keeps_every_field() {
    let mut store = Substrate::new();
    let author = identity(1);
    let address = store.write(&author, Content::PrivateData(jane()), Visibility::Private);
    let found = store.read(&author, &address);
    assert_eq!(
        found,
        Some(Record { address: position(0), content: Content::PrivateData(jane()) })
    );
    let data = found.unwrap().into_private_data().unwrap();
    assert_eq!(data.legal_name, "Jane Doe");
    assert_eq!(data.email, "jane@example.com");
    assert_eq!(data.phone, None);
    assert_eq!(data.address, Some(String::new()));
    assert_eq!(data.emergency_contact, Some("John Doe".to_string()));
    assert_eq!(data.time_zone, None);
    assert_eq!(data.location, Some("Montreal".to_string()));
}

#[test]
fn absent_and_empty_fields_stay_apart() {
    let mut store = Substrate::new();
    let author = identity(1);
    let mut absent = jane();
    absent.phone = None;
    let mut empty = jane();
    empty.phone = Some(String::new());
    let a = store.write(&author, Content::PrivateData(absent), Visibility::Private);
    let b = store.write(&author, Content::PrivateData(empty), Visibility::Private);
    let read_absent = store.read(&author, &a).unwrap().into_private_data().unwrap();
    let read_empty = store.read(&author, &b).unwrap().into_private_data().unwrap();
    assert_eq!(read_absent.phone, None);
    assert_eq!(read_empty.phone, Some(String::new()));
    assert_ne!(read_absent, read_empty);
}

#[test]
fn private_record_is_hidden_from_others() {
    let mut store = Substrate::new();
    let author = identity(1);
    let other = identity(2);
    let address = store.write(&author, Content::PrivateData(jane()), Visibility::Private);
    assert_eq!(store.read(&other, &address), None);
    // Later writes, by anyone, do not open it.
    store.write(&other, Content::PrivateData(joan()), Visibility::Private);
    store.link(identity(2), position(0), LinkType::ProfileToPrivateData);
    assert_eq!(store.read(&other, &address), None);
    assert!(store.read(&author, &address).is_some());
}

#[test]
fn public_record_is_read_by_everyone() {
    let mut store = Substrate::new();
    let address = store.write(&identity(1), Content::Other(vec![1, 2, 3]), Visibility::Public);
    let expected = Record { address: position(0), content: Content::Other(vec![1, 2, 3]) };
    assert_eq!(store.read(&identity(1), &address), Some(expected));
    let expected = Record { address: position(0), content: Content::Other(vec![1, 2, 3]) };
    assert_eq!(store.read(&identity(2), &address), Some(expected));
}

#[test]
fn reading_where_nothing_stands_gives_nothing() {
    let mut store = Substrate::new();
    let author = identity(1);
    store.write(&author, Content::Other(vec![1]), Visibility::Public);
    // One past the end of the log.
    assert_eq!(store.read(&author, &position(1)), None);
    // An entry hash, an address of the wrong length, an address with a byte
    // behind the position: none of them names a record.
    assert_eq!(store.read(&author, &identity(0)), None);
    assert_eq!(store.read(&author, &Address::from_raw(vec![0x84, 0x29, 0x24])), None);
    let mut stray = position(0).raw;
    stray[38] = 1;
    assert_eq!(store.read(&author, &Address::from_raw(stray)), None);
    let mut stray = position(0).raw;
    stray[11] = 1;
    assert_eq!(store.read(&author, &Address::from_raw(stray)), None);
    assert!(store.read(&author, &position(0)).is_some());
}

#[test]
fn resolve_gives_the_record_or_a_fault() {
    let mut store = Substrate::new();
    let author = identity(1);
    let address = store.write(&author, Content::PrivateData(jane()), Visibility::Private);
    assert_eq!(
        store.resolve(&author, &address),
        Ok(Record { address: position(0), content: Content::PrivateData(jane()) })
    );
    assert_eq!(store.resolve(&identity(2), &address), Err(SubstrateFault::UnknownAddress));
    assert_eq!(store.resolve(&author, &position(5)), Err(SubstrateFault::UnknownAddress));
}

#[test]
fn update_chain_keeps_the_first_record() {
    let mut store = Substrate::new();
    let author = identity(1);
    let first = store.write(&author, Content::PrivateData(jane()), Visibility::Private);
    let updated = store.update(&author, &first, Content::PrivateData(joan()));
    assert_eq!(updated, Ok(position(1)));
    assert_eq!(
        store.read(&author, &position(1)),
        Some(Record { address: position(1), content: Content::PrivateData(joan()) })
    );
    assert_eq!(
        store.read(&author, &first),
        Some(Record { address: position(0), content: Content::PrivateData(jane()) })
    );
    assert_eq!(store.record_count(), 2);
}

#[test]
fn update_names_its_predecessor() {
    let mut store = Substrate::new();
    let author = identity(1);
    let first = store.write(&author, Content::PrivateData(jane()), Visibility::Private);
    let second = store.update(&author, &first, Content::PrivateData(joan())).unwrap();
    let third = store.update(&author, &second, Content::PrivateData(jane())).unwrap();
    assert_eq!(store.predecessor(&author, &first), None);
    assert_eq!(store.predecessor(&author, &second), Some(position(0)));
    assert_eq!(store.predecessor(&author, &third), Some(position(1)));
    // Not for those who cannot read the record, nor where nothing stands.
    assert_eq!(store.predecessor(&identity(2), &second), None);
    assert_eq!(store.predecessor(&author, &position(3)), None);
    assert_eq!(store.predecessor(&author, &identity(1)), None);
}

#[test]
fn update_keeps_the_visibility_of_what_it_replaces() {
    let mut store = Substrate::new();
    let author = identity(1);
    let hidden = store.write(&author, Content::PrivateData(jane()), Visibility::Private);
    let open = store.write(&author, Content::Other(vec![1]), Visibility::Public);
    let hidden_next = store.update(&author, &hidden, Content::PrivateData(joan())).unwrap();
    let open_next = store.update(&author, &open, Content::Other(vec![2])).unwrap();
    assert_eq!(store.read(&identity(2), &hidden_next), None);
    assert_eq!(
        store.read(&identity(2), &open_next),
        Some(Record { address: position(3), content: Content::Other(vec![2]) })
    );
}

#[test]
fn update_of_what_is_not_there_is_refused() {
    let mut store = Substrate::new();
    let author = identity(1);
    store.write(&author, Content::PrivateData(jane()), Visibility::Private);
    let refused = store.update(&author, &position(1), Content::PrivateData(joan()));
    assert_eq!(refused, Err(SubstrateFault::UnknownAddress));
    let refused = store.update(&author, &identity(9), Content::PrivateData(joan()));
    assert_eq!(refused, Err(SubstrateFault::UnknownAddress));
    assert_eq!(store.record_count(), 1);
}

#[test]
fn update_by_somebody_else_is_refused() {
    let mut store = Substrate::new();
    let author = identity(1);
    let other = identity(2);
    let hidden = store.write(&author, Content::PrivateData(jane()), Visibility::Private);
    let open = store.write(&author, Content::Other(vec![1]), Visibility::Public);
    // What the other cannot read is not there for the other.
    assert_eq!(
        store.update(&other, &hidden, Content::PrivateData(joan())),
        Err(SubstrateFault::UnknownAddress)
    );
    assert_eq!(
        store.update(&other, &open, Content::Other(vec![2])),
        Err(SubstrateFault::NotAuthor)
    );
    assert_eq!(store.record_count(), 2);
    assert_eq!(
        store.read(&author, &hidden),
        Some(Record { address: position(0), content: Content::PrivateData(jane()) })
    );
}

#[test]
fn links_come_back_oldest_first_and_by_kind() {
    let mut store = Substrate::new();
    let base = identity(1);
    store.link(identity(1), position(5), LinkType::AgentToProfile);
    store.link(identity(2), position(6), LinkType::AgentToProfile);
    store.link(identity(1), position(7), LinkType::ProfileToPrivateData);
    store.link(identity(1), position(8), LinkType::AgentToProfile);
    let found = store.links_from(&base, LinkType::AgentToProfile);
    assert_eq!(
        found,
        vec![
            Link { base: identity(1), target: position(5), link_type: LinkType::AgentToProfile },
            Link { base: identity(1), target: position(8), link_type: LinkType::AgentToProfile },
        ]
    );
    let found = store.links_from(&base, LinkType::ProfileToPrivateData);
    assert_eq!(
        found,
        vec![Link {
            base: identity(1),
            target: position(7),
            link_type: LinkType::ProfileToPrivateData
        }]
    );
    assert_eq!(store.link_count(), 4);
}

#[test]
fn no_links_is_an_empty_list() {
    let mut store = Substrate::new();
    store.link(identity(1), position(5), LinkType::AgentToProfile);
    assert_eq!(store.links_from(&identity(3), LinkType::AgentToProfile), Vec::<Link>::new());
    assert_eq!(
        store.links_from(&identity(1), LinkType::ProfileToPrivateData),
        Vec::<Link>::new()
    );
}

#[test]
fn the_same_edge_added_twice_stands_twice() {
    let mut store = Substrate::new();
    store.link(identity(1), position(5), LinkType::AgentToProfile);
    store.link(identity(1), position(5), LinkType::AgentToProfile);
    assert_eq!(store.links_from(&identity(1), LinkType::AgentToProfile).len(), 2);
    assert_eq!(store.link_count(), 2);
}

#[test]
fn content_reads_as_private_data_only_where_it_is() {
    let record = Record { address: position(0), content: Content::PrivateData(jane()) };
    assert_eq!(record.into_private_data(), Some(jane()));
    let record = Record { address: position(0), content: Content::Other(vec![1, 2]) };
    assert_eq!(record.into_private_data(), None);
}

#[test]
fn clones_are_equal_to_what_was_cloned() {
    let content = Content::PrivateData(jane());
    assert_eq!(content.clone(), content);
    let content = Content::Other(vec![4, 5]);
    assert_eq!(content.clone(), content);
    let link = Link { base: identity(1), target: position(2), link_type: LinkType::AgentToProfile };
    assert_eq!(link.clone(), link);
    assert_eq!(jane().clone(), jane());
}
