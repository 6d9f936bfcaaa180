//! The private payload and the inputs of the operations.

use crate::address::Address;
use crate::substrate::SubstrateFault;
use vstd::prelude::*;

verus! {

/// What a private record says about a person: two required texts and five
/// optional ones. An optional field that is absent and one that is present
/// and empty are different values.
pub struct PersonDataView {
    pub legal_name: Seq<char>,
    pub email: Seq<char>,
    pub phone: Option<Seq<char>>,
    pub address: Option<Seq<char>>,
    pub emergency_contact: Option<Seq<char>>,
    pub time_zone: Option<Seq<char>>,
    pub location: Option<Seq<char>>,
}

/// The sensitive profile fields of a person, readable by their author only.
#[derive(Debug, PartialEq, Eq)]
pub struct PrivatePersonData {
    pub legal_name: String,
    pub email: String,
    pub phone: Option<String>,
    pub address: Option<String>,
    pub emergency_contact: Option<String>,
    pub time_zone: Option<String>,
    pub location: Option<String>,
}

impl View for PrivatePersonData {
    type V = PersonDataView;

    open spec fn view(&self) -> PersonDataView {
        PersonDataView {
            legal_name: self.legal_name@,
            email: self.email@,
            phone: self.phone.deep_view(),
            address: self.address.deep_view(),
            emergency_contact: self.emergency_contact.deep_view(),
            time_zone: self.time_zone.deep_view(),
            location: self.location.deep_view(),
        }
    }
}

impl DeepView for PrivatePersonData {
    type V = PersonDataView;

    open spec fn deep_view(&self) -> PersonDataView {
        self@
    }
}

/// A copy of an optional text.
fn copy_text(text: &Option<String>) -> (copy: Option<String>)
    ensures
        copy.deep_view() == text.deep_view(),
{
    match text {
        Some(t) => Some(t.clone()),
        None => None,
    }
}

impl Clone for PrivatePersonData {
    fn clone(&self) -> (copy: PrivatePersonData)
        ensures
            copy@ == self@,
    {
        PrivatePersonData {
            legal_name: self.legal_name.clone(),
            email: self.email.clone(),
            phone: copy_text(&self.phone),
            address: copy_text(&self.address),
            emergency_contact: copy_text(&self.emergency_contact),
            time_zone: copy_text(&self.time_zone),
            location: copy_text(&self.location),
        }
    }
}

/// The fields a caller hands in to store or replace private data.
#[derive(Debug, PartialEq, Eq)]
pub struct PrivatePersonDataInput {
    pub legal_name: String,
    pub email: String,
    pub phone: Option<String>,
    pub address: Option<String>,
    pub emergency_contact: Option<String>,
    pub time_zone: Option<String>,
    pub location: Option<String>,
}

impl View for PrivatePersonDataInput {
    type V = PersonDataView;

    open spec fn view(&self) -> PersonDataView {
        PersonDataView {
            legal_name: self.legal_name@,
            email: self.email@,
            phone: self.phone.deep_view(),
            address: self.address.deep_view(),
            emergency_contact: self.emergency_contact.deep_view(),
            time_zone: self.time_zone.deep_view(),
            location: self.location.deep_view(),
        }
    }
}

impl PrivatePersonDataInput {
    /// The payload that these fields make up, field for field.
    pub fn into_data(self) -> (data: PrivatePersonData)
        ensures
            data@ == self@,
    {
        PrivatePersonData {
            legal_name: self.legal_name,
            email: self.email,
            phone: self.phone,
            address: self.address,
            emergency_contact: self.emergency_contact,
            time_zone: self.time_zone,
            location: self.location,
        }
    }
}

/// What an update names: the record the chain started with, the record it
/// directly replaces, and the new fields.
pub struct UpdateInputView {
    pub original: Seq<u8>,
    pub previous: Seq<u8>,
    pub updated: PersonDataView,
}

/// The input of an update of private data.
#[derive(Debug, PartialEq, Eq)]
pub struct UpdatePrivatePersonDataInput {
    pub original_action_hash: Address,
    pub previous_action_hash: Address,
    pub updated_private_data: PrivatePersonDataInput,
}

impl View for UpdatePrivatePersonDataInput {
    type V = UpdateInputView;

    open spec fn view(&self) -> UpdateInputView {
        UpdateInputView {
            original: self.original_action_hash@,
            previous: self.previous_action_hash@,
            updated: self.updated_private_data@,
        }
    }
}

/// Why an operation on private data failed, with texts as sequences.
pub enum PersonErrorView {
    EntryOperationFailed(Seq<char>),
    Substrate(SubstrateFault),
}

/// Why an operation on private data failed.
#[derive(Debug, PartialEq, Eq)]
pub enum PersonError {
    /// A write went through, but reading the new address right after found
    /// nothing. The text says which write.
    EntryOperationFailed(String),
    /// The store refused a request; its fault is passed on as it came.
    Substrate(SubstrateFault),
}

impl View for PersonError {
    type V = PersonErrorView;

    open spec fn view(&self) -> PersonErrorView {
        match self {
            PersonError::EntryOperationFailed(cause) => PersonErrorView::EntryOperationFailed(
                cause@,
            ),
            PersonError::Substrate(fault) => PersonErrorView::Substrate(*fault),
        }
    }
}

} // verus!
