//! The records a provider answers with, as plain data.
//!
//! A provider declares nearly every field optional. These types keep that:
//! each field holds what came, and nothing is judged here. Their views are the
//! same records with text as sequences of characters.

use vstd::prelude::*;

verus! {

/// The view of an optional value: the view of what it holds.
pub open spec fn opt_view<T: View>(o: Option<T>) -> Option<T::V> {
    match o {
        Some(t) => Some(t@),
        None => None,
    }
}

/// The view of a sequence of values: the views of its elements, in order.
pub open spec fn seq_view<T: View>(s: Seq<T>) -> Seq<T::V> {
    s.map_values(|t: T| t@)
}

/// The view of an optional list: the views of its elements, where there is a list.
pub open spec fn opt_seq_view<T: View>(o: Option<Vec<T>>) -> Option<Seq<T::V>> {
    match o {
        Some(v) => Some(seq_view(v@)),
        None => None,
    }
}

/// A key/value annotation on an instance.
#[derive(Debug, PartialEq, Eq)]
pub struct TagRecord {
    /// What the annotation is about.
    pub key: Option<String>,
    /// What it says.
    pub value: Option<String>,
}

/// A tag with its texts as character sequences.
pub struct TagView {
    pub key: Option<Seq<char>>,
    pub value: Option<Seq<char>>,
}

impl View for TagRecord {
    type V = TagView;

    open spec fn view(&self) -> TagView {
        TagView { key: opt_view(self.key), value: opt_view(self.value) }
    }
}

/// A lifecycle state as the provider gives it. Its view is the state's name.
#[derive(Debug, PartialEq, Eq)]
pub struct StateRecord {
    /// The state's name, such as `running` or `stopped`.
    pub name: Option<String>,
}

impl View for StateRecord {
    type V = Option<Seq<char>>;

    open spec fn view(&self) -> Option<Seq<char>> {
        opt_view(self.name)
    }
}

/// The name of a state that may be absent, and may be present without a name.
pub open spec fn state_name(state: Option<Option<Seq<char>>>) -> Option<Seq<char>> {
    match state {
        Some(Some(name)) => Some(name),
        _ => None,
    }
}

/// Reads the name of a state, where the state is there and has one.
pub fn name_of_state(state: &Option<StateRecord>) -> (name: Option<&String>)
    ensures
        opt_view(name) == state_name(opt_view(*state)),
{
    match state {
        Some(state) => match &state.name {
            Some(name) => Some(name),
            None => None,
        },
        None => None,
    }
}

/// One instance as the provider describes it.
#[derive(Debug, PartialEq, Eq)]
pub struct InstanceRecord {
    /// The annotations on the instance, in no particular order.
    pub tags: Option<Vec<TagRecord>>,
    /// The identifier the provider assigned.
    pub instance_id: Option<String>,
    /// The provider's label for the class of machine.
    pub instance_type: Option<String>,
    /// The lifecycle state the instance is in.
    pub state: Option<StateRecord>,
    /// The address inside the provider's network.
    pub private_ip_address: Option<String>,
    /// The address on the internet, where one is allocated.
    pub public_ip_address: Option<String>,
}

/// A described instance with its texts as character sequences.
pub struct InstanceRecordView {
    pub tags: Option<Seq<TagView>>,
    pub instance_id: Option<Seq<char>>,
    pub instance_type: Option<Seq<char>>,
    pub state: Option<Option<Seq<char>>>,
    pub private_ip_address: Option<Seq<char>>,
    pub public_ip_address: Option<Seq<char>>,
}

impl View for InstanceRecord {
    type V = InstanceRecordView;

    open spec fn view(&self) -> InstanceRecordView {
        InstanceRecordView {
            tags: opt_seq_view(self.tags),
            instance_id: opt_view(self.instance_id),
            instance_type: opt_view(self.instance_type),
            state: opt_view(self.state),
            private_ip_address: opt_view(self.private_ip_address),
            public_ip_address: opt_view(self.public_ip_address),
        }
    }
}

/// A group of instances launched together. Its view is the group's records.
#[derive(Debug, PartialEq, Eq)]
pub struct ReservationRecord {
    /// The instances of the group.
    pub instances: Option<Vec<InstanceRecord>>,
}

impl View for ReservationRecord {
    type V = Option<Seq<InstanceRecordView>>;

    open spec fn view(&self) -> Option<Seq<InstanceRecordView>> {
        opt_seq_view(self.instances)
    }
}

/// The provider's acknowledgment of a start or stop, for one instance.
#[derive(Debug, PartialEq, Eq)]
pub struct StateChangeRecord {
    /// The state the instance has entered.
    pub current_state: Option<StateRecord>,
    /// The state the instance was in.
    pub previous_state: Option<StateRecord>,
}

/// An acknowledgment with its states as optional names.
pub struct StateChangeRecordView {
    pub current_state: Option<Option<Seq<char>>>,
    pub previous_state: Option<Option<Seq<char>>>,
}

impl View for StateChangeRecord {
    type V = StateChangeRecordView;

    open spec fn view(&self) -> StateChangeRecordView {
        StateChangeRecordView {
            current_state: opt_view(self.current_state),
            previous_state: opt_view(self.previous_state),
        }
    }
}

} // verus!
