//! Starting and stopping one instance: what is sent, and what the provider's
//! acknowledgment says.
//!
//! A request names exactly one instance. The acknowledgment tells the state the
//! instance was in and the state it has now entered; whether it ever reaches
//! the state that was asked for is not known here.

use vstd::prelude::*;
use crate::fatal::{MissingField, Operation};
use crate::instance::Instance;
use crate::provider::{
    name_of_state, opt_seq_view, state_name, StateChangeRecord, StateChangeRecordView,
};

verus! {

/// What can be asked of an instance.
#[derive(Clone, Copy, Debug, PartialEq, Eq, Structural)]
pub enum ControlAction {
    /// Power the instance on.
    Start,
    /// Power the instance off.
    Stop,
}

/// The operation that asks `action` of the provider.
pub open spec fn operation_of(action: ControlAction) -> Operation {
    match action {
        ControlAction::Start => Operation::Start,
        ControlAction::Stop => Operation::Stop,
    }
}

impl ControlAction {
    /// The operation that asks this of the provider.
    pub fn operation(&self) -> (operation: Operation)
        ensures
            operation == operation_of(*self),
    {
        match self {
            ControlAction::Start => Operation::Start,
            ControlAction::Stop => Operation::Stop,
        }
    }
}

/// A request to the provider to start or stop instances.
#[derive(Debug, PartialEq, Eq)]
pub struct ControlRequest {
    /// What is asked.
    pub action: ControlAction,
    /// The ids of the instances it is asked of.
    pub instance_ids: Vec<String>,
}

/// A request with its ids as character sequences.
pub struct ControlRequestView {
    pub action: ControlAction,
    pub instance_ids: Seq<Seq<char>>,
}

impl View for ControlRequest {
    type V = ControlRequestView;

    open spec fn view(&self) -> ControlRequestView {
        ControlRequestView {
            action: self.action,
            instance_ids: self.instance_ids@.map_values(|id: String| id@),
        }
    }
}

/// The request that asks `action` of the one instance with this id.
pub open spec fn request_for(action: ControlAction, id: Seq<char>) -> ControlRequestView {
    ControlRequestView { action, instance_ids: seq![id] }
}

/// The states an instance left and entered when a request was acknowledged.
#[derive(Debug, PartialEq, Eq)]
pub struct StateChange {
    /// The name of the state the instance was in.
    pub previous_state: String,
    /// The name of the state the instance has entered.
    pub current_state: String,
}

/// A state change with its names as character sequences.
pub struct StateChangeView {
    pub previous_state: Seq<char>,
    pub current_state: Seq<char>,
}

impl View for StateChange {
    type V = StateChangeView;

    open spec fn view(&self) -> StateChangeView {
        StateChangeView {
            previous_state: self.previous_state@,
            current_state: self.current_state@,
        }
    }
}

/// The state change that one record of an acknowledgment tells, or the first
/// name found missing: the previous state's, then the current state's.
pub open spec fn transition(record: StateChangeRecordView) -> Result<
    StateChangeView,
    MissingField,
> {
    match (state_name(record.previous_state), state_name(record.current_state)) {
        (None, _) => Err(MissingField::PreviousStateName),
        (Some(_), None) => Err(MissingField::CurrentStateName),
        (Some(previous_state), Some(current_state)) => Ok(
            StateChangeView { previous_state, current_state },
        ),
    }
}

/// What an acknowledgment tells: the state change of its first record. An
/// acknowledgment without a list of records, or with an empty one, lacks it.
pub open spec fn acknowledged(changes: Option<Seq<StateChangeRecordView>>) -> Result<
    StateChangeView,
    MissingField,
> {
    match changes {
        Some(changes) => if changes.len() > 0 {
            transition(changes[0])
        } else {
            Err(MissingField::StateChange)
        },
        None => Err(MissingField::StateChange),
    }
}

fn request_to(action: ControlAction, instance: &Instance) -> (request: ControlRequest)
    ensures
        request@ == request_for(action, instance@.id),
{
    let mut instance_ids: Vec<String> = Vec::new();
    instance_ids.push(instance.id().to_owned());
    let request = ControlRequest { action, instance_ids };
    assert(request@.instance_ids =~= seq![instance@.id]);
    request
}

impl Instance {
    /// The request that starts this instance, and no other.
    pub fn start(&self) -> (request: ControlRequest)
        ensures
            request@ == request_for(ControlAction::Start, self@.id),
    {
        request_to(ControlAction::Start, self)
    }

    /// The request that stops this instance, and no other.
    pub fn stop(&self) -> (request: ControlRequest)
        ensures
            request@ == request_for(ControlAction::Stop, self@.id),
    {
        request_to(ControlAction::Stop, self)
    }
}

impl StateChange {
    /// Reads the state change that one record of an acknowledgment tells.
    pub fn from_record(record: &StateChangeRecord) -> (r: Result<StateChange, MissingField>)
        ensures
            match r {
                Ok(change) => transition(record@) == Ok::<_, MissingField>(change@),
                Err(missing) => transition(record@) == Err::<StateChangeView, _>(missing),
            },
    {
        let previous_state = match name_of_state(&record.previous_state) {
            Some(name) => name.clone(),
            None => { return Err(MissingField::PreviousStateName); },
        };
        let current_state = match name_of_state(&record.current_state) {
            Some(name) => name.clone(),
            None => { return Err(MissingField::CurrentStateName); },
        };
        Ok(StateChange { previous_state, current_state })
    }

    /// Reads the provider's acknowledgment of a start or stop: the state
    /// change of the first record it holds.
    pub fn from_acknowledgment(changes: &Option<Vec<StateChangeRecord>>) -> (r: Result<
        StateChange,
        MissingField,
    >)
        ensures
            match r {
                Ok(change) => acknowledged(opt_seq_view(*changes)) == Ok::<_, MissingField>(
                    change@,
                ),
                Err(missing) => acknowledged(opt_seq_view(*changes)) == Err::<StateChangeView, _>(
                    missing,
                ),
            },
    {
        match changes {
            Some(changes) => {
                if changes.len() > 0 {
                    StateChange::from_record(&changes[0])
                } else {
                    Err(MissingField::StateChange)
                }
            },
            None => Err(MissingField::StateChange),
        }
    }
}

} // verus!
