//! Why a run of the tool ends without doing what was asked.
//!
//! Nothing is retried and nothing is recovered from: whatever goes wrong is
//! fatal. It ends the run, and its message is the last thing the user is told.

use vstd::prelude::*;

verus! {

/// A field that the provider may leave out and that the tool cannot do without.
#[derive(Clone, Copy, Debug, PartialEq, Eq, Structural)]
pub enum MissingField {
    /// The instance has no id, or an empty one.
    InstanceId,
    /// The instance has no type.
    InstanceType,
    /// The instance has no state, or a state without a name.
    StateName,
    /// The acknowledgment of a start or stop holds no state change.
    StateChange,
    /// The state change has no previous state, or one without a name.
    PreviousStateName,
    /// The state change has no current state, or one without a name.
    CurrentStateName,
}

/// What the provider can be asked to do.
#[derive(Clone, Copy, Debug, PartialEq, Eq, Structural)]
pub enum Operation {
    /// Describe every instance.
    List,
    /// Start instances.
    Start,
    /// Stop instances.
    Stop,
}

/// What ends a run.
#[derive(Debug, PartialEq, Eq)]
pub enum Fatal {
    /// The provider could not be asked, or refused. The text is what the
    /// provider's client said of it.
    ProviderCall(Operation, String),
    /// The provider's answer lacks a field that is taken to be always there.
    ContractViolation(MissingField),
    /// No instance goes by the name that was asked for.
    NameNotFound(String),
    /// A cell of the listing has a line of which a terminal control sequence
    /// takes up more than the line is wide: the table cannot be laid out.
    Unprintable,
}

/// What ends a run, with its texts as character sequences.
pub enum FatalView {
    ProviderCall(Operation, Seq<char>),
    ContractViolation(MissingField),
    NameNotFound(Seq<char>),
    Unprintable,
}

impl View for Fatal {
    type V = FatalView;

    open spec fn view(&self) -> FatalView {
        match self {
            Fatal::ProviderCall(operation, detail) => FatalView::ProviderCall(*operation, detail@),
            Fatal::ContractViolation(field) => FatalView::ContractViolation(*field),
            Fatal::NameNotFound(name) => FatalView::NameNotFound(name@),
            Fatal::Unprintable => FatalView::Unprintable,
        }
    }
}

/// How a missing field is called in a message.
pub open spec fn field_name(field: MissingField) -> Seq<char> {
    match field {
        MissingField::InstanceId => "the instance id"@,
        MissingField::InstanceType => "the instance type"@,
        MissingField::StateName => "the state name"@,
        MissingField::StateChange => "the state change"@,
        MissingField::PreviousStateName => "the previous state name"@,
        MissingField::CurrentStateName => "the current state name"@,
    }
}

/// How a message begins that tells of an operation gone wrong.
pub open spec fn call_failed(operation: Operation) -> Seq<char> {
    match operation {
        Operation::List => "Failed to list instances: "@,
        Operation::Start => "Failed to start instances: "@,
        Operation::Stop => "Failed to stop instances: "@,
    }
}

/// The message that tells the user what ended the run.
pub open spec fn message_of(fatal: FatalView) -> Seq<char> {
    match fatal {
        FatalView::ProviderCall(operation, detail) => call_failed(operation) + detail,
        FatalView::ContractViolation(field) => "The provider's answer lacks "@ + field_name(field),
        FatalView::NameNotFound(name) => "Cannot find the instance "@ + name,
        FatalView::Unprintable => "Cannot print the table: a cell cannot be measured"@,
    }
}

impl MissingField {
    /// How the field is called in a message.
    pub fn name(&self) -> (name: &'static str)
        ensures
            name@ == field_name(*self),
    {
        match self {
            MissingField::InstanceId => "the instance id",
            MissingField::InstanceType => "the instance type",
            MissingField::StateName => "the state name",
            MissingField::StateChange => "the state change",
            MissingField::PreviousStateName => "the previous state name",
            MissingField::CurrentStateName => "the current state name",
        }
    }
}

impl Operation {
    /// How a message begins that tells of the operation gone wrong.
    pub fn failed(&self) -> (opening: &'static str)
        ensures
            opening@ == call_failed(*self),
    {
        match self {
            Operation::List => "Failed to list instances: ",
            Operation::Start => "Failed to start instances: ",
            Operation::Stop => "Failed to stop instances: ",
        }
    }
}

impl Fatal {
    /// The message that tells the user what ended the run.
    pub fn message(&self) -> (message: String)
        ensures
            message@ == message_of(self@),
    {
        match self {
            Fatal::ProviderCall(operation, detail) => {
                let mut message = operation.failed().to_owned();
                message.append(detail.as_str());
                message
            },
            Fatal::ContractViolation(field) => {
                let mut message = "The provider's answer lacks ".to_owned();
                message.append(field.name());
                message
            },
            Fatal::NameNotFound(name) => {
                let mut message = "Cannot find the instance ".to_owned();
                message.append(name.as_str());
                message
            },
            Fatal::Unprintable => {
                "Cannot print the table: a cell cannot be measured".to_owned()
            },
        }
    }
}

} // verus!
