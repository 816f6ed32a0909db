//! One run of the tool, step by step.
//!
//! A run asks the provider for the listing, whatever the command. What it
//! does next depends on the command and on the answer: print the listing, ask
//! for a start or stop, or give up. After a start or stop it prints the state
//! change that the provider acknowledged, or gives up. The caller talks to
//! the provider and to the terminal; every decision is taken here.

use vstd::prelude::*;
use crate::control::{
    acknowledged, operation_of, request_for, ControlAction, ControlRequest, ControlRequestView,
    StateChange,
};
use crate::directory::{find_instance_by_name, list, listing, lookup, records_of};
use crate::fatal::{Fatal, FatalView, Operation};
use crate::instance::{Instance, InstanceView};
use crate::provider::{
    opt_seq_view, opt_view, seq_view, InstanceRecordView, ReservationRecord, StateChangeRecord,
    StateChangeRecordView,
};
use crate::render::{
    is_printable, is_simple_listing, listing_text, print_instance_state_change, print_instances,
    transition_line,
};

verus! {

/// What the user asked for.
#[derive(Debug, PartialEq, Eq)]
pub enum Command {
    /// List every instance.
    Ls,
    /// Start the instance that goes by this name.
    Start(String),
    /// Stop the instance that goes by this name.
    Stop(String),
}

/// A command with its name as a character sequence.
pub enum CommandView {
    Ls,
    Start(Seq<char>),
    Stop(Seq<char>),
}

impl View for Command {
    type V = CommandView;

    open spec fn view(&self) -> CommandView {
        match self {
            Command::Ls => CommandView::Ls,
            Command::Start(name) => CommandView::Start(name@),
            Command::Stop(name) => CommandView::Stop(name@),
        }
    }
}

/// What the caller does next.
#[derive(Debug, PartialEq, Eq)]
pub enum Next {
    /// Write the text to standard output as it is, and end the run well.
    Print(String),
    /// Send the request to the provider, and come back with the answer.
    Send(ControlRequest),
    /// Tell the user what went wrong, and end the run badly.
    Abort(Fatal),
}

/// A next step with its texts as character sequences.
pub enum NextView {
    Print(Seq<char>),
    Send(ControlRequestView),
    Abort(FatalView),
}

impl View for Next {
    type V = NextView;

    open spec fn view(&self) -> NextView {
        match self {
            Next::Print(text) => NextView::Print(text@),
            Next::Send(request) => NextView::Send(request@),
            Next::Abort(fatal) => NextView::Abort(fatal@),
        }
    }
}

/// What came of asking for the listing: the reservations, or what is known of
/// a call that failed.
pub type ListingAnswer = Result<Option<Vec<ReservationRecord>>, String>;

/// What came of asking for a start or stop: the state changes, or what is
/// known of a call that failed.
pub type ControlAnswer = Result<Option<Vec<StateChangeRecord>>, String>;

/// A listing answer with its texts as character sequences.
pub open spec fn listing_answer_view(answer: ListingAnswer) -> Result<
    Option<Seq<Option<Seq<InstanceRecordView>>>>,
    Seq<char>,
> {
    match answer {
        Ok(reservations) => Ok(opt_seq_view(reservations)),
        Err(detail) => Err(detail@),
    }
}

/// A control answer with its texts as character sequences.
pub open spec fn control_answer_view(answer: ControlAnswer) -> Result<
    Option<Seq<StateChangeRecordView>>,
    Seq<char>,
> {
    match answer {
        Ok(changes) => Ok(opt_seq_view(changes)),
        Err(detail) => Err(detail@),
    }
}

/// The command that a subcommand and its argument stand for.
///
/// `ls` lists and takes no argument; `start` and `stop` need the name of an
/// instance. Any other word is no command.
pub open spec fn parsed(subcommand: Seq<char>, name: Option<Seq<char>>) -> Option<CommandView> {
    if subcommand == "ls"@ {
        Some(CommandView::Ls)
    } else if subcommand == "start"@ {
        match name {
            Some(name) => Some(CommandView::Start(name)),
            None => None,
        }
    } else if subcommand == "stop"@ {
        match name {
            Some(name) => Some(CommandView::Stop(name)),
            None => None,
        }
    } else {
        None
    }
}

/// The step that asks `action` of the first instance that goes by `name`, or
/// the end of the run where none does.
pub open spec fn resolved(
    action: ControlAction,
    instances: Seq<InstanceView>,
    name: Seq<char>,
) -> NextView {
    match lookup(instances, name) {
        Some(k) => NextView::Send(request_for(action, instances[k].id)),
        None => NextView::Abort(FatalView::NameNotFound(name)),
    }
}

/// The step that follows the listing.
///
/// A call that failed ends the run, and so does an answer that lacks a
/// field. Otherwise `Ls` prints the listing under the region, unless the
/// table cannot be laid out, and `Start` and `Stop` ask their action of the
/// instance that goes by the name.
pub open spec fn step_after_listing(
    command: CommandView,
    region: Seq<char>,
    answer: Result<Option<Seq<Option<Seq<InstanceRecordView>>>>, Seq<char>>,
) -> NextView {
    match answer {
        Err(detail) => NextView::Abort(FatalView::ProviderCall(Operation::List, detail)),
        Ok(reservations) => match listing(records_of(reservations)) {
            Err(missing) => NextView::Abort(FatalView::ContractViolation(missing)),
            Ok(instances) => match command {
                CommandView::Ls => if is_printable(instances) {
                    NextView::Print(listing_text(region, instances))
                } else {
                    NextView::Abort(FatalView::Unprintable)
                },
                CommandView::Start(name) => resolved(ControlAction::Start, instances, name),
                CommandView::Stop(name) => resolved(ControlAction::Stop, instances, name),
            },
        },
    }
}

/// What a run ends with after a start or stop: the line that tells the state
/// change, with its line break, to be printed; or what went wrong.
pub open spec fn end_after_control(
    action: ControlAction,
    answer: Result<Option<Seq<StateChangeRecordView>>, Seq<char>>,
) -> Result<Seq<char>, FatalView> {
    match answer {
        Err(detail) => Err(FatalView::ProviderCall(operation_of(action), detail)),
        Ok(changes) => match acknowledged(changes) {
            Err(missing) => Err(FatalView::ContractViolation(missing)),
            Ok(change) => Ok(transition_line(change) + "\n"@),
        },
    }
}

/// Resolves a name and asks `action` of the instance that goes by it.
pub fn resolve(action: ControlAction, instances: &[Instance], name: &str) -> (next: Next)
    ensures
        next@ == resolved(action, seq_view(instances@), name@),
{
    match find_instance_by_name(instances, name) {
        Some(instance) => Next::Send(
            match action {
                ControlAction::Start => instance.start(),
                ControlAction::Stop => instance.stop(),
            },
        ),
        None => Next::Abort(Fatal::NameNotFound(name.to_owned())),
    }
}

impl Command {
    /// Reads a command from a subcommand and its argument.
    pub fn from_args(subcommand: &str, name: Option<&str>) -> (command: Option<Command>)
        ensures
            opt_view(command) == parsed(subcommand@, opt_view(name)),
    {
        let word = subcommand.to_owned();
        if word == "ls".to_owned() {
            Some(Command::Ls)
        } else if word == "start".to_owned() {
            match name {
                Some(name) => Some(Command::Start(name.to_owned())),
                None => None,
            }
        } else if word == "stop".to_owned() {
            match name {
                Some(name) => Some(Command::Stop(name.to_owned())),
                None => None,
            }
        } else {
            None
        }
    }

    /// Decides what follows the listing. A simple listing is always printed.
    pub fn after_listing(&self, region: &str, answer: ListingAnswer) -> (next: Next)
        ensures
            next@ == step_after_listing(self@, region@, listing_answer_view(answer)),
            self is Ls ==> (listing_answer_view(answer) matches Ok(reservations) ==> (listing(
                records_of(reservations),
            ) matches Ok(instances) ==> (is_simple_listing(instances) ==> next is Print))),
    {
        let reservations = match answer {
            Ok(reservations) => reservations,
            Err(detail) => { return Next::Abort(Fatal::ProviderCall(Operation::List, detail)); },
        };
        let instances = match list(&reservations) {
            Ok(instances) => instances,
            Err(missing) => { return Next::Abort(Fatal::ContractViolation(missing)); },
        };
        match self {
            Command::Ls => match print_instances(region, instances.as_slice()) {
                Some(text) => Next::Print(text),
                None => Next::Abort(Fatal::Unprintable),
            },
            Command::Start(name) => resolve(
                ControlAction::Start,
                instances.as_slice(),
                name.as_str(),
            ),
            Command::Stop(name) => resolve(
                ControlAction::Stop,
                instances.as_slice(),
                name.as_str(),
            ),
        }
    }
}

/// Decides how a run ends after a start or stop: with a text to print, or
/// with what went wrong.
pub fn after_control(action: ControlAction, answer: ControlAnswer) -> (end: Result<String, Fatal>)
    ensures
        match end {
            Ok(text) => end_after_control(action, control_answer_view(answer)) == Ok::<
                _,
                FatalView,
            >(text@),
            Err(fatal) => end_after_control(action, control_answer_view(answer)) == Err::<
                Seq<char>,
                _,
            >(fatal@),
        },
{
    let changes = match answer {
        Ok(changes) => changes,
        Err(detail) => { return Err(Fatal::ProviderCall(action.operation(), detail)); },
    };
    match StateChange::from_acknowledgment(&changes) {
        Ok(change) => {
            let mut line = print_instance_state_change(&change);
            line.append("\n");
            Ok(line)
        },
        Err(missing) => Err(Fatal::ContractViolation(missing)),
    }
}

} // verus!
