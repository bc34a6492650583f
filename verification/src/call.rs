//! What libmpv is asked to do.

use vstd::prelude::*;

use crate::event::{Property, PropertyModel};
use crate::raw::{MpvEventId, MpvFormat};

verus! {

/// A call into libmpv, with the arguments that are handed to it.
#[derive(Debug)]
pub enum Call {
    /// Ask for the version of the client API.
    ClientApiVersion,
    /// Create a core.
    Create,
    /// Create a client of a core under a name.
    CreateClient(String),
    /// Enable or disable the events of one kind.
    RequestEvent { kind: MpvEventId, enable: bool },
    /// Have the waiting `EventIter`s woken when there are events.
    SetWakeupCallback,
    /// Initialize the core.
    Initialize,
    /// Set an option.
    SetOption(Property),
    /// Set a property.
    SetProperty(Property),
    /// Get the value of a property in a format.
    GetProperty { name: String, format: MpvFormat },
    /// Have changes of a property fired as events that carry its value in a format.
    ObserveProperty { id: u64, name: String, format: MpvFormat },
    /// Undo all `ObserveProperty` calls with a number.
    UnobserveProperty(u64),
    /// Run a command line.
    CommandString(String),
    /// Load a configuration file.
    LoadConfigFile(String),
    /// Suspend the playback thread.
    Suspend,
    /// Undo one suspension of the playback thread.
    Resume,
}

/// What a `Call` says.
pub enum CallModel {
    ClientApiVersion,
    Create,
    CreateClient(Seq<char>),
    RequestEvent { kind: MpvEventId, enable: bool },
    SetWakeupCallback,
    Initialize,
    SetOption(PropertyModel),
    SetProperty(PropertyModel),
    GetProperty { name: Seq<char>, format: MpvFormat },
    ObserveProperty { id: u64, name: Seq<char>, format: MpvFormat },
    UnobserveProperty(u64),
    CommandString(Seq<char>),
    LoadConfigFile(Seq<char>),
    Suspend,
    Resume,
}

impl View for Call {
    type V = CallModel;

    open spec fn view(&self) -> CallModel {
        match self {
            Call::ClientApiVersion => CallModel::ClientApiVersion,
            Call::Create => CallModel::Create,
            Call::CreateClient(name) => CallModel::CreateClient(name@),
            Call::RequestEvent { kind, enable } => CallModel::RequestEvent {
                kind: *kind,
                enable: *enable,
            },
            Call::SetWakeupCallback => CallModel::SetWakeupCallback,
            Call::Initialize => CallModel::Initialize,
            Call::SetOption(property) => CallModel::SetOption(property@),
            Call::SetProperty(property) => CallModel::SetProperty(property@),
            Call::GetProperty { name, format } => CallModel::GetProperty {
                name: name@,
                format: *format,
            },
            Call::ObserveProperty { id, name, format } => CallModel::ObserveProperty {
                id: *id,
                name: name@,
                format: *format,
            },
            Call::UnobserveProperty(id) => CallModel::UnobserveProperty(*id),
            Call::CommandString(line) => CallModel::CommandString(line@),
            Call::LoadConfigFile(file) => CallModel::LoadConfigFile(file@),
            Call::Suspend => CallModel::Suspend,
            Call::Resume => CallModel::Resume,
        }
    }
}

/// What a list of calls says.
pub open spec fn calls_model(calls: Seq<Call>) -> Seq<CallModel> {
    calls.map_values(|call: Call| call@)
}

} // verus!
