//! The instances of the player, and what decides whether they may do something.

use vstd::hash_map::StringHashMap;
use vstd::prelude::*;

use crate::call::{Call, CallModel};
use crate::command::Path;
use crate::data::{Data, DataModel};
use crate::event::{
    mpv_err, mpv_failure, result_model, Error, ErrorModel, Event, InnerEvent, Property,
    PropertyModel,
};
use crate::observe::{events_model, inner_events_model, Registry, RegistryModel};
use crate::raw::known_code;
use crate::setup::{
    find_failure, first_failure, law_first_failure_is_the_first, setup_call, setup_calls, Progress,
    ProgressModel,
};

verus! {

/// Represents an mpv instance from which `Client`s can be spawned.
pub struct Parent {
    initialized: bool,
    suspension_count: usize,
    events: Option<Registry>,
}

/// What a `Parent` holds. It has a registry of events exactly if events are enabled.
pub struct ParentModel {
    pub initialized: bool,
    pub suspension_count: usize,
    pub events: Option<RegistryModel>,
}

/// Represents a client of a `Parent`.
pub struct Client {
    events: Option<Registry>,
}

/// What a `Client` holds. It has a registry of events exactly if events are enabled.
pub struct ClientModel {
    pub events: Option<RegistryModel>,
}

/// What an optional registry holds.
pub open spec fn registry_model(events: Option<Registry>) -> Option<RegistryModel> {
    match events {
        Some(registry) => Some(registry@),
        None => None,
    }
}

impl View for Parent {
    type V = ParentModel;

    closed spec fn view(&self) -> ParentModel {
        ParentModel {
            initialized: self.initialized,
            suspension_count: self.suspension_count,
            events: registry_model(self.events),
        }
    }
}

impl View for Client {
    type V = ClientModel;

    closed spec fn view(&self) -> ClientModel {
        ClientModel { events: registry_model(self.events) }
    }
}

/// What the instances of the player have in common.
pub trait MpvMarker {
    /// Whether the core of the instance is initialized.
    spec fn is_initialized(&self) -> bool;

    /// The registry of events, if events are enabled.
    spec fn registry(&self) -> Option<RegistryModel>;

    /// How many suspensions of the playback thread are left to be undone.
    spec fn suspensions(&self) -> nat;

    fn initialized(&self) -> (initialized: bool)
        ensures
            initialized == self.is_initialized(),
    ;

    fn check_events(&self) -> (check_events: bool)
        ensures
            check_events == self.registry() is Some,
    ;

    fn ev_to_observe(&self) -> (events: Option<&Vec<Event>>)
        ensures
            match events {
                Some(events) => self.registry() matches Some(registry) && events_model(events@)
                    == registry.to_observe,
                None => self.registry() is None,
            },
    ;

    fn ev_to_observe_properties(&self) -> (properties: Option<&StringHashMap<u64>>)
        ensures
            match properties {
                Some(properties) => self.registry() matches Some(registry) && properties@
                    == registry.properties,
                None => self.registry() is None,
            },
    ;

    fn ev_observed(&self) -> (events: Option<&Vec<InnerEvent>>)
        ensures
            match events {
                Some(events) => self.registry() matches Some(registry) && inner_events_model(
                    events@,
                ) == registry.observed,
                None => self.registry() is None,
            },
    ;

    /// The registry itself, to be changed.
    fn registry_mut(&mut self) -> (events: Option<&mut Registry>)
        ensures
            final(self).is_initialized() == old(self).is_initialized(),
            final(self).suspensions() == old(self).suspensions(),
            match events {
                Some(registry) => {
                    &&& old(self).registry() == Some(registry@)
                    &&& final(self).registry() == Some(final(registry)@)
                },
                None => old(self).registry() is None && final(self).registry() is None,
            },
    ;
}

impl MpvMarker for Parent {
    open spec fn is_initialized(&self) -> bool {
        self@.initialized
    }

    open spec fn registry(&self) -> Option<RegistryModel> {
        self@.events
    }

    open spec fn suspensions(&self) -> nat {
        self@.suspension_count as nat
    }

    fn initialized(&self) -> (initialized: bool) {
        self.initialized
    }

    fn check_events(&self) -> (check_events: bool) {
        self.events.is_some()
    }

    fn ev_to_observe(&self) -> (events: Option<&Vec<Event>>) {
        match &self.events {
            Some(registry) => Some(&registry.to_observe),
            None => None,
        }
    }

    fn ev_to_observe_properties(&self) -> (properties: Option<&StringHashMap<u64>>) {
        match &self.events {
            Some(registry) => Some(&registry.properties),
            None => None,
        }
    }

    fn ev_observed(&self) -> (events: Option<&Vec<InnerEvent>>) {
        match &self.events {
            Some(registry) => Some(&registry.observed),
            None => None,
        }
    }

    fn registry_mut(&mut self) -> (events: Option<&mut Registry>) {
        match &mut self.events {
            Some(registry) => Some(registry),
            None => None,
        }
    }
}

impl MpvMarker for Client {
    open spec fn is_initialized(&self) -> bool {
        true
    }

    open spec fn registry(&self) -> Option<RegistryModel> {
        self@.events
    }

    open spec fn suspensions(&self) -> nat {
        0
    }

    fn initialized(&self) -> (initialized: bool) {
        true
    }

    fn check_events(&self) -> (check_events: bool) {
        self.events.is_some()
    }

    fn ev_to_observe(&self) -> (events: Option<&Vec<Event>>) {
        match &self.events {
            Some(registry) => Some(&registry.to_observe),
            None => None,
        }
    }

    fn ev_to_observe_properties(&self) -> (properties: Option<&StringHashMap<u64>>) {
        match &self.events {
            Some(registry) => Some(&registry.properties),
            None => None,
        }
    }

    fn ev_observed(&self) -> (events: Option<&Vec<InnerEvent>>) {
        match &self.events {
            Some(registry) => Some(&registry.observed),
            None => None,
        }
    }

    fn registry_mut(&mut self) -> (events: Option<&mut Registry>) {
        match &mut self.events {
            Some(registry) => Some(registry),
            None => None,
        }
    }
}

/// What libmpv has answered so far while an instance is created: the version of its client API,
/// whether it created a core, and the numbers with which it answered the calls after that. Calls
/// that return nothing count as answered with zero. The library was written for `built_for`.
pub struct Opening {
    pub built_for: u32,
    pub present: Option<u32>,
    pub created: Option<bool>,
    pub codes: Vec<i32>,
}

/// What libmpv has answered so far while a client is created: whether it was asked to create it,
/// and the numbers with which it answered the calls after that.
pub struct ClientOpening {
    pub asked: bool,
    pub codes: Vec<i32>,
}

/// Whether `codes` answer no more calls than there are, each with a number that libmpv uses.
pub open spec fn answers(codes: Seq<i32>, calls: Seq<CallModel>) -> bool {
    &&& codes.len() <= calls.len()
    &&& forall|i: int| 0 <= i < codes.len() ==> known_code(#[trigger] codes[i] as int)
}

/// How far the calls `calls` have come when libmpv has answered `codes`, and `value` is the outcome
/// if all of them go well.
pub open spec fn progress_of<T>(
    calls: Seq<CallModel>,
    codes: Seq<i32>,
    value: T,
) -> ProgressModel<T> {
    match first_failure(codes) {
        Some(i) => ProgressModel::Finished(Err(mpv_failure(codes[i]))),
        None => if codes.len() < calls.len() {
            ProgressModel::Ask(calls[codes.len() as int])
        } else {
            ProgressModel::Finished(Ok(value))
        },
    }
}

/// The registry of a new instance.
pub open spec fn new_registry(check_events: bool) -> Option<RegistryModel> {
    if check_events {
        Some(RegistryModel::empty())
    } else {
        None
    }
}

/// A new parent.
pub open spec fn new_parent(check_events: bool) -> ParentModel {
    ParentModel {
        initialized: false,
        suspension_count: 0,
        events: new_registry(check_events),
    }
}

/// How far the creation of a parent has come.
pub open spec fn parent_progress(check_events: bool, opening: Opening) -> ProgressModel<
    ParentModel,
> {
    match opening.present {
        None => ProgressModel::Ask(CallModel::ClientApiVersion),
        Some(present) => if present != opening.built_for {
            ProgressModel::Finished(Err(ErrorModel::VersionMismatch(present)))
        } else {
            match opening.created {
                None => ProgressModel::Ask(CallModel::Create),
                Some(false) => ProgressModel::Finished(Err(ErrorModel::Null)),
                Some(true) => progress_of(
                    setup_calls(check_events),
                    opening.codes@,
                    new_parent(check_events),
                ),
            }
        },
    }
}

impl ParentModel {
    /// How far the creation of a client has come.
    pub open spec fn client_progress(
        self,
        name: Seq<char>,
        check_events: bool,
        opening: ClientOpening,
    ) -> ProgressModel<ClientModel> {
        if !self.initialized {
            ProgressModel::Finished(Err(ErrorModel::Uninitialized))
        } else if !opening.asked {
            ProgressModel::Ask(CallModel::CreateClient(name))
        } else {
            progress_of(
                setup_calls(check_events),
                opening.codes@,
                ClientModel { events: new_registry(check_events) },
            )
        }
    }

    /// The parent after `init`, and the result.
    pub open spec fn after_init(self) -> (ParentModel, Result<CallModel, ErrorModel>) {
        if self.initialized {
            (self, Err(ErrorModel::AlreadyInitialized))
        } else {
            (ParentModel { initialized: true, ..self }, Ok(CallModel::Initialize))
        }
    }

    /// The parent after `suspend`, and the result. The count of suspensions wraps around.
    pub open spec fn after_suspend(self) -> (ParentModel, Result<CallModel, ErrorModel>) {
        if self.initialized {
            (
                ParentModel {
                    suspension_count: if self.suspension_count == usize::MAX {
                        0
                    } else {
                        (self.suspension_count + 1) as usize
                    },
                    ..self
                },
                Ok(CallModel::Suspend),
            )
        } else {
            (self, Err(ErrorModel::Uninitialized))
        }
    }

    /// The parent after `resume`, and the result.
    pub open spec fn after_resume(self) -> (ParentModel, Result<CallModel, ErrorModel>) {
        if !self.initialized {
            (self, Err(ErrorModel::Uninitialized))
        } else if self.suspension_count == 0 {
            (self, Err(ErrorModel::AlreadyResumed))
        } else {
            (
                ParentModel {
                    suspension_count: (self.suspension_count - 1) as usize,
                    ..self
                },
                Ok(CallModel::Resume),
            )
        }
    }

    /// The call that sets an option, or why there is none.
    pub open spec fn option_call(self, option: PropertyModel) -> Result<CallModel, ErrorModel> {
        if self.initialized {
            Err(ErrorModel::AlreadyInitialized)
        } else {
            match option.data {
                DataModel::OsdString(_) => Err(ErrorModel::OsdStringWrite),
                _ => Ok(CallModel::SetOption(option)),
            }
        }
    }
}

/// The call that loads a configuration file, or why there is none.
pub open spec fn config_call(path: Path, directory: bool) -> Result<CallModel, ErrorModel> {
    if path.relative {
        Err(ErrorModel::ExpectedAbsolute)
    } else if directory {
        Err(ErrorModel::ExpectedFile)
    } else {
        Ok(CallModel::LoadConfigFile(path.chars()))
    }
}

fn make_registry(check_events: bool) -> (events: Option<Registry>)
    ensures
        registry_model(events) == new_registry(check_events),
{
    if check_events {
        Some(Registry::new())
    } else {
        None
    }
}

/// Decides how the calls that prepare the events of a new instance go on: with another call, with
/// an error, or not at all.
fn next_setup(check_events: bool, codes: &Vec<i32>) -> (next: Result<Option<Call>, Error>)
    requires
        answers(codes@, setup_calls(check_events)),
    ensures
        match next {
            Ok(Some(call)) => progress_of(setup_calls(check_events), codes@, ())
                == ProgressModel::<()>::Ask(call@),
            Ok(None) => progress_of(setup_calls(check_events), codes@, ())
                == ProgressModel::<()>::Finished(Ok(())),
            Err(error) => progress_of(setup_calls(check_events), codes@, ())
                == ProgressModel::<()>::Finished(Err(error@)),
        },
{
    match find_failure(codes) {
        Some(i) => match mpv_err(None, codes[i]) {
            Ok(nothing) => Ok(nothing),
            Err(error) => Err(error),
        },
        None => Ok(setup_call(check_events, codes.len())),
    }
}

impl Parent {
    /// Create a new `Mpv` instance.
    /// To call any method except for `set_option` on this, it has to be initialized first.
    /// The default settings can be probed by running:
    ///
    ///```$ mpv --show-profile=libmpv```
    ///
    /// It is created step by step: as long as the result is a call, that call has to be made, and
    /// its answer added to `opening`.
    pub fn new(check_events: bool, opening: &Opening) -> (progress: Progress<Parent>)
        requires
            answers(opening.codes@, setup_calls(check_events)),
        ensures
            progress@ == parent_progress(check_events, *opening),
    {
        match opening.present {
            None => Progress::Ask(Call::ClientApiVersion),
            Some(present) => {
                if present != opening.built_for {
                    return Progress::Finished(Err(Error::VersionMismatch(present)));
                }
                match opening.created {
                    None => Progress::Ask(Call::Create),
                    Some(created) => {
                        if !created {
                            return Progress::Finished(Err(Error::Null));
                        }
                        match next_setup(check_events, &opening.codes) {
                            Ok(Some(call)) => Progress::Ask(call),
                            Ok(None) => Progress::Finished(
                                Ok(
                                    Parent {
                                        initialized: false,
                                        suspension_count: 0,
                                        events: make_registry(check_events),
                                    },
                                ),
                            ),
                            Err(error) => Progress::Finished(Err(error)),
                        }
                    },
                }
            },
        }
    }

    /// Create a client with `name`, that is connected to the core of `self`, but has an own queue
    /// for API events and such.
    ///
    /// It is created step by step: as long as the result is a call, that call has to be made, and
    /// its answer added to `opening`.
    pub fn new_client(
        &self,
        name: &str,
        check_events: bool,
        opening: &ClientOpening,
    ) -> (progress: Progress<Client>)
        requires
            answers(opening.codes@, setup_calls(check_events)),
        ensures
            progress@ == self@.client_progress(name@, check_events, *opening),
    {
        if self.initialized() {
            if !opening.asked {
                return Progress::Ask(Call::CreateClient(name.to_owned()));
            }
            match next_setup(check_events, &opening.codes) {
                Ok(Some(call)) => Progress::Ask(call),
                Ok(None) => Progress::Finished(
                    Ok(Client { events: make_registry(check_events) }),
                ),
                Err(error) => Progress::Finished(Err(error)),
            }
        } else {
            Progress::Finished(Err(Error::Uninitialized))
        }
    }

    /// Initialize the mpv core. The instance counts as initialized from now on, whatever libmpv
    /// answers.
    pub fn init(&mut self) -> (result: Result<Call, Error>)
        ensures
            (final(self)@, result_model(result)) == old(self)@.after_init(),
    {
        if self.initialized() {
            Err(Error::AlreadyInitialized)
        } else {
            self.initialized = true;
            Ok(Call::Initialize)
        }
    }

    /// Set an option. This only works before core initialization.
    pub fn set_option(&self, opt: Property) -> (result: Result<Call, Error>)
        ensures
            result_model(result) == self@.option_call(opt@),
    {
        if self.initialized() {
            return Err(Error::AlreadyInitialized);
        }
        match &opt.data {
            Data::OsdString(_) => Err(Error::OsdStringWrite),
            _ => Ok(Call::SetOption(opt)),
        }
    }

    /// Load a configuration file into the `Mpv` instance.
    /// The path has to be absolute, and must not be a `directory`.
    /// This should not be done during runtime.
    /// This overrides previously set options and properties.
    pub fn load_config(&self, path: Path, directory: bool) -> (result: Result<Call, Error>)
        requires
            !path.relative && !directory ==> path.text is Some,
        ensures
            result_model(result) == config_call(path, directory),
    {
        if path.relative {
            Err(Error::ExpectedAbsolute)
        } else if directory {
            Err(Error::ExpectedFile)
        } else {
            Ok(Call::LoadConfigFile(path.to_str().to_owned()))
        }
    }

    /// Suspend the playback thread, or freeze the core. If the core is suspended, only
    /// client API calls will be accepted, ie. input, redrawing etc. will be suspended.
    /// For the thread to resume there has to be one `resume` call for each `suspend` call.
    pub fn suspend(&mut self) -> (result: Result<Call, Error>)
        ensures
            (final(self)@, result_model(result)) == old(self)@.after_suspend(),
    {
        if self.initialized() {
            self.suspension_count = self.suspension_count.wrapping_add(1);
            Ok(Call::Suspend)
        } else {
            Err(Error::Uninitialized)
        }
    }

    /// See `suspend`.
    pub fn resume(&mut self) -> (result: Result<Call, Error>)
        ensures
            (final(self)@, result_model(result)) == old(self)@.after_resume(),
    {
        if self.initialized() {
            if self.suspension_count == 0 {
                Err(Error::AlreadyResumed)
            } else {
                self.suspension_count = self.suspension_count - 1;
                Ok(Call::Resume)
            }
        } else {
            Err(Error::Uninitialized)
        }
    }
}

/// The parent after `n` suspensions.
pub open spec fn suspended(parent: ParentModel, n: nat) -> ParentModel
    decreases n,
{
    if n == 0 {
        parent
    } else {
        suspended(parent, (n - 1) as nat).after_suspend().0
    }
}

/// The parent after `n` calls of `resume`.
pub open spec fn resumed(parent: ParentModel, n: nat) -> ParentModel
    decreases n,
{
    if n == 0 {
        parent
    } else {
        resumed(parent.after_resume().0, (n - 1) as nat)
    }
}

/// Every suspension takes one `resume` of its own: after `n` suspensions the next `n` calls of
/// `resume` succeed, and then the parent is as it was. This holds as long as the suspensions can be
/// counted.
pub proof fn law_one_resume_for_each_suspend(parent: ParentModel, n: nat)
    requires
        parent.initialized,
        parent.suspension_count + n <= usize::MAX,
    ensures
        suspended(parent, n) == (ParentModel {
            suspension_count: (parent.suspension_count + n) as usize,
            ..parent
        }),
        n > 0 ==> suspended(parent, n).after_resume() == (
            suspended(parent, (n - 1) as nat),
            Ok::<CallModel, ErrorModel>(CallModel::Resume),
        ),
        resumed(suspended(parent, n), n) == parent,
    decreases n,
{
    if n > 0 {
        law_one_resume_for_each_suspend(parent, (n - 1) as nat);
    }
}

/// A `resume` that no suspension is left for is refused, and changes nothing.
pub proof fn law_resume_without_suspension_is_refused(parent: ParentModel)
    requires
        parent.initialized,
        parent.suspension_count == 0,
    ensures
        parent.after_resume() == (
            parent,
            Err::<CallModel, ErrorModel>(ErrorModel::AlreadyResumed),
        ),
{
}

/// Before initialization nothing can be suspended, resumed or given clients, but options can be
/// set; after it options cannot be set any more.
pub proof fn law_initialization_divides_the_methods(
    parent: ParentModel,
    option: PropertyModel,
    name: Seq<char>,
    check_events: bool,
    opening: ClientOpening,
)
    ensures
        !parent.initialized ==> {
            &&& parent.after_suspend() == (
                parent,
                Err::<CallModel, ErrorModel>(ErrorModel::Uninitialized),
            )
            &&& parent.after_resume() == (
                parent,
                Err::<CallModel, ErrorModel>(ErrorModel::Uninitialized),
            )
            &&& parent.client_progress(name, check_events, opening)
                == ProgressModel::<ClientModel>::Finished(Err(ErrorModel::Uninitialized))
            &&& !(option.data is OsdString) ==> parent.option_call(option) is Ok
        },
        parent.after_init().0.option_call(option) == Err::<CallModel, ErrorModel>(
            ErrorModel::AlreadyInitialized,
        ),
{
}

/// An instance is initialized at most once.
pub proof fn law_initialization_happens_once(parent: ParentModel)
    ensures
        parent.after_init().0.initialized,
        parent.after_init().0.after_init() == (
            parent.after_init().0,
            Err::<CallModel, ErrorModel>(ErrorModel::AlreadyInitialized),
        ),
{
}

/// A parent is created exactly if the versions match, libmpv creates a core, and every call that
/// prepares the events goes well; it is a new one then.
pub proof fn law_creation_needs_every_call(check_events: bool, opening: Opening)
    requires
        answers(opening.codes@, setup_calls(check_events)),
    ensures
        parent_progress(check_events, opening) matches ProgressModel::Finished(Ok(parent))
            ==> parent == new_parent(check_events),
        (parent_progress(check_events, opening) matches ProgressModel::Finished(Ok(_))) <==> {
            &&& opening.present == Some(opening.built_for)
            &&& opening.created == Some(true)
            &&& opening.codes@.len() == setup_calls(check_events).len()
            &&& forall|i: int| 0 <= i < opening.codes@.len() ==> #[trigger] opening.codes@[i] == 0
        },
{
    law_first_failure_is_the_first(opening.codes@);
}

/// A library that was built for another version is created nowhere, whatever else libmpv answers.
pub proof fn law_versions_have_to_match(check_events: bool, opening: Opening)
    requires
        opening.present matches Some(present) && present != opening.built_for,
    ensures
        parent_progress(check_events, opening) == ProgressModel::<ParentModel>::Finished(
            Err(ErrorModel::VersionMismatch(opening.present.unwrap())),
        ),
{
}

} // verus!
