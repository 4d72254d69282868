//! The `Service` entity: identity plus the last observed state of one
//! manageable unit. Values are immutable snapshots — updates replace the
//! whole `Service` rather than mutating it in place.

use vstd::prelude::*;
use crate::text::seq_ends_with;

verus! {

/// Mathematical image of a [`ServiceState`].
pub struct ServiceStateView {
    pub load: Seq<char>,
    pub active: Seq<char>,
    pub sub: Seq<char>,
    pub file: Seq<char>,
}

/// Mathematical image of a [`Service`].
pub struct ServiceView {
    pub name: Seq<char>,
    pub description: Seq<char>,
    pub state: ServiceStateView,
}

/// An `active` value ending in "ing" (activating, deactivating, ...) denotes
/// an in-progress transition; every other value is terminal.
pub open spec fn is_transient_active(active: Seq<char>) -> bool {
    seq_ends_with(active, "ing"@)
}

/// The placeholder stored in `file` until the persisted enablement state of a
/// unit is known.
pub open spec fn file_placeholder() -> Seq<char> {
    "..."@
}

/// Observed state of one unit: `load` (loaded/not-found/...), `active`
/// (active/inactive/failed/activating/...), `sub` (runtime substate) and
/// `file` (persisted enablement state, or a placeholder meaning "not yet
/// known").
pub struct ServiceState {
    load: String,
    active: String,
    sub: String,
    pub file: String,
}

impl View for ServiceState {
    type V = ServiceStateView;

    closed spec fn view(&self) -> ServiceStateView {
        ServiceStateView {
            load: self.load@,
            active: self.active@,
            sub: self.sub@,
            file: self.file@,
        }
    }
}

impl ServiceState {
    pub fn new(load: String, active: String, sub: String, file: String) -> (r: ServiceState)
        ensures
            r@.load == load@,
            r@.active == active@,
            r@.sub == sub@,
            r@.file == file@,
    {
        ServiceState { load, active, sub, file }
    }

    pub fn load(&self) -> (r: &str)
        ensures
            r@ == self@.load,
    {
        self.load.as_str()
    }

    pub fn active(&self) -> (r: &str)
        ensures
            r@ == self@.active,
    {
        self.active.as_str()
    }

    pub fn sub(&self) -> (r: &str)
        ensures
            r@ == self@.sub,
    {
        self.sub.as_str()
    }

    pub fn file(&self) -> (r: &str)
        ensures
            r@ == self@.file,
    {
        self.file.as_str()
    }

    /// Is the unit in a transient (in-progress) activation state?
    pub fn is_transient(&self) -> (r: bool)
        ensures
            r == is_transient_active(self@.active),
    {
        crate::text::str_ends_with(self.active.as_str(), "ing")
    }
}

impl Clone for ServiceState {
    fn clone(&self) -> (r: Self)
        ensures
            r == *self,
    {
        ServiceState {
            load: self.load.clone(),
            active: self.active.clone(),
            sub: self.sub.clone(),
            file: self.file.clone(),
        }
    }
}

/// One manageable unit: a stable name (the unique key across the whole
/// system), an advisory human label, and the embedded state.
pub struct Service {
    name: String,
    description: String,
    state: ServiceState,
}

impl View for Service {
    type V = ServiceView;

    closed spec fn view(&self) -> ServiceView {
        ServiceView { name: self.name@, description: self.description@, state: self.state@ }
    }
}

impl Service {
    pub fn new(name: String, description: String, state: ServiceState) -> (r: Service)
        ensures
            r@.name == name@,
            r@.description == description@,
            r@.state == state@,
    {
        Service { name, description, state }
    }

    pub fn name(&self) -> (r: &str)
        ensures
            r@ == self@.name,
    {
        self.name.as_str()
    }

    pub fn description(&self) -> (r: &str)
        ensures
            r@ == self@.description,
    {
        self.description.as_str()
    }

    pub fn state(&self) -> (r: &ServiceState)
        ensures
            r@ == self@.state,
    {
        &self.state
    }

    /// Replaces the persisted enablement state; everything else is kept.
    pub fn set_file_state(&mut self, file: String)
        ensures
            final(self)@ == (ServiceView {
                state: ServiceStateView { file: file@, ..old(self)@.state },
                ..old(self)@
            }),
    {
        self.state.file = file;
    }
}

impl Clone for Service {
    fn clone(&self) -> (r: Self)
        ensures
            r == *self,
    {
        Service {
            name: self.name.clone(),
            description: self.description.clone(),
            state: self.state.clone(),
        }
    }
}

} // verus!
