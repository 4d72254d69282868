//! The Event Orchestrator's decision core: one owner of all view state,
//! mutated exactly once per received event. The surrounding loop (input
//! polling, rendering, the channel) feeds intents in and carries the
//! returned command out; every state transition is decided here.

use vstd::prelude::*;
use crate::filter_input::FilterInput;
use crate::resolver::{UnitCommand, mask_toggle_command};
use crate::service::Service;
use crate::table::{ServiceTable, filtered_view, replace_or_append};
use crate::worker::accept_tagged_result;

verus! {

/// Which protocol bus a capability binding talks to, and which flags the
/// external processes get.
#[derive(Clone, Copy, Debug, PartialEq, Eq, Structural)]
pub enum ConnectionType {
    Session,
    System,
}

/// Which sub-component receives key events.
#[derive(Clone, Copy, Debug, PartialEq, Eq, Structural)]
pub enum Mode {
    List,
    Log,
    Details,
}

/// A request against the selected service, or against the list as a whole.
pub enum ServiceAction {
    Start,
    Stop,
    Restart,
    Enable,
    Disable,
    RefreshAll,
    ToggleFilter,
    ToggleMask,
}

/// Intents raised by sub-components and background producers.
pub enum Actions {
    RefreshLog,
    RefreshDetails,
    GoList,
    ResetList,
    GoLog,
    GoDetails,
    Updatelog((String, String)),
    UpdateDetails,
    Filter(String),
    UpdateIgnoreListKeys(bool),
    EditCurrentService,
    ServiceAction(ServiceAction),
    ShowHelp,
    Redraw,
}

/// What the surrounding loop must do after a dispatch: nothing, refetch the
/// whole list, fetch one unit's log or unit-file text, resolve one mutating
/// action against one unit, or open the editor on one unit.
pub enum AppCommand {
    Idle,
    FetchList,
    FetchLog(String),
    FetchUnitFile(String),
    RunUnit(UnitCommand, String),
    EditUnit(String),
}

/// All view state, owned by the single UI thread.
pub struct Orchestrator {
    pub running: bool,
    pub mode: Mode,
    pub scope: ConnectionType,
    pub show_help: bool,
    /// Set while a mutating action is in flight, so a second keypress cannot
    /// race it against the same selection.
    pub ignore_key_events: bool,
    pub table: ServiceTable,
    pub filter: FilterInput,
    pub log_unit: String,
    pub log_text: String,
    /// Microsecond epoch at which the currently selected service last
    /// entered the active state; `None` when unknown or not applicable.
    pub runtime_timestamp: Option<u64>,
}

impl Orchestrator {
    /// The name of the selected service, as the spec sees it.
    pub open spec fn selected_name(self) -> Option<Seq<char>> {
        match self.table.selected {
            Option::Some(i) => Option::Some(self.table.filtered_services@[i as int]@.name),
            Option::None => Option::None,
        }
    }

    pub open spec fn wf(self) -> bool {
        &&& self.table.wf()
        &&& self.filter.wf()
    }

    pub fn new(scope: ConnectionType) -> (r: Orchestrator)
        ensures
            r.running,
            r.mode == Mode::List,
            r.scope == scope,
            !r.show_help,
            !r.ignore_key_events,
            r.table.services@.len() == 0,
            r.runtime_timestamp is None,
            r.wf(),
    {
        Orchestrator {
            running: true,
            mode: Mode::List,
            scope,
            show_help: false,
            ignore_key_events: false,
            table: ServiceTable::new(),
            filter: FilterInput::new(),
            log_unit: String::new(),
            log_text: String::new(),
            runtime_timestamp: None,
        }
    }

    pub fn quit(&mut self)
        ensures
            *final(self) == (Orchestrator { running: false, ..*old(self) }),
    {
        self.running = false;
    }

    /// The selected service, if any.
    fn selected_service(&self) -> (r: Option<Service>)
        requires
            self.table.wf(),
        ensures
            match self.table.selected {
                Option::Some(i) => r == Option::Some(self.table.filtered_services@[i as int]),
                Option::None => r is None,
            },
            match r {
                Option::Some(s) => self.selected_name() == Option::Some(s@.name),
                Option::None => self.selected_name() is None,
            },
    {
        self.table.get_selected_service()
    }

    /// One intent, one state mutation, one command out.
    pub fn handle_action(&mut self, action: &Actions) -> (cmd: AppCommand)
        requires
            old(self).wf(),
        ensures
            final(self).wf(),
            ({
                let o = *old(self);
                let f = *final(self);
                match *action {
                    Actions::RefreshLog => f == o && (match o.selected_name() {
                        Option::Some(nm) => if o.mode == Mode::Log {
                            cmd matches AppCommand::FetchLog(n) && n@ == nm
                        } else {
                            cmd is Idle
                        },
                        Option::None => cmd is Idle,
                    }),
                    Actions::RefreshDetails => f == o && (match o.selected_name() {
                        Option::Some(nm) => if o.mode == Mode::Details {
                            cmd matches AppCommand::FetchUnitFile(n) && n@ == nm
                        } else {
                            cmd is Idle
                        },
                        Option::None => cmd is Idle,
                    }),
                    Actions::GoList => f == (Orchestrator { mode: Mode::List, ..o }) && cmd
                        is Idle,
                    Actions::ResetList => f == o && cmd is FetchList,
                    Actions::GoLog => f == (Orchestrator { mode: Mode::Log, ..o }) && (match o
                        .selected_name() {
                        Option::Some(nm) => cmd matches AppCommand::FetchLog(n) && n@ == nm,
                        Option::None => cmd is Idle,
                    }),
                    Actions::GoDetails => f == (Orchestrator { mode: Mode::Details, ..o }) && (
                    match o.selected_name() {
                        Option::Some(nm) => cmd matches AppCommand::FetchUnitFile(n) && n@ == nm,
                        Option::None => cmd is Idle,
                    }),
                    Actions::Updatelog((nm, tx)) => f == (Orchestrator {
                        log_unit: f.log_unit,
                        log_text: f.log_text,
                        ..o
                    }) && f.log_unit == nm && f.log_text == tx && cmd is Idle,
                    Actions::UpdateDetails => f == o && cmd is Idle,
                    Actions::Redraw => f == o && cmd is Idle,
                    Actions::Filter(input) => {
                        &&& f == (Orchestrator { table: f.table, ..o })
                        &&& f.table.services@ == o.table.services@
                        &&& f.table.filter_text@ == input@
                        &&& f.table.active_filter_state == o.table.active_filter_state
                        &&& f.table.show_all_units == o.table.show_all_units
                        &&& f.table.filtered_services@ == filtered_view(
                            o.table.services@,
                            input@,
                            o.table.active_filter_state,
                            o.table.show_all_units,
                        )
                        &&& f.table.selected == (if f.table.filtered_services@.len() == 0 {
                            Option::<usize>::None
                        } else {
                            Option::Some(0usize)
                        })
                        &&& cmd is Idle
                    },
                    Actions::UpdateIgnoreListKeys(b) => f == (Orchestrator {
                        ignore_key_events: b,
                        ..o
                    }) && cmd is Idle,
                    Actions::EditCurrentService => f == o && (match o.selected_name() {
                        Option::Some(nm) => cmd matches AppCommand::EditUnit(n) && n@ == nm,
                        Option::None => cmd is Idle,
                    }),
                    Actions::ShowHelp => f == (Orchestrator { show_help: !o.show_help, ..o })
                        && cmd is Idle,
                    Actions::ServiceAction(sa) => match sa {
                        ServiceAction::RefreshAll => f == o && cmd is FetchList,
                        ServiceAction::ToggleFilter => {
                            &&& f == (Orchestrator { table: f.table, ..o })
                            &&& f.table.show_all_units == !o.table.show_all_units
                            &&& f.table.services@ == o.table.services@
                            &&& f.table.filter_text@ == o.table.filter_text@
                            &&& f.table.active_filter_state == o.table.active_filter_state
                            &&& f.table.filtered_services@ == filtered_view(
                                o.table.services@,
                                o.table.filter_text@,
                                o.table.active_filter_state,
                                !o.table.show_all_units,
                            )
                            &&& cmd is FetchList
                        },
                        ServiceAction::ToggleMask => match o.table.selected {
                            Option::Some(i) => {
                                &&& f == (Orchestrator { ignore_key_events: true, ..o })
                                &&& cmd matches AppCommand::RunUnit(c, n) && n@
                                    == o.table.filtered_services@[i as int]@.name && c == (
                                if o.table.filtered_services@[i as int]@.state.file == "masked"@
                                    || o.table.filtered_services@[i as int]@.state.file
                                    == "masked-runtime"@ {
                                    UnitCommand::Unmask
                                } else {
                                    UnitCommand::Mask
                                })
                            },
                            Option::None => f == o && cmd is Idle,
                        },
                        ServiceAction::Start => Orchestrator::unit_action_dispatched(
                            o,
                            f,
                            cmd,
                            UnitCommand::Start,
                        ),
                        ServiceAction::Stop => Orchestrator::unit_action_dispatched(
                            o,
                            f,
                            cmd,
                            UnitCommand::Stop,
                        ),
                        ServiceAction::Restart => Orchestrator::unit_action_dispatched(
                            o,
                            f,
                            cmd,
                            UnitCommand::Restart,
                        ),
                        ServiceAction::Enable => Orchestrator::unit_action_dispatched(
                            o,
                            f,
                            cmd,
                            UnitCommand::Enable,
                        ),
                        ServiceAction::Disable => Orchestrator::unit_action_dispatched(
                            o,
                            f,
                            cmd,
                            UnitCommand::Disable,
                        ),
                    },
                }
            }),
    {
        match action {
            Actions::RefreshLog => {
                if matches!(self.mode, Mode::Log) {
                    match self.selected_service() {
                        Some(s) => AppCommand::FetchLog(s.name().to_owned()),
                        None => AppCommand::Idle,
                    }
                } else {
                    AppCommand::Idle
                }
            },
            Actions::RefreshDetails => {
                if matches!(self.mode, Mode::Details) {
                    match self.selected_service() {
                        Some(s) => AppCommand::FetchUnitFile(s.name().to_owned()),
                        None => AppCommand::Idle,
                    }
                } else {
                    AppCommand::Idle
                }
            },
            Actions::GoList => {
                self.mode = Mode::List;
                AppCommand::Idle
            },
            Actions::ResetList => AppCommand::FetchList,
            Actions::GoLog => {
                self.mode = Mode::Log;
                match self.selected_service() {
                    Some(s) => AppCommand::FetchLog(s.name().to_owned()),
                    None => AppCommand::Idle,
                }
            },
            Actions::GoDetails => {
                self.mode = Mode::Details;
                match self.selected_service() {
                    Some(s) => AppCommand::FetchUnitFile(s.name().to_owned()),
                    None => AppCommand::Idle,
                }
            },
            Actions::Updatelog((nm, tx)) => {
                self.log_unit = nm.clone();
                self.log_text = tx.clone();
                AppCommand::Idle
            },
            Actions::UpdateDetails => AppCommand::Idle,
            Actions::Redraw => AppCommand::Idle,
            Actions::Filter(input) => {
                self.table.set_selected_index(0);
                self.table.refresh(input.as_str());
                AppCommand::Idle
            },
            Actions::UpdateIgnoreListKeys(b) => {
                self.ignore_key_events = *b;
                AppCommand::Idle
            },
            Actions::EditCurrentService => {
                match self.selected_service() {
                    Some(s) => AppCommand::EditUnit(s.name().to_owned()),
                    None => AppCommand::Idle,
                }
            },
            Actions::ShowHelp => {
                self.show_help = !self.show_help;
                AppCommand::Idle
            },
            Actions::ServiceAction(sa) => {
                match sa {
                    ServiceAction::RefreshAll => AppCommand::FetchList,
                    ServiceAction::ToggleFilter => {
                        self.table.toggle_show_all();
                        AppCommand::FetchList
                    },
                    ServiceAction::ToggleMask => {
                        match self.selected_service() {
                            Some(s) => {
                                let c = mask_toggle_command(s.state().file());
                                self.ignore_key_events = true;
                                AppCommand::RunUnit(c, s.name().to_owned())
                            },
                            None => AppCommand::Idle,
                        }
                    },
                    ServiceAction::Start => self.dispatch_unit_action(UnitCommand::Start),
                    ServiceAction::Stop => self.dispatch_unit_action(UnitCommand::Stop),
                    ServiceAction::Restart => self.dispatch_unit_action(UnitCommand::Restart),
                    ServiceAction::Enable => self.dispatch_unit_action(UnitCommand::Enable),
                    ServiceAction::Disable => self.dispatch_unit_action(UnitCommand::Disable),
                }
            },
        }
    }

    /// A mutating action against the selection: the command goes out and key
    /// events are ignored until its result comes back.
    pub open spec fn unit_action_dispatched(
        o: Orchestrator,
        f: Orchestrator,
        cmd: AppCommand,
        c: UnitCommand,
    ) -> bool {
        match o.selected_name() {
            Option::Some(nm) => f == (Orchestrator { ignore_key_events: true, ..o }) && (
            cmd matches AppCommand::RunUnit(rc, n) && rc == c && n@ == nm),
            Option::None => f == o && cmd is Idle,
        }
    }

    fn dispatch_unit_action(&mut self, c: UnitCommand) -> (cmd: AppCommand)
        requires
            old(self).wf(),
        ensures
            final(self).wf(),
            Orchestrator::unit_action_dispatched(*old(self), *final(self), cmd, c),
    {
        match self.selected_service() {
            Some(s) => {
                self.ignore_key_events = true;
                AppCommand::RunUnit(c, s.name().to_owned())
            },
            None => AppCommand::Idle,
        }
    }

    /// A resolved action's `Service` replaces its namesake in the list (or
    /// is appended) and key events flow again.
    pub fn on_action_success(&mut self, s: Service)
        requires
            old(self).wf(),
        ensures
            final(self).wf(),
            *final(self) == (Orchestrator {
                table: final(self).table,
                ignore_key_events: false,
                ..*old(self)
            }),
            final(self).table.services@ == replace_or_append(old(self).table.services@, s),
            final(self).table.filter_text@ == old(self).table.filter_text@,
            final(self).table.active_filter_state == old(self).table.active_filter_state,
            final(self).table.show_all_units == old(self).table.show_all_units,
            final(self).table.filtered_services@ == filtered_view(
                final(self).table.services@,
                old(self).table.filter_text@,
                old(self).table.active_filter_state,
                old(self).table.show_all_units,
            ),
    {
        self.table.update_with_service(s);
        self.ignore_key_events = false;
    }

    /// A failed action only restores key handling; the error text becomes a
    /// modal outside, and no half-updated `Service` enters the list.
    pub fn on_action_error(&mut self)
        ensures
            *final(self) == (Orchestrator { ignore_key_events: false, ..*old(self) }),
    {
        self.ignore_key_events = false;
    }

    /// The outcome of a scope switch. On success the displayed scope follows
    /// the capability and the list must be resynchronized; on failure the
    /// displayed scope stays what the capability still is, and the list is
    /// not cleared. Either way the two never disagree.
    pub fn apply_scope_switch(&mut self, target: ConnectionType, switched: bool) -> (reset_list:
        bool)
        ensures
            *final(self) == (Orchestrator {
                scope: if switched {
                    target
                } else {
                    old(self).scope
                },
                ..*old(self)
            }),
            reset_list == switched,
    {
        if switched {
            self.scope = target;
        }
        switched
    }

    /// The selection moved: the runtime timestamp belongs to the previous
    /// selection and is invalidated.
    pub fn on_selection_changed(&mut self)
        ensures
            *final(self) == (Orchestrator { runtime_timestamp: Option::None, ..*old(self) }),
    {
        self.runtime_timestamp = None;
    }

    /// A tagged uptime result arrives: it is applied only when its tag still
    /// names the selected unit; a stale result is discarded silently.
    pub fn apply_runtime_timestamp(&mut self, tag: &str, timestamp: u64)
        requires
            old(self).wf(),
        ensures
            *final(self) == (Orchestrator {
                runtime_timestamp: final(self).runtime_timestamp,
                ..*old(self)
            }),
            final(self).runtime_timestamp == (match old(self).selected_name() {
                Option::Some(nm) => if nm == tag@ {
                    Option::Some(timestamp)
                } else {
                    old(self).runtime_timestamp
                },
                Option::None => old(self).runtime_timestamp,
            }),
    {
        let sel = self.selected_service();
        let apply = match &sel {
            Some(s) => accept_tagged_result(Some(s.name()), tag),
            None => false,
        };
        if apply {
            self.runtime_timestamp = Some(timestamp);
        }
    }
}

} // verus!
