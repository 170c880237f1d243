//! The application reducer: it owns all dashboard state, consumes messages
//! one at a time, reports whether a redraw is required, and routes raw input
//! events to messages.
use vstd::prelude::*;
use std::sync::Arc;
use std::sync::atomic::AtomicBool;
use std::sync::atomic::Ordering;

pub mod data_farmer;
pub mod data_harvester;
pub mod event;
pub mod frozen_state;
pub mod layout_manager;
mod terminator;
pub mod widgets;

use crate::Pid;
use crate::constants::STALE_MAX_MILLISECONDS;
use crate::units::DataUnit;
use data_farmer::DataCollection;
use data_farmer::cleaned;
use data_harvester::Data;
use data_harvester::TemperatureType;
use event::Event;
use event::KeyCode;
use event::KeyEvent;
use event::KeyModifiers;
use event::MultiKey;
use event::MultiKeyResult;
use event::Status;
use frozen_state::FrozenState;
use layout_manager::LayoutCreationOutput;
use terminator::clone_flag;
use terminator::set_termination_handler;
use widgets::BottomWidgetType;

verus! {

/// How a graph axis scales its values.
#[derive(Clone, Copy, Debug, PartialEq, Eq)]
pub enum AxisScaling {
    Log,
    Linear,
}

/// The set of widget categories enabled by the resolved layout, derived
/// once at startup and read-only afterward.
#[derive(Clone, Copy, Debug, PartialEq, Eq, Default)]
pub struct UsedWidgets {
    pub use_cpu: bool,
    pub use_mem: bool,
    pub use_net: bool,
    pub use_proc: bool,
    pub use_disk: bool,
    pub use_temp: bool,
    pub use_battery: bool,
}

impl UsedWidgets {
    /// The flags after enabling the category that `widget_type` belongs to;
    /// kinds outside every category (legends, search and sort panes, spacing)
    /// enable nothing.
    pub open spec fn add_spec(self, widget_type: BottomWidgetType) -> UsedWidgets {
        match widget_type {
            BottomWidgetType::Cpu | BottomWidgetType::BasicCpu => UsedWidgets {
                use_cpu: true,
                ..self
            },
            BottomWidgetType::Mem | BottomWidgetType::BasicMem => UsedWidgets {
                use_mem: true,
                ..self
            },
            BottomWidgetType::Net | BottomWidgetType::BasicNet => UsedWidgets {
                use_net: true,
                ..self
            },
            BottomWidgetType::Proc => UsedWidgets { use_proc: true, ..self },
            BottomWidgetType::Temp => UsedWidgets { use_temp: true, ..self },
            BottomWidgetType::Disk => UsedWidgets { use_disk: true, ..self },
            BottomWidgetType::Battery => UsedWidgets { use_battery: true, ..self },
            _ => self,
        }
    }

    /// Enables the widget category that `widget_type` belongs to; every
    /// other flag is kept.
    pub fn add(&mut self, widget_type: &BottomWidgetType)
        ensures
            *final(self) == old(self).add_spec(*widget_type),
    {
        match widget_type {
            BottomWidgetType::Cpu | BottomWidgetType::BasicCpu => {
                self.use_cpu = true;
            }
            BottomWidgetType::Mem | BottomWidgetType::BasicMem => {
                self.use_mem = true;
            }
            BottomWidgetType::Net | BottomWidgetType::BasicNet => {
                self.use_net = true;
            }
            BottomWidgetType::Proc => {
                self.use_proc = true;
            }
            BottomWidgetType::Temp => {
                self.use_temp = true;
            }
            BottomWidgetType::Disk => {
                self.use_disk = true;
            }
            BottomWidgetType::Battery => {
                self.use_battery = true;
            }
            _ => {}
        }
    }
}

/// Basic fields that would normally be set by config files or launch
/// options; immutable for the process lifetime.
#[derive(Clone, Copy, Debug, PartialEq, Eq)]
pub struct AppConfigFields {
    pub update_rate_in_milliseconds: u64,
    pub temperature_type: TemperatureType,
    pub use_dot: bool,
    pub left_legend: bool,
    pub show_average_cpu: bool,
    pub use_current_cpu_total: bool,
    pub use_basic_mode: bool,
    pub default_time_value: u64,
    pub time_interval: u64,
    pub hide_time: bool,
    pub autohide_time: bool,
    pub use_old_network_legend: bool,
    pub table_gap: bool,
    pub disable_click: bool,
    pub no_write: bool,
    pub show_table_scroll_position: bool,
    pub is_advanced_kill: bool,
    pub network_unit_type: DataUnit,
    pub network_scale_type: AxisScaling,
    pub network_use_binary_prefix: bool,
}

/// Which screen the dashboard currently shows.
#[derive(Clone, Copy, Debug, PartialEq, Eq)]
pub enum CurrentScreen {
    Main,
    Expanded,
    Help,
    Delete,
}

impl Default for CurrentScreen {
    /// The dashboard starts on the main screen.
    fn default() -> (screen: CurrentScreen)
        ensures
            screen is Main,
    {
        CurrentScreen::Main
    }
}

/// Every externally or internally generated event the reducer must process.
/// Messages are immutable once created and are consumed exactly once.
#[derive(Debug)]
pub enum AppMessages {
    /// A newly harvested snapshot to ingest.
    Update(Box<Data>),
    /// Show the help screen.
    OpenHelp,
    /// Ask for confirmation before killing these processes. The
    /// confirmation flow is an external collaborator; the reducer only
    /// requests a redraw.
    ConfirmKillProcess { to_kill: Vec<Pid> },
    /// Kill these processes with the given signal. Execution is an external
    /// collaborator's job; the reducer only requests a redraw.
    KillProcess { to_kill: Vec<Pid>, signal: Option<i32> },
    /// Freeze the rendered data, or thaw it if frozen.
    ToggleFreeze,
    /// Restore the default state.
    Reset,
    /// Evict stale data points; runs on a timer.
    Clean,
    /// Stop the main loop.
    Quit,
}

/// Which messages require a redraw: all but the timer-driven clean pass and
/// the quit request (the main loop terminates instead of repainting).
pub open spec fn redraw_required(message: AppMessages) -> bool {
    !(message is Clean) && !(message is Quit)
}

/// Whether termination stands requested after `message`, given whether it
/// was requested before: Quit requests it and nothing revokes it.
pub open spec fn termination_after(requested_before: bool, message: AppMessages) -> bool {
    requested_before || message is Quit
}

/// Law: the termination request is monotonic across the reducer; no message
/// revokes a standing request.
pub proof fn lemma_termination_monotonic(requested_before: bool, message: AppMessages)
    ensures
        requested_before ==> termination_after(requested_before, message),
{
}

/// The messages the static keybinding tables emit for one raw event: an
/// unmodified 'q' quits; control+'c' quits; control+'r' resets; everything
/// else, mouse events included, emits nothing.
pub open spec fn handled_messages(event: Event) -> Seq<AppMessages> {
    match event {
        Event::Keyboard(key_event) => match key_event.modifiers {
            KeyModifiers::Empty => match key_event.code {
                KeyCode::Char(c) => if c == 'q' || c == 'Q' {
                    seq![AppMessages::Quit]
                } else {
                    Seq::empty()
                },
                KeyCode::Other => Seq::empty(),
            },
            KeyModifiers::Control => match key_event.code {
                KeyCode::Char(c) => if c == 'c' || c == 'C' {
                    seq![AppMessages::Quit]
                } else if c == 'r' || c == 'R' {
                    seq![AppMessages::Reset]
                } else {
                    Seq::empty()
                },
                KeyCode::Other => Seq::empty(),
            },
            KeyModifiers::Other => Seq::empty(),
        },
        Event::Mouse => Seq::empty(),
    }
}

/// An event is captured by the static tables exactly when they emit a
/// message for it.
pub open spec fn handled_status(event: Event) -> Status {
    if handled_messages(event).len() > 0 {
        Status::Captured
    } else {
        Status::Ignored
    }
}

/// The character fed to the sequence recognizers: the one an unmodified
/// printable key carries. Modified keys and mouse events feed none.
pub open spec fn routed_char(event: Event) -> Option<char> {
    match event {
        Event::Keyboard(key_event) => match key_event.code {
            KeyCode::Char(c) => if key_event.modifiers is Empty {
                Some(c)
            } else {
                None
            },
            KeyCode::Other => None,
        },
        Event::Mouse => None,
    }
}

/// Whether any recognizer in `recognizers` completes its pattern on `c`
/// typed at `now_millis`.
pub open spec fn any_completed(recognizers: Seq<MultiKey>, c: char, now_millis: u64) -> bool {
    exists|i: int|
        0 <= i < recognizers.len() && (#[trigger] recognizers[i]).step(
            c,
            now_millis,
        ).1 is Completed
}

/// The router's verdict once sequence recognition is taken into account: an
/// event is captured if the static tables handle it or any recognizer
/// completes on its character.
pub open spec fn route_status(event: Event, recognizers: Seq<MultiKey>, now_millis: u64) -> Status {
    if handled_status(event) is Captured || (routed_char(event) matches Some(c)
        && any_completed(recognizers, c, now_millis)) {
        Status::Captured
    } else {
        Status::Ignored
    }
}

/// Law: an unmodified 'q' or 'Q' keystroke is always captured and yields
/// exactly one Quit message.
pub proof fn lemma_quit_key_captured(key_event: KeyEvent)
    requires
        key_event.modifiers is Empty,
        key_event.code matches KeyCode::Char(c) && (c == 'q' || c == 'Q'),
    ensures
        handled_status(Event::Keyboard(key_event)) is Captured,
        handled_messages(Event::Keyboard(key_event)) == seq![AppMessages::Quit],
{
}

/// Law: control+'r' is captured with exactly one Reset message.
pub proof fn lemma_control_r_resets(key_event: KeyEvent)
    requires
        key_event.modifiers is Control,
        key_event.code matches KeyCode::Char(c) && (c == 'r' || c == 'R'),
    ensures
        handled_status(Event::Keyboard(key_event)) is Captured,
        handled_messages(Event::Keyboard(key_event)) == seq![AppMessages::Reset],
{
}

/// Law: a control chord outside the table (so not 'c'/'C' or 'r'/'R') is
/// ignored and emits no message.
pub proof fn lemma_control_unmapped_ignored(key_event: KeyEvent)
    requires
        key_event.modifiers is Control,
        key_event.code matches KeyCode::Char(c) ==> !(c == 'c' || c == 'C' || c == 'r' || c
            == 'R'),
    ensures
        handled_status(Event::Keyboard(key_event)) is Ignored,
        handled_messages(Event::Keyboard(key_event)) == Seq::<AppMessages>::empty(),
{
}

/// Construction failures; these abort application startup.
#[derive(Clone, Copy, Debug, PartialEq, Eq)]
pub enum AppError {
    /// The OS interrupt handler could not be registered, for instance
    /// because one is already installed. Without it the application cannot
    /// observe interrupts, so it must not start.
    TerminatorRegistration,
}

/// All dashboard state, owned exclusively by the reducer on the main
/// thread. The termination flag's storage is shared with the OS interrupt
/// handler, which only ever stores true.
pub struct AppState {
    pub data_collection: DataCollection,
    pub used_widgets: UsedWidgets,
    pub app_config_fields: AppConfigFields,
    pub frozen_state: FrozenState,
    pub current_screen: CurrentScreen,
    pub terminator: Arc<AtomicBool>,
    /// The reducer's own record of a quit request: set by Quit, never
    /// cleared. The shared flag can additionally be set by the interrupt
    /// handler at any time.
    pub quit_requested: bool,
}

impl AppState {
    /// Which screen the dashboard shows.
    pub open spec fn spec_screen(self) -> CurrentScreen {
        self.current_screen
    }

    /// Whether (and what) the view renders instead of the live data.
    pub open spec fn spec_frozen(self) -> FrozenState {
        self.frozen_state
    }

    /// Whether this reducer has processed a Quit message. The OS interrupt
    /// handler can request termination too, through the shared flag, which
    /// no specification of this core observes synchronously.
    pub open spec fn termination_requested(self) -> bool {
        self.quit_requested
    }

    /// Creates the state from validated configuration and the resolved
    /// layout, around a caller-supplied shared termination flag.
    pub fn with_terminator(
        app_config_fields: AppConfigFields,
        layout_tree_output: LayoutCreationOutput,
        terminator: Arc<AtomicBool>,
    ) -> (app: AppState)
        ensures
            app.app_config_fields == app_config_fields,
            app.used_widgets == layout_tree_output.used_widgets,
            app.data_collection.data@.len() == 0,
            app.data_collection.current_time == 0,
            app.spec_frozen() is NotFrozen,
            app.spec_screen() is Main,
            !app.termination_requested(),
            app.terminator == terminator,
    {
        let data_collection: DataCollection = Default::default();
        let current_screen: CurrentScreen = Default::default();
        AppState {
            data_collection,
            used_widgets: layout_tree_output.used_widgets,
            app_config_fields,
            frozen_state: FrozenState::NotFrozen,
            current_screen,
            terminator,
            quit_requested: false,
        }
    }

    /// Creates a new AppState from validated configuration and the resolved
    /// layout, and registers the OS interrupt handler. A registration
    /// failure is fatal to startup and is surfaced to the caller.
    pub fn new(
        app_config_fields: AppConfigFields,
        layout_tree_output: LayoutCreationOutput,
    ) -> (result: Result<AppState, AppError>)
        ensures
            result matches Ok(app) ==> {
                &&& app.app_config_fields == app_config_fields
                &&& app.used_widgets == layout_tree_output.used_widgets
                &&& app.data_collection.data@.len() == 0
                &&& app.data_collection.current_time == 0
                &&& app.spec_frozen() is NotFrozen
                &&& app.spec_screen() is Main
                &&& !app.termination_requested()
            },
            result matches Err(error) ==> error is TerminatorRegistration,
    {
        match Self::register_terminator() {
            Ok(terminator) => Ok(
                Self::with_terminator(app_config_fields, layout_tree_output, terminator),
            ),
            Err(error) => Err(error),
        }
    }

    /// Creates the shared termination flag, false initially, and installs
    /// the OS interrupt handler that sets it.
    fn register_terminator() -> (result: Result<Arc<AtomicBool>, AppError>)
        ensures
            result matches Err(error) ==> error is TerminatorRegistration,
    {
        let flag = Arc::new(AtomicBool::new(false));
        let handler_flag = clone_flag(&flag);
        match set_termination_handler(handler_flag) {
            Ok(_) => Ok(flag),
            Err(_) => Err(AppError::TerminatorRegistration),
        }
    }

    /// Moves to `screen_type`; every other part of the state is kept.
    fn set_current_screen(&mut self, screen_type: CurrentScreen)
        ensures
            final(self).spec_screen() == screen_type,
            final(self).data_collection == old(self).data_collection,
            final(self).used_widgets == old(self).used_widgets,
            final(self).app_config_fields == old(self).app_config_fields,
            final(self).spec_frozen() == old(self).spec_frozen(),
            final(self).termination_requested() == old(self).termination_requested(),
            final(self).terminator == old(self).terminator,
    {
        self.current_screen = screen_type;
    }

    /// Applies one message to the state and reports whether a redraw is
    /// required. ConfirmKillProcess and KillProcess are handed off to
    /// external collaborators, and the screen transitions beyond Help, like
    /// Reset's scope, await product decisions: those handlers are an
    /// explicit no-op on the core state, yet still request a redraw.
    pub fn update(&mut self, message: AppMessages) -> (redraw: bool)
        ensures
            redraw == redraw_required(message),
            final(self).termination_requested() == termination_after(
                old(self).termination_requested(),
                message,
            ),
            old(self).termination_requested() ==> final(self).termination_requested(),
            final(self).spec_screen() == (if message is OpenHelp {
                CurrentScreen::Help
            } else {
                old(self).spec_screen()
            }),
            message is ToggleFreeze ==> {
                &&& final(self).spec_frozen().is_frozen() == !old(self).spec_frozen().is_frozen()
                &&& old(self).spec_frozen() is NotFrozen ==> (final(self).spec_frozen()
                    matches FrozenState::Frozen(copy)
                    && copy.data@ == old(self).data_collection.data@
                    && copy.current_time == old(self).data_collection.current_time)
            },
            !(message is ToggleFreeze) ==> final(self).spec_frozen() == old(self).spec_frozen(),
            message matches AppMessages::Update(new_data) ==> {
                &&& final(self).data_collection.data@ == old(self).data_collection.data@.push(
                    *new_data,
                )
                &&& final(self).data_collection.current_time == new_data.collection_time
            },
            message is Clean ==> {
                &&& final(self).data_collection.current_time
                    == old(self).data_collection.current_time
                &&& final(self).data_collection.data@ == cleaned(
                    old(self).data_collection.data@,
                    old(self).data_collection.current_time,
                    STALE_MAX_MILLISECONDS,
                )
            },
            (!(message is Update) && !(message is Clean))
                ==> final(self).data_collection == old(self).data_collection,
            message is Clean ==> {
                &&& final(self).spec_screen() == old(self).spec_screen()
                &&& final(self).spec_frozen() == old(self).spec_frozen()
                &&& final(self).termination_requested() == old(self).termination_requested()
            },
            final(self).used_widgets == old(self).used_widgets,
            final(self).app_config_fields == old(self).app_config_fields,
            final(self).terminator == old(self).terminator,
    {
        match message {
            AppMessages::Update(new_data) => {
                self.data_collection.eat_data(new_data);
                true
            }
            AppMessages::OpenHelp => {
                self.set_current_screen(CurrentScreen::Help);
                true
            }
            AppMessages::ConfirmKillProcess { .. } => true,
            AppMessages::KillProcess { .. } => true,
            AppMessages::ToggleFreeze => {
                self.frozen_state.toggle(&self.data_collection);
                true
            }
            AppMessages::Clean => {
                self.data_collection.clean_data(STALE_MAX_MILLISECONDS);
                false
            }
            AppMessages::Quit => {
                self.terminator.store(true, Ordering::SeqCst);
                self.quit_requested = true;
                false
            }
            AppMessages::Reset => true,
        }
    }

    /// The termination verdict for one observed value of the shared flag:
    /// the loop must stop exactly when this reducer has requested it or the
    /// flag was found set.
    pub fn termination_decision(quit_requested: bool, flag_value: bool) -> (terminated: bool)
        ensures
            terminated == (quit_requested || flag_value),
    {
        quit_requested || flag_value
    }

    /// Reads the termination flag non-destructively. True is owed whenever
    /// this reducer has processed Quit; the shared flag's value depends on
    /// whether the OS interrupt handler has run, so the verdict on whatever
    /// was loaded is `termination_decision`.
    pub fn is_terminated(&self) -> (terminated: bool)
        ensures
            self.termination_requested() ==> terminated,
    {
        let flag_value = self.terminator.load(Ordering::SeqCst);
        Self::termination_decision(self.quit_requested, flag_value)
    }

    /// The data source the view must render: the frozen copy while frozen,
    /// the live collection otherwise.
    pub fn effective_data(&self) -> (data: &DataCollection)
        ensures
            self.spec_frozen() matches FrozenState::Frozen(copy) ==> *data == copy,
            self.spec_frozen() is NotFrozen ==> *data == self.data_collection,
    {
        match &self.frozen_state {
            FrozenState::NotFrozen => &self.data_collection,
            FrozenState::Frozen(frozen_data_collection) => frozen_data_collection,
        }
    }

    /// The single message the static keybinding tables emit for `event`, if
    /// any.
    fn handled_message_for(event: Event) -> (emitted: Option<AppMessages>)
        ensures
            emitted matches Some(message) ==> handled_messages(event) == seq![message],
            emitted is None ==> handled_messages(event) == Seq::<AppMessages>::empty(),
    {
        match event {
            Event::Keyboard(key_event) => match key_event.modifiers {
                KeyModifiers::Empty => match key_event.code {
                    KeyCode::Char(c) => if c == 'q' || c == 'Q' {
                        Some(AppMessages::Quit)
                    } else {
                        None
                    },
                    KeyCode::Other => None,
                },
                KeyModifiers::Control => match key_event.code {
                    KeyCode::Char(c) => if c == 'c' || c == 'C' {
                        Some(AppMessages::Quit)
                    } else if c == 'r' || c == 'R' {
                        Some(AppMessages::Reset)
                    } else {
                        None
                    },
                    KeyCode::Other => None,
                },
                KeyModifiers::Other => None,
            },
            Event::Mouse => None,
        }
    }

    /// Applies the static keybinding tables to one raw event, appending the
    /// emitted messages, and reports whether the event was captured.
    pub fn global_event_handler(&self, event: Event, messages: &mut Vec<AppMessages>) -> (status:
        Status)
        ensures
            final(messages)@ == old(messages)@ + handled_messages(event),
            status == handled_status(event),
    {
        match Self::handled_message_for(event) {
            Some(message) => {
                proof {
                    assert(old(messages)@.push(message) =~= old(messages)@ + seq![message]);
                }
                messages.push(message);
                Status::Captured
            }
            None => {
                proof {
                    assert(old(messages)@ =~= old(messages)@ + Seq::<AppMessages>::empty());
                }
                Status::Ignored
            }
        }
    }

    /// Routes one raw event: applies the static tables, then feeds an
    /// unmodified character key to every registered sequence recognizer. A
    /// completed sequence captures the event even when no static shortcut
    /// matched.
    pub fn route(
        &self,
        event: Event,
        recognizers: &mut Vec<MultiKey>,
        now_millis: u64,
        messages: &mut Vec<AppMessages>,
    ) -> (status: Status)
        requires
            forall|i: int|
                0 <= i < old(recognizers)@.len() ==> (#[trigger] old(recognizers)@[i]).wf(),
        ensures
            final(messages)@ == old(messages)@ + handled_messages(event),
            final(recognizers)@.len() == old(recognizers)@.len(),
            forall|i: int|
                0 <= i < final(recognizers)@.len() ==> (#[trigger] final(recognizers)@[i]).wf(),
            routed_char(event) matches Some(c) ==> forall|i: int|
                0 <= i < final(recognizers)@.len()
                    ==> ((#[trigger] final(recognizers)@[i]).spec_state()
                            == old(recognizers)@[i].step(c, now_millis).0
                        && final(recognizers)@[i].spec_pattern()
                            == old(recognizers)@[i].spec_pattern()
                        && final(recognizers)@[i].spec_timeout()
                            == old(recognizers)@[i].spec_timeout()),
            routed_char(event) is None ==> final(recognizers)@ == old(recognizers)@,
            status == route_status(event, old(recognizers)@, now_millis),
    {
        let static_status = self.global_event_handler(event, messages);
        let fed: Option<char> = match event {
            Event::Keyboard(key_event) => match key_event.code {
                KeyCode::Char(c) => match key_event.modifiers {
                    KeyModifiers::Empty => Some(c),
                    _ => None,
                },
                KeyCode::Other => None,
            },
            Event::Mouse => None,
        };
        if let Some(c) = fed {
            let ghost original = recognizers@;
            let mut sequence_completed = false;
            let mut i: usize = 0;
            let n = recognizers.len();
            while i < n
                invariant
                    i <= n,
                    n == recognizers@.len(),
                    recognizers@.len() == original.len(),
                    forall|j: int| i <= j < n ==> recognizers@[j] == original[j],
                    forall|j: int| 0 <= j < original.len() ==> (#[trigger] original[j]).wf(),
                    forall|j: int|
                        0 <= j < i ==> ((#[trigger] recognizers@[j]).wf()
                            && recognizers@[j].spec_state() == original[j].step(c, now_millis).0
                            && recognizers@[j].spec_pattern() == original[j].spec_pattern()
                            && recognizers@[j].spec_timeout() == original[j].spec_timeout()),
                    sequence_completed == exists|j: int|
                        0 <= j < i && (#[trigger] original[j]).step(c, now_millis).1 is Completed,
                decreases n - i,
            {
                let recognizer = &mut recognizers[i];
                let verdict = recognizer.input(c, now_millis);
                match verdict {
                    MultiKeyResult::Completed => {
                        sequence_completed = true;
                    }
                    _ => {}
                }
                i += 1;
            }
            if matches!(static_status, Status::Captured) || sequence_completed {
                Status::Captured
            } else {
                Status::Ignored
            }
        } else {
            static_status
        }
    }
}

} // verus!
