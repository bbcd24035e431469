//! The panel applet: a logo button whose popup lists the configured menu.
//!
//! The applet is a state machine. [`LogoMenu::update`] takes one message and
//! returns a [`Reaction`] that the runtime carries out: a task for the popup
//! or the session, a process to start with the task to run after it, or an
//! error line to report.
use vstd::prelude::*;
use crate::menu::{
    choose_logo, logo_or_default, opt_text, power_command_text, text_or_default, text_or_empty,
    MenuItem, MenuItemType, PowerActionOption,
};
use crate::text::{contains_text, same_text, text_contains, texts};

verus! {

/// A session action that a power entry starts.
#[derive(Clone, Copy, Debug, PartialEq, Eq, Structural)]
pub enum PowerAction {
    Lock,
    LogOut,
    Suspend,
    Restart,
    Shutdown,
}

/// The settings the applet reads.
#[derive(Debug, PartialEq)]
pub struct LogoMenuConfig {
    pub custom_logo_active: bool,
    pub custom_logo_path: String,
    pub logo: String,
    pub menu_items: Vec<MenuItem>,
}

/// The applet's state. Popup windows are named by plain numbers.
#[derive(Debug)]
pub struct LogoMenu {
    pub popup: Option<u64>,
    pub config: LogoMenuConfig,
    pub is_flatpak: bool,
    pub osd_cmd: String,
}

/// What the applet is told.
#[derive(Debug, PartialEq)]
pub enum Message {
    /// The logo button was pressed.
    TogglePopup,
    /// The window system closed a popup.
    PopupClosed(u64),
    /// A launcher entry was chosen; it holds the shell command.
    Run(String),
    /// A power entry was chosen.
    Action(PowerAction),
    /// The outcome of a session request; an error holds its description.
    Zbus(Result<(), String>),
    /// The stored settings changed.
    ConfigUpdate(LogoMenuConfig),
}

/// Work for the runtime on windows and the session.
#[derive(Clone, Copy, Debug, PartialEq, Eq, Structural)]
pub enum Task {
    Nothing,
    DestroyPopup(u64),
    GetPopup(u64),
    Perform(PowerAction),
}

/// A process to start: the program and its arguments.
#[derive(Debug, PartialEq)]
pub struct Launch {
    pub program: String,
    pub args: Vec<String>,
}

/// A process to start, as texts.
pub struct LaunchView {
    pub program: Seq<char>,
    pub args: Seq<Seq<char>>,
}

impl View for Launch {
    type V = LaunchView;

    open spec fn view(&self) -> LaunchView {
        LaunchView { program: self.program@, args: texts(self.args@) }
    }
}

/// What the runtime does after an update.
#[derive(Debug, PartialEq)]
pub enum Reaction {
    /// Run the task.
    Finish(Task),
    /// Start the process; run `on_success` if it started and `on_failure` if it
    /// did not, reporting the failure first when `report_failure` is set.
    Spawn { launch: Launch, on_success: Task, on_failure: Task, report_failure: bool },
    /// Print the line as an error, then do nothing more.
    Report(String),
}

/// A reaction, as texts.
pub enum ReactionView {
    Finish(Task),
    Spawn { launch: LaunchView, on_success: Task, on_failure: Task, report_failure: bool },
    Report(Seq<char>),
}

impl View for Reaction {
    type V = ReactionView;

    open spec fn view(&self) -> ReactionView {
        match self {
            Reaction::Finish(t) => ReactionView::Finish(*t),
            Reaction::Spawn { launch, on_success, on_failure, report_failure } => ReactionView::Spawn {
                launch: launch@,
                on_success: *on_success,
                on_failure: *on_failure,
                report_failure: *report_failure,
            },
            Reaction::Report(s) => ReactionView::Report(s@),
        }
    }
}

/// The task that closes the popup, if one is open.
pub open spec fn close_task(popup: Option<u64>) -> Task {
    match popup {
        Some(p) => Task::DestroyPopup(p),
        None => Task::Nothing,
    }
}

/// The task that closes the popup, if one is open.
pub fn close_popup(popup: Option<u64>) -> (task: Task)
    ensures
        task == close_task(popup),
{
    match popup {
        Some(p) => Task::DestroyPopup(p),
        None => Task::Nothing,
    }
}

/// The host build's answer to whether the applet runs inside a Flatpak
/// sandbox: it does not. A sandboxed package decides this when it is built
/// and hands its answer to [`LogoMenu::init`] instead.
pub fn is_flatpak() -> (sandboxed: bool)
    ensures
        !sandboxed,
{
    false
}

/// The on-screen-display program: its full path on NixOS, its bare name elsewhere.
pub open spec fn osd_command_text(is_nixos: bool) -> Seq<char> {
    if is_nixos {
        "/run/current-system/sw/bin/cosmic-osd"@
    } else {
        "cosmic-osd"@
    }
}

/// The argument that asks the on-screen display to confirm an action; actions
/// that need no confirmation have none.
pub open spec fn osd_argument(action: PowerAction) -> Option<Seq<char>> {
    match action {
        PowerAction::LogOut => Some("log-out"@),
        PowerAction::Restart => Some("restart"@),
        PowerAction::Shutdown => Some("shutdown"@),
        _ => None,
    }
}

/// The process that shows the confirmation for an action.
pub open spec fn osd_launch(is_flatpak: bool, osd_cmd: Seq<char>, arg: Seq<char>) -> LaunchView {
    if is_flatpak {
        LaunchView { program: "flatpak-spawn"@, args: seq!["--host"@, osd_cmd, arg] }
    } else {
        LaunchView { program: "cosmic-osd"@, args: seq![arg] }
    }
}

/// The old name under which the settings window is launched.
pub open spec fn old_settings_name() -> Seq<char> {
    "cosmic-logomenu-settings"@
}

/// The program name of the settings window.
pub open spec fn settings_name() -> Seq<char> {
    "cosmic-ext-logomenu-settings"@
}

/// The process that runs a launcher command. In the sandbox a command runs on
/// the host through a login shell, except the settings window, which runs
/// inside; the old settings name is replaced by the current one.
pub open spec fn run_launch(is_flatpak: bool, command: Seq<char>) -> LaunchView {
    if is_flatpak && command != settings_name() && command != old_settings_name() {
        LaunchView {
            program: "flatpak-spawn"@,
            args: seq!["--host"@, "/bin/sh"@, "-c"@, "-l"@, command],
        }
    } else {
        LaunchView {
            program: "bash"@,
            args: seq![
                "-c"@,
                if command == old_settings_name() {
                    settings_name()
                } else {
                    command
                },
            ],
        }
    }
}

/// The line reported for a failed session request.
pub open spec fn bus_error_text(description: Seq<char>) -> Seq<char> {
    "cosmic-ext-applet-logomenu ERROR: '"@ + description + "'"@
}

/// The line reported when a launcher command could not be started.
pub open spec fn launch_error_text(description: Seq<char>) -> Seq<char> {
    "Error executing command: "@ + description
}

/// The line reported when a launcher command could not be started.
pub fn launch_error(description: &str) -> (line: String)
    ensures
        line@ == launch_error_text(description@),
{
    let mut line = "Error executing command: ".to_owned();
    line.append(description);
    line
}

/// Where the popup stands after a message; `fresh` names a popup to open.
pub open spec fn popup_after(popup: Option<u64>, message: Message, fresh: u64) -> Option<u64> {
    match message {
        Message::TogglePopup => match popup {
            Some(_) => None,
            None => Some(fresh),
        },
        Message::PopupClosed(id) => if popup == Some(id) {
            None
        } else {
            popup
        },
        _ => popup,
    }
}

/// What the runtime is asked to do after a message.
pub open spec fn reaction_to(
    popup: Option<u64>,
    is_flatpak: bool,
    osd_cmd: Seq<char>,
    message: Message,
    fresh: u64,
) -> ReactionView {
    match message {
        Message::TogglePopup => match popup {
            Some(p) => ReactionView::Finish(Task::DestroyPopup(p)),
            None => ReactionView::Finish(Task::GetPopup(fresh)),
        },
        Message::Action(action) => match osd_argument(action) {
            Some(arg) => ReactionView::Spawn {
                launch: osd_launch(is_flatpak, osd_cmd, arg),
                on_success: close_task(popup),
                on_failure: Task::Perform(action),
                report_failure: false,
            },
            None => ReactionView::Finish(Task::Perform(action)),
        },
        Message::Run(command) => ReactionView::Spawn {
            launch: run_launch(is_flatpak, command@),
            on_success: close_task(popup),
            on_failure: close_task(popup),
            report_failure: true,
        },
        Message::Zbus(Err(e)) => ReactionView::Report(bus_error_text(e@)),
        _ => ReactionView::Finish(Task::Nothing),
    }
}

/// What a launcher entry shows and runs, or the action a power entry starts.
#[derive(Debug, PartialEq)]
pub enum MenuEntry {
    Launch { label: String, command: String },
    Power { label: String, action: PowerAction },
    Divider,
}

/// A popup entry, as texts.
pub enum MenuEntryView {
    Launch { label: Seq<char>, command: Seq<char> },
    Power { label: Seq<char>, action: PowerAction },
    Divider,
}

impl View for MenuEntry {
    type V = MenuEntryView;

    open spec fn view(&self) -> MenuEntryView {
        match self {
            MenuEntry::Launch { label, command } => MenuEntryView::Launch {
                label: label@,
                command: command@,
            },
            MenuEntry::Power { label, action } => MenuEntryView::Power {
                label: label@,
                action: *action,
            },
            MenuEntry::Divider => MenuEntryView::Divider,
        }
    }
}

/// The session action a power entry's command names. An unknown name logs
/// out; an entry with no command shuts down.
pub open spec fn power_action_named(command: Option<Seq<char>>) -> PowerAction {
    match command {
        Some(c) => if c == "Lock"@ {
            PowerAction::Lock
        } else if c == "Logout"@ {
            PowerAction::LogOut
        } else if c == "Suspend"@ {
            PowerAction::Suspend
        } else if c == "Restart"@ {
            PowerAction::Restart
        } else if c == "Shutdown"@ {
            PowerAction::Shutdown
        } else {
            PowerAction::LogOut
        },
        None => PowerAction::Shutdown,
    }
}

/// The popup entry for a menu item; missing labels and commands show as empty.
pub open spec fn entry_for(item: MenuItem) -> MenuEntryView {
    match item.item_type {
        MenuItemType::LaunchAction => MenuEntryView::Launch {
            label: text_or_empty(item.label),
            command: text_or_empty(item.command),
        },
        MenuItemType::PowerAction => MenuEntryView::Power {
            label: text_or_empty(item.label),
            action: power_action_named(opt_text(item.command)),
        },
        MenuItemType::Divider => MenuEntryView::Divider,
    }
}

/// The session action a power entry's command names.
pub fn power_action_for(command: &Option<String>) -> (action: PowerAction)
    ensures
        action == power_action_named(opt_text(*command)),
{
    match command {
        Some(c) => {
            let c = c.as_str();
            if same_text(c, "Lock") {
                PowerAction::Lock
            } else if same_text(c, "Logout") {
                PowerAction::LogOut
            } else if same_text(c, "Suspend") {
                PowerAction::Suspend
            } else if same_text(c, "Restart") {
                PowerAction::Restart
            } else if same_text(c, "Shutdown") {
                PowerAction::Shutdown
            } else {
                PowerAction::LogOut
            }
        },
        None => PowerAction::Shutdown,
    }
}

/// The popup entry for one menu item.
pub fn menu_entry(item: &MenuItem) -> (entry: MenuEntry)
    ensures
        entry@ == entry_for(*item),
{
    match item.item_type {
        MenuItemType::LaunchAction => MenuEntry::Launch {
            label: text_or_default(&item.label),
            command: text_or_default(&item.command),
        },
        MenuItemType::PowerAction => MenuEntry::Power {
            label: text_or_default(&item.label),
            action: power_action_for(&item.command),
        },
        MenuItemType::Divider => MenuEntry::Divider,
    }
}

/// Which logo the panel button shows.
#[derive(Debug, PartialEq)]
pub enum LogoSource {
    /// An image file chosen by the user, drawn as a symbolic icon when its name says so.
    CustomFile { path: String, symbolic: bool },
    /// A logo of the built-in catalog, by name.
    Builtin(String),
}

/// The suffix that marks an image file as a symbolic icon.
pub open spec fn symbolic_marker() -> Seq<char> {
    "-symbolic.svg"@
}

impl LogoMenu {
    /// The applet's state at start: no popup, the given settings, and the
    /// on-screen-display program for the system.
    pub fn init(config: LogoMenuConfig, is_flatpak: bool, is_nixos: bool) -> (app: LogoMenu)
        ensures
            app.popup is None,
            app.config == config,
            app.is_flatpak == is_flatpak,
            app.osd_cmd@ == osd_command_text(is_nixos),
    {
        let osd_cmd = if is_nixos {
            "/run/current-system/sw/bin/cosmic-osd".to_owned()
        } else {
            "cosmic-osd".to_owned()
        };
        LogoMenu { popup: None, config, is_flatpak, osd_cmd }
    }

    /// The message sent when the window system asks to close popup `id`.
    pub fn on_close_requested(&self, id: u64) -> (message: Option<Message>)
        ensures
            message matches Some(Message::PopupClosed(closed)) && closed == id,
    {
        Some(Message::PopupClosed(id))
    }

    /// The logo on the panel button. The user's image is used when it is
    /// switched on and `custom_path_exists`; otherwise the configured logo of
    /// `catalog`, or `default_logo` (the logo of the default settings) where
    /// the catalog lacks it.
    pub fn logo_source(
        &self,
        custom_path_exists: bool,
        catalog: &Vec<String>,
        default_logo: &String,
    ) -> (source: LogoSource)
        ensures
            self.config.custom_logo_active && custom_path_exists ==> (source matches LogoSource::CustomFile { path, symbolic }
                && path@ == self.config.custom_logo_path@
                && symbolic == contains_text(path@, symbolic_marker())),
            !(self.config.custom_logo_active && custom_path_exists) ==> (source matches LogoSource::Builtin(name)
                && name@ == logo_or_default(catalog@, self.config.logo@, default_logo@)),
    {
        if self.config.custom_logo_active && custom_path_exists {
            let symbolic = text_contains(self.config.custom_logo_path.as_str(), "-symbolic.svg");
            LogoSource::CustomFile { path: self.config.custom_logo_path.clone(), symbolic }
        } else {
            LogoSource::Builtin(choose_logo(catalog, &self.config.logo, default_logo))
        }
    }

    /// The popup's entries, one for each configured menu item, in order.
    pub fn menu_entries(&self) -> (entries: Vec<MenuEntry>)
        ensures
            entries.len() == self.config.menu_items.len(),
            forall|i: int|
                0 <= i < entries.len() ==> (#[trigger] entries@[i])@ == entry_for(
                    self.config.menu_items@[i],
                ),
    {
        let items = &self.config.menu_items;
        let mut entries: Vec<MenuEntry> = Vec::new();
        let mut i: usize = 0;
        while i < items.len()
            invariant
                i <= items.len(),
                entries.len() == i,
                forall|k: int| 0 <= k < i ==> (#[trigger] entries@[k])@ == entry_for(items@[k]),
            decreases items.len() - i,
        {
            entries.push(menu_entry(&items[i]));
            i = i + 1;
        }
        entries
    }

    /// Applies one message. `fresh_popup` names the popup opened when the
    /// button is pressed while no popup is open.
    pub fn update(&mut self, message: Message, fresh_popup: u64) -> (reaction: Reaction)
        ensures
            final(self).popup == popup_after(old(self).popup, message, fresh_popup),
            final(self).config == (match message {
                Message::ConfigUpdate(config) => config,
                _ => old(self).config,
            }),
            final(self).is_flatpak == old(self).is_flatpak,
            final(self).osd_cmd == old(self).osd_cmd,
            reaction@ == reaction_to(
                old(self).popup,
                old(self).is_flatpak,
                old(self).osd_cmd@,
                message,
                fresh_popup,
            ),
    {
        match message {
            Message::TogglePopup => {
                match self.popup.take() {
                    Some(p) => Reaction::Finish(Task::DestroyPopup(p)),
                    None => {
                        self.popup = Some(fresh_popup);
                        Reaction::Finish(Task::GetPopup(fresh_popup))
                    },
                }
            },
            Message::Action(action) => {
                let arg = match action {
                    PowerAction::LogOut => "log-out",
                    PowerAction::Restart => "restart",
                    PowerAction::Shutdown => "shutdown",
                    _ => {
                        return Reaction::Finish(Task::Perform(action));
                    },
                };
                let launch = self.osd_launch(arg);
                Reaction::Spawn {
                    launch,
                    on_success: close_popup(self.popup),
                    on_failure: Task::Perform(action),
                    report_failure: false,
                }
            },
            Message::Zbus(result) => {
                match result {
                    Ok(()) => Reaction::Finish(Task::Nothing),
                    Err(e) => {
                        let mut line = "cosmic-ext-applet-logomenu ERROR: '".to_owned();
                        line.append(e.as_str());
                        line.append("'");
                        Reaction::Report(line)
                    },
                }
            },
            Message::PopupClosed(id) => {
                if self.popup == Some(id) {
                    self.popup = None;
                }
                Reaction::Finish(Task::Nothing)
            },
            Message::Run(command) => {
                let launch = self.run_launch(command);
                Reaction::Spawn {
                    launch,
                    on_success: close_popup(self.popup),
                    on_failure: close_popup(self.popup),
                    report_failure: true,
                }
            },
            Message::ConfigUpdate(config) => {
                self.config = config;
                Reaction::Finish(Task::Nothing)
            },
        }
    }

    /// The process that shows the confirmation with argument `arg`.
    fn osd_launch(&self, arg: &str) -> (launch: Launch)
        ensures
            launch@ == osd_launch(self.is_flatpak, self.osd_cmd@, arg@),
    {
        let mut args: Vec<String> = Vec::new();
        if self.is_flatpak {
            args.push("--host".to_owned());
            args.push(self.osd_cmd.clone());
            args.push(arg.to_owned());
            assert(texts(args@) =~= seq!["--host"@, self.osd_cmd@, arg@]);
            Launch { program: "flatpak-spawn".to_owned(), args }
        } else {
            args.push(arg.to_owned());
            assert(texts(args@) =~= seq![arg@]);
            Launch { program: "cosmic-osd".to_owned(), args }
        }
    }

    /// The process that runs launcher command `command`.
    fn run_launch(&self, command: String) -> (launch: Launch)
        ensures
            launch@ == run_launch(self.is_flatpak, command@),
    {
        let is_settings = same_text(command.as_str(), "cosmic-ext-logomenu-settings");
        let is_old_settings = same_text(command.as_str(), "cosmic-logomenu-settings");
        let mut args: Vec<String> = Vec::new();
        if self.is_flatpak && !is_settings && !is_old_settings {
            args.push("--host".to_owned());
            args.push("/bin/sh".to_owned());
            args.push("-c".to_owned());
            args.push("-l".to_owned());
            let ghost c = command@;
            args.push(command);
            assert(texts(args@) =~= seq!["--host"@, "/bin/sh"@, "-c"@, "-l"@, c]);
            Launch { program: "flatpak-spawn".to_owned(), args }
        } else {
            args.push("-c".to_owned());
            let ghost c = command@;
            if is_old_settings {
                args.push("cosmic-ext-logomenu-settings".to_owned());
            } else {
                args.push(command);
            }
            assert(texts(args@) =~= seq![
                "-c"@,
                if c == old_settings_name() {
                    settings_name()
                } else {
                    c
                },
            ]);
            Launch { program: "bash".to_owned(), args }
        }
    }
}

/// Pressing the button twice from a closed state opens a popup and then
/// closes that same popup, leaving none open.
pub proof fn lemma_toggle_twice_closes(first: u64, second: u64, is_flatpak: bool, osd_cmd: Seq<char>)
    ensures
        popup_after(None, Message::TogglePopup, first) == Some(first),
        popup_after(Some(first), Message::TogglePopup, second) == None::<u64>,
        reaction_to(None, is_flatpak, osd_cmd, Message::TogglePopup, first)
            == ReactionView::Finish(Task::GetPopup(first)),
        reaction_to(Some(first), is_flatpak, osd_cmd, Message::TogglePopup, second)
            == ReactionView::Finish(Task::DestroyPopup(first)),
{
}

/// Closing the open popup forgets it; closing any other popup changes nothing.
pub proof fn lemma_popup_closed(open: u64, closed: u64, fresh: u64)
    ensures
        popup_after(Some(open), Message::PopupClosed(open), fresh) == None::<u64>,
        closed != open ==> popup_after(Some(open), Message::PopupClosed(closed), fresh) == Some(
            open,
        ),
        popup_after(None, Message::PopupClosed(closed), fresh) == None::<u64>,
{
}

/// The settings window, under either of its names, always starts through
/// `bash` under its current name, also inside the sandbox.
pub proof fn lemma_settings_launch(is_flatpak: bool)
    ensures
        settings_name() == "cosmic-ext-logomenu-settings"@,
        old_settings_name() == "cosmic-logomenu-settings"@,
        run_launch(is_flatpak, old_settings_name()) == (LaunchView {
            program: "bash"@,
            args: seq!["-c"@, settings_name()],
        }),
        run_launch(is_flatpak, settings_name()) == (LaunchView {
            program: "bash"@,
            args: seq!["-c"@, settings_name()],
        }),
{
}

/// An action that needs confirmation falls back to being performed directly
/// when the confirmation cannot be shown; one that needs none is performed at
/// once. Either way the popup state is left alone.
pub proof fn lemma_action_always_reaches_session(
    action: PowerAction,
    popup: Option<u64>,
    is_flatpak: bool,
    osd_cmd: Seq<char>,
    fresh: u64,
)
    ensures
        match reaction_to(popup, is_flatpak, osd_cmd, Message::Action(action), fresh) {
            ReactionView::Spawn { on_failure, on_success, .. } => on_failure == Task::Perform(action)
                && on_success == close_task(popup),
            ReactionView::Finish(task) => task == Task::Perform(action),
            ReactionView::Report(_) => false,
        },
        popup_after(popup, Message::Action(action), fresh) == popup,
{
}

/// Inside the sandbox every launcher command other than the settings window
/// runs unchanged on the host through a login shell; outside the sandbox
/// every command other than the old settings name runs unchanged through bash.
pub proof fn lemma_run_routes(
    is_flatpak: bool,
    command: String,
    popup: Option<u64>,
    osd_cmd: Seq<char>,
    fresh: u64,
)
    ensures
        is_flatpak && command@ != settings_name() && command@ != old_settings_name() ==> reaction_to(
            popup,
            is_flatpak,
            osd_cmd,
            Message::Run(command),
            fresh,
        ) == (ReactionView::Spawn {
            launch: LaunchView {
                program: "flatpak-spawn"@,
                args: seq!["--host"@, "/bin/sh"@, "-c"@, "-l"@, command@],
            },
            on_success: close_task(popup),
            on_failure: close_task(popup),
            report_failure: true,
        }),
        !is_flatpak && command@ != old_settings_name() ==> reaction_to(
            popup,
            is_flatpak,
            osd_cmd,
            Message::Run(command),
            fresh,
        ) == (ReactionView::Spawn {
            launch: LaunchView { program: "bash"@, args: seq!["-c"@, command@] },
            on_success: close_task(popup),
            on_failure: close_task(popup),
            report_failure: true,
        }),
{
}

/// A confirmation is asked inside the sandbox from the host, naming the
/// configured on-screen-display program, and outside it from `cosmic-osd`;
/// log out, restart and shut down are confirmed, with the action performed
/// directly when the confirmation cannot start.
pub proof fn lemma_confirmation_routes(
    is_flatpak: bool,
    osd_cmd: Seq<char>,
    action: PowerAction,
    popup: Option<u64>,
    fresh: u64,
)
    ensures
        action == PowerAction::LogOut || action == PowerAction::Restart || action
            == PowerAction::Shutdown ==> (reaction_to(
            popup,
            is_flatpak,
            osd_cmd,
            Message::Action(action),
            fresh,
        ) matches ReactionView::Spawn { launch, on_success, on_failure, report_failure }
            && on_success == close_task(popup) && on_failure == Task::Perform(action)
            && !report_failure && launch.program == (if is_flatpak {
            "flatpak-spawn"@
        } else {
            "cosmic-osd"@
        }) && launch.args == (if is_flatpak {
            seq!["--host"@, osd_cmd, osd_argument(action).unwrap()]
        } else {
            seq![osd_argument(action).unwrap()]
        })),
        action == PowerAction::LogOut ==> osd_argument(action) == Some("log-out"@),
        action == PowerAction::Restart ==> osd_argument(action) == Some("restart"@),
        action == PowerAction::Shutdown ==> osd_argument(action) == Some("shutdown"@),
        action == PowerAction::Lock || action == PowerAction::Suspend ==> reaction_to(
            popup,
            is_flatpak,
            osd_cmd,
            Message::Action(action),
            fresh,
        ) == ReactionView::Finish(Task::Perform(action)),
{
}

/// The command text the settings window stores for each session option
/// starts, in the applet, the session action of the same name; the five
/// texts are the option names and differ from each other.
pub proof fn lemma_power_commands_round_trip(option: PowerActionOption)
    ensures
        power_action_named(Some(power_command_text(option))) == match option {
            PowerActionOption::Lock => PowerAction::Lock,
            PowerActionOption::Logout => PowerAction::LogOut,
            PowerActionOption::Suspend => PowerAction::Suspend,
            PowerActionOption::Restart => PowerAction::Restart,
            PowerActionOption::Shutdown => PowerAction::Shutdown,
        },
        power_command_text(PowerActionOption::Lock) == "Lock"@,
        power_command_text(PowerActionOption::Logout) == "Logout"@,
        power_command_text(PowerActionOption::Suspend) == "Suspend"@,
        power_command_text(PowerActionOption::Restart) == "Restart"@,
        power_command_text(PowerActionOption::Shutdown) == "Shutdown"@,
        forall|a: PowerActionOption, b: PowerActionOption|
            power_command_text(a) == power_command_text(b) ==> a == b,
{
    reveal_strlit("Lock");
    reveal_strlit("Logout");
    reveal_strlit("Suspend");
    reveal_strlit("Restart");
    reveal_strlit("Shutdown");
    assert("Lock"@ != "Logout"@ && "Lock"@ != "Suspend"@ && "Lock"@ != "Restart"@ && "Lock"@
        != "Shutdown"@) by {
        assert("Lock"@.len() != "Logout"@.len());
        assert("Lock"@[0] != "Suspend"@[0]);
        assert("Lock"@[0] != "Restart"@[0]);
        assert("Lock"@[0] != "Shutdown"@[0]);
    }
    assert("Logout"@ != "Suspend"@ && "Logout"@ != "Restart"@ && "Logout"@ != "Shutdown"@) by {
        assert("Logout"@[0] != "Suspend"@[0]);
        assert("Logout"@[0] != "Restart"@[0]);
        assert("Logout"@[0] != "Shutdown"@[0]);
    }
    assert("Suspend"@ != "Restart"@ && "Suspend"@ != "Shutdown"@) by {
        assert("Suspend"@[0] != "Restart"@[0]);
        assert("Suspend"@[1] != "Shutdown"@[1]);
    }
    assert("Restart"@ != "Shutdown"@) by {
        assert("Restart"@[0] != "Shutdown"@[0]);
    }
}

/// On NixOS the on-screen display is started by its full system path; elsewhere
/// by its name.
pub proof fn lemma_osd_program(is_nixos: bool)
    ensures
        is_nixos ==> osd_command_text(is_nixos) == "/run/current-system/sw/bin/cosmic-osd"@,
        !is_nixos ==> osd_command_text(is_nixos) == "cosmic-osd"@,
{
}

/// A failed session request is reported as one line that quotes its
/// description after the applet's name; a successful one asks for nothing.
pub proof fn lemma_bus_reports(
    description: String,
    popup: Option<u64>,
    is_flatpak: bool,
    osd_cmd: Seq<char>,
    fresh: u64,
)
    ensures
        reaction_to(popup, is_flatpak, osd_cmd, Message::Zbus(Err(description)), fresh)
            == ReactionView::Report("cosmic-ext-applet-logomenu ERROR: '"@ + description@ + "'"@),
        reaction_to(popup, is_flatpak, osd_cmd, Message::Zbus(Ok(())), fresh)
            == ReactionView::Finish(Task::Nothing),
        launch_error_text(description@) == "Error executing command: "@ + description@,
{
}

/// A power entry without a command shuts down, and one whose command names
/// none of the five actions logs out.
pub proof fn lemma_power_names_fallback(command: Seq<char>)
    ensures
        power_action_named(None) == PowerAction::Shutdown,
        command != "Lock"@ && command != "Logout"@ && command != "Suspend"@ && command
            != "Restart"@ && command != "Shutdown"@ ==> power_action_named(Some(command))
            == PowerAction::LogOut,
{
}

/// Each popup entry is of the kind of its item: a launcher shows the item's
/// label and runs its command, empty where missing; a power entry shows the
/// label and starts the action its command names; a separator shows a line.
pub proof fn lemma_entry_kinds(item: MenuItem)
    ensures
        item.item_type == MenuItemType::LaunchAction ==> entry_for(item) == (MenuEntryView::Launch {
            label: text_or_empty(item.label),
            command: text_or_empty(item.command),
        }),
        item.item_type == MenuItemType::PowerAction ==> entry_for(item) == (MenuEntryView::Power {
            label: text_or_empty(item.label),
            action: power_action_named(opt_text(item.command)),
        }),
        item.item_type == MenuItemType::Divider ==> entry_for(item) == MenuEntryView::Divider,
        item.label is None ==> text_or_empty(item.label) == Seq::<char>::empty(),
{
}

/// A user's image is drawn as symbolic exactly when its path contains
/// "-symbolic.svg"; a built-in logo is the configured one when the catalog
/// lists it and the fallback otherwise.
pub proof fn lemma_logo_choice(
    path: Seq<char>,
    catalog: Seq<String>,
    wanted: Seq<char>,
    fallback: Seq<char>,
)
    ensures
        symbolic_marker() == "-symbolic.svg"@,
        texts(catalog).contains(wanted) ==> logo_or_default(catalog, wanted, fallback) == wanted,
        !texts(catalog).contains(wanted) ==> logo_or_default(catalog, wanted, fallback)
            == fallback,
        texts(catalog).contains(logo_or_default(catalog, wanted, fallback))
            || logo_or_default(catalog, wanted, fallback) == fallback,
{
}

} // verus!
