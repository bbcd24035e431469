use logomenu::applet::{
    close_popup, is_flatpak, launch_error, Launch, LogoMenu, LogoMenuConfig, LogoSource,
    MenuEntry, Message, PowerAction, Reaction, Task,
};
use logomenu::menu::{MenuItem, MenuItemType};

fn item(t: MenuItemType, label: Option<&str>, command: Option<&str>) -> MenuItem {
    MenuItem {
        item_type: t,
        label: label.map(|s| s.to_string()),
        command: command.map(|s| s.to_string()),
    }
}

fn config() -> LogoMenuConfig {
    LogoMenuConfig {
        custom_logo_active: false,
        custom_logo_path: String::new(),
        logo: "Arch".to_string(),
        menu_items: vec![
            item(MenuItemType::LaunchAction, Some("Terminal"), Some("cosmic-term")),
            item(MenuItemType::Divider, None, None),
            item(MenuItemType::PowerAction, Some("Lock"), Some("Lock")),
        ],
    }
}

fn launch(program: &str, args: &[&str]) -> Launch {
    Launch { program: program.to_string(), args: args.iter().map(|s| s.to_string()).collect() }
}

#[test]
fn not_built_for_flatpak() {
    assert!(!is_flatpak());
}

#[test]
fn init_picks_the_osd_program() {
    let nix = LogoMenu::init(config(), false, true);
    assert_eq!(nix.osd_cmd, "/run/current-system/sw/bin/cosmic-osd");
    assert_eq!(nix.popup, None);
    let other = LogoMenu::init(config(), true, false);
    assert_eq!(other.osd_cmd, "cosmic-osd");
    assert!(other.is_flatpak);
    assert_eq!(other.config, config());
}

#[test]
fn close_popup_destroys_only_an_open_popup() {
    assert_eq!(close_popup(Some(4)), Task::DestroyPopup(4));
    assert_eq!(close_popup(None), Task::Nothing);
}

#[test]
fn toggle_twice_opens_then_closes_the_same_popup() {
    let mut app = LogoMenu::init(config(), false, false);
    assert_eq!(app.update(Message::TogglePopup, 7), Reaction::Finish(Task::GetPopup(7)));
    assert_eq!(app.popup, Some(7));
    assert_eq!(app.update(Message::TogglePopup, 8), Reaction::Finish(Task::DestroyPopup(7)));
    assert_eq!(app.popup, None);
}

#[test]
fn popup_closed_forgets_only_the_open_popup() {
    let mut app = LogoMenu::init(config(), false, false);
    app.update(Message::TogglePopup, 3);
    assert_eq!(app.update(Message::PopupClosed(9), 0), Reaction::Finish(Task::Nothing));
    assert_eq!(app.popup, Some(3));
    app.update(Message::PopupClosed(3), 0);
    assert_eq!(app.popup, None);
    app.update(Message::PopupClosed(3), 0);
    assert_eq!(app.popup, None);
}

#[test]
fn on_close_requested_reports_the_popup() {
    let app = LogoMenu::init(config(), false, false);
    assert_eq!(app.on_close_requested(5), Some(Message::PopupClosed(5)));
}

#[test]
fn confirmed_actions_go_through_the_osd() {
    let mut app = LogoMenu::init(config(), false, false);
    app.update(Message::TogglePopup, 2);
    assert_eq!(
        app.update(Message::Action(PowerAction::LogOut), 0),
        Reaction::Spawn {
            launch: launch("cosmic-osd", &["log-out"]),
            on_success: Task::DestroyPopup(2),
            on_failure: Task::Perform(PowerAction::LogOut),
            report_failure: false,
        }
    );
    assert_eq!(app.popup, Some(2));
    let mut sandboxed = LogoMenu::init(config(), true, true);
    assert_eq!(
        sandboxed.update(Message::Action(PowerAction::Shutdown), 0),
        Reaction::Spawn {
            launch: launch(
                "flatpak-spawn",
                &["--host", "/run/current-system/sw/bin/cosmic-osd", "shutdown"]
            ),
            on_success: Task::Nothing,
            on_failure: Task::Perform(PowerAction::Shutdown),
            report_failure: false,
        }
    );
    assert_eq!(
        sandboxed.update(Message::Action(PowerAction::Restart), 0),
        Reaction::Spawn {
            launch: launch("flatpak-spawn", &["--host", "/run/current-system/sw/bin/cosmic-osd", "restart"]),
            on_success: Task::Nothing,
            on_failure: Task::Perform(PowerAction::Restart),
            report_failure: false,
        }
    );
}

#[test]
fn unconfirmed_actions_are_performed_at_once() {
    let mut app = LogoMenu::init(config(), true, false);
    app.update(Message::TogglePopup, 1);
    assert_eq!(
        app.update(Message::Action(PowerAction::Lock), 0),
        Reaction::Finish(Task::Perform(PowerAction::Lock))
    );
    assert_eq!(
        app.update(Message::Action(PowerAction::Suspend), 0),
        Reaction::Finish(Task::Perform(PowerAction::Suspend))
    );
    assert_eq!(app.popup, Some(1));
}

#[test]
fn run_uses_bash_outside_the_sandbox() {
    let mut app = LogoMenu::init(config(), false, false);
    app.update(Message::TogglePopup, 6);
    assert_eq!(
        app.update(Message::Run("firefox --new-window".to_string()), 0),
        Reaction::Spawn {
            launch: launch("bash", &["-c", "firefox --new-window"]),
            on_success: Task::DestroyPopup(6),
            on_failure: Task::DestroyPopup(6),
            report_failure: true,
        }
    );
    assert_eq!(
        app.update(Message::Run("cosmic-logomenu-settings".to_string()), 0),
        Reaction::Spawn {
            launch: launch("bash", &["-c", "cosmic-ext-logomenu-settings"]),
            on_success: Task::DestroyPopup(6),
            on_failure: Task::DestroyPopup(6),
            report_failure: true,
        }
    );
}

#[test]
fn run_goes_to_the_host_inside_the_sandbox() {
    let mut app = LogoMenu::init(config(), true, false);
    assert_eq!(
        app.update(Message::Run("firefox".to_string()), 0),
        Reaction::Spawn {
            launch: launch("flatpak-spawn", &["--host", "/bin/sh", "-c", "-l", "firefox"]),
            on_success: Task::Nothing,
            on_failure: Task::Nothing,
            report_failure: true,
        }
    );
    assert_eq!(
        app.update(Message::Run("cosmic-ext-logomenu-settings".to_string()), 0),
        Reaction::Spawn {
            launch: launch("bash", &["-c", "cosmic-ext-logomenu-settings"]),
            on_success: Task::Nothing,
            on_failure: Task::Nothing,
            report_failure: true,
        }
    );
    assert_eq!(
        app.update(Message::Run("cosmic-logomenu-settings".to_string()), 0),
        Reaction::Spawn {
            launch: launch("bash", &["-c", "cosmic-ext-logomenu-settings"]),
            on_success: Task::Nothing,
            on_failure: Task::Nothing,
            report_failure: true,
        }
    );
}

#[test]
fn bus_errors_are_reported() {
    let mut app = LogoMenu::init(config(), false, false);
    assert_eq!(
        app.update(Message::Zbus(Err("no session bus".to_string())), 0),
        Reaction::Report("cosmic-ext-applet-logomenu ERROR: 'no session bus'".to_string())
    );
    assert_eq!(app.update(Message::Zbus(Ok(())), 0), Reaction::Finish(Task::Nothing));
}

#[test]
fn launch_error_names_the_cause() {
    assert_eq!(launch_error("not found"), "Error executing command: not found");
}

#[test]
fn config_update_replaces_the_settings() {
    let mut app = LogoMenu::init(config(), false, false);
    let mut next = config();
    next.logo = "Debian".to_string();
    next.menu_items.clear();
    assert_eq!(app.update(Message::ConfigUpdate(next), 0), Reaction::Finish(Task::Nothing));
    assert_eq!(app.config.logo, "Debian");
    assert!(app.config.menu_items.is_empty());
}

#[test]
fn menu_entries_follow_the_items() {
    let mut cfg = config();
    cfg.menu_items.push(item(MenuItemType::PowerAction, Some("Bye"), Some("Logout")));
    cfg.menu_items.push(item(MenuItemType::PowerAction, Some("Zz"), Some("Suspend")));
    cfg.menu_items.push(item(MenuItemType::PowerAction, Some("Again"), Some("Restart")));
    cfg.menu_items.push(item(MenuItemType::PowerAction, Some("Off"), Some("Shutdown")));
    cfg.menu_items.push(item(MenuItemType::PowerAction, Some("Odd"), Some("Hibernate")));
    cfg.menu_items.push(item(MenuItemType::PowerAction, None, None));
    cfg.menu_items.push(item(MenuItemType::LaunchAction, None, None));
    let app = LogoMenu::init(cfg, false, false);
    let power = |label: &str, action| MenuEntry::Power { label: label.to_string(), action };
    assert_eq!(
        app.menu_entries(),
        vec![
            MenuEntry::Launch { label: "Terminal".to_string(), command: "cosmic-term".to_string() },
            MenuEntry::Divider,
            power("Lock", PowerAction::Lock),
            power("Bye", PowerAction::LogOut),
            power("Zz", PowerAction::Suspend),
            power("Again", PowerAction::Restart),
            power("Off", PowerAction::Shutdown),
            power("Odd", PowerAction::LogOut),
            power("", PowerAction::Shutdown),
            MenuEntry::Launch { label: String::new(), command: String::new() },
        ]
    );
}

#[test]
fn logo_source_prefers_an_existing_custom_file() {
    let catalog = vec!["Arch".to_string(), "Cosmic (Symbolic)".to_string()];
    let fallback = "Cosmic (Symbolic)".to_string();
    let mut cfg = config();
    cfg.custom_logo_active = true;
    cfg.custom_logo_path = "/home/u/logo-symbolic.svg".to_string();
    let app = LogoMenu::init(cfg, false, false);
    assert_eq!(
        app.logo_source(true, &catalog, &fallback),
        LogoSource::CustomFile { path: "/home/u/logo-symbolic.svg".to_string(), symbolic: true }
    );
    assert_eq!(app.logo_source(false, &catalog, &fallback), LogoSource::Builtin("Arch".to_string()));

    let mut plain = config();
    plain.custom_logo_active = true;
    plain.custom_logo_path = "/home/u/logo.svg".to_string();
    let app = LogoMenu::init(plain, false, false);
    assert_eq!(
        app.logo_source(true, &catalog, &fallback),
        LogoSource::CustomFile { path: "/home/u/logo.svg".to_string(), symbolic: false }
    );
}

#[test]
fn logo_source_falls_back_to_the_default_logo() {
    let catalog = vec!["Debian".to_string(), "Cosmic (Symbolic)".to_string()];
    let fallback = "Cosmic (Symbolic)".to_string();
    let mut cfg = config();
    cfg.custom_logo_path = "/home/u/logo-symbolic.svg".to_string();
    let app = LogoMenu::init(cfg, false, false);
    assert_eq!(
        app.logo_source(true, &catalog, &fallback),
        LogoSource::Builtin("Cosmic (Symbolic)".to_string())
    );
}

#[test]
fn logo_source_uses_the_given_fallback() {
    let catalog = vec!["Debian".to_string(), "Pop".to_string()];
    let app = LogoMenu::init(config(), false, false);
    assert_eq!(
        app.logo_source(false, &catalog, &"Pop".to_string()),
        LogoSource::Builtin("Pop".to_string())
    );
}
