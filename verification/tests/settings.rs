use logomenu::menu::{MenuItem, MenuItemType, PowerActionOption};
use logomenu::settings::{
    command_entered, edit_message, get_menu_items, item_caption, item_icon, label_entered,
    power_selected, save_message, type_selected, AppModel, ContextPage, DialogPage, Effect,
    LogoPreview, MenuAction, MenuRow, Message, OrderDirection,
};

fn item(t: MenuItemType, label: Option<&str>, command: Option<&str>) -> MenuItem {
    MenuItem {
        item_type: t,
        label: label.map(|s| s.to_string()),
        command: command.map(|s| s.to_string()),
    }
}

fn launcher(label: &str, command: &str) -> MenuItem {
    item(MenuItemType::LaunchAction, Some(label), Some(command))
}

fn divider() -> MenuItem {
    item(MenuItemType::Divider, None, None)
}

fn defaults() -> Vec<MenuItem> {
    vec![launcher("Settings", "cosmic-settings"), divider()]
}

fn catalog() -> Vec<String> {
    ["Ubuntu", "Cosmic (Symbolic)", "Arch", "Debian"].iter().map(|s| s.to_string()).collect()
}

fn model(items: Vec<MenuItem>) -> AppModel {
    AppModel::init(
        catalog(),
        Some("Debian".to_string()),
        items,
        false,
        String::new(),
        "New launcher".to_string(),
        defaults(),
    )
}

fn three() -> Vec<MenuItem> {
    vec![launcher("A", "a"), divider(), launcher("C", "c")]
}

#[test]
fn init_sorts_the_logos_and_selects_the_stored_one() {
    let app = model(three());
    assert_eq!(app.logo_options, vec!["Arch", "Cosmic (Symbolic)", "Debian", "Ubuntu"]);
    assert_eq!(app.selected_logo_name, "Debian");
    assert_eq!(app.selected_logo_idx, Some(2));
    assert_eq!(app.menu_items, three());
    assert_eq!(app.menu_types, vec![MenuItemType::LaunchAction, MenuItemType::PowerAction]);
    assert_eq!(
        app.power_actions,
        vec![
            PowerActionOption::Lock,
            PowerActionOption::Logout,
            PowerActionOption::Suspend,
            PowerActionOption::Restart,
            PowerActionOption::Shutdown,
        ]
    );
    assert!(app.dialog_pages.is_empty());
    assert_eq!(app.context_page, ContextPage::About);
    assert!(!app.show_context);
}

#[test]
fn init_falls_back_to_the_default_logo() {
    let unknown = AppModel::init(
        catalog(),
        Some("Gentoo".to_string()),
        Vec::new(),
        true,
        "/x.svg".to_string(),
        "New launcher".to_string(),
        defaults(),
    );
    assert_eq!(unknown.selected_logo_name, "Cosmic (Symbolic)");
    assert_eq!(unknown.selected_logo_idx, Some(1));
    assert!(unknown.custom_logo_active);
    assert_eq!(unknown.custom_logo_path, "/x.svg");
    let missing = AppModel::init(
        vec!["Arch".to_string()],
        None,
        Vec::new(),
        false,
        String::new(),
        String::new(),
        Vec::new(),
    );
    assert_eq!(missing.selected_logo_name, "Cosmic (Symbolic)");
    assert_eq!(missing.selected_logo_idx, None);
}

#[test]
fn update_logo_selects_and_saves() {
    let mut app = model(three());
    assert_eq!(app.update(Message::UpdateLogo(0)), Effect::SaveLogo("Arch".to_string()));
    assert_eq!(app.selected_logo_name, "Arch");
    assert_eq!(app.selected_logo_idx, Some(0));
}

#[test]
fn custom_logo_switch_and_path() {
    let mut app = model(three());
    assert_eq!(app.update(Message::ToggleCustomLogo(true)), Effect::SaveCustomLogoActive(true));
    assert!(app.custom_logo_active);
    assert_eq!(app.update(Message::UpdateCustomLogo), Effect::PickCustomLogo);
    assert_eq!(app.custom_logo_picked(None), Effect::Nothing);
    assert_eq!(app.custom_logo_path, "");
    assert_eq!(
        app.custom_logo_picked(Some("/home/u/me.svg".to_string())),
        Effect::SaveCustomLogoPath("/home/u/me.svg".to_string())
    );
    assert_eq!(app.custom_logo_path, "/home/u/me.svg");
    assert_eq!(app.custom_logo_caption(), Some("/home/u/me.svg".to_string()));
    assert_eq!(app.logo_preview(true), LogoPreview::CustomFile("/home/u/me.svg".to_string()));
    assert_eq!(app.logo_preview(false), LogoPreview::Builtin("Debian".to_string()));
}

#[test]
fn caption_and_preview_without_custom_logo() {
    let app = model(three());
    assert_eq!(app.custom_logo_caption(), None);
    assert_eq!(app.logo_preview(true), LogoPreview::Builtin("Debian".to_string()));
}

#[test]
fn open_url_is_passed_on() {
    let mut app = model(three());
    assert_eq!(
        app.update(Message::OpenUrl("https://example.org".to_string())),
        Effect::OpenUrl("https://example.org".to_string())
    );
    assert_eq!(app.menu_items, three());
}

#[test]
fn context_page_toggles_visibility() {
    let mut app = model(three());
    assert_eq!(app.context_drawer(), None);
    app.update(Message::ToggleContextPage(ContextPage::About));
    assert_eq!(app.context_drawer(), Some(ContextPage::About));
    app.update(Message::ToggleContextPage(ContextPage::About));
    assert_eq!(app.context_drawer(), None);
    assert_eq!(MenuAction::About.message(), Message::ToggleContextPage(ContextPage::About));
    assert_eq!(ContextPage::default(), ContextPage::About);
}

#[test]
fn add_launcher_opens_its_editor_and_remove_restores() {
    let mut app = model(three());
    app.update(Message::AddItem(MenuItemType::LaunchAction));
    let added = item(
        MenuItemType::LaunchAction,
        Some("New launcher"),
        Some("cosmic-ext-logomenu-settings"),
    );
    assert_eq!(app.menu_items.len(), 4);
    assert_eq!(app.menu_items[0], added);
    assert_eq!(app.dialog_pages, vec![DialogPage::EditItem(0, added)]);
    app.update(Message::RemoveItem(0));
    assert_eq!(app.menu_items, three());
    assert!(app.dialog_pages.is_empty());
}

#[test]
fn add_divider_opens_nothing() {
    let mut app = model(three());
    app.update(Message::AddItem(MenuItemType::Divider));
    assert_eq!(app.menu_items[0], divider());
    assert_eq!(app.menu_items.len(), 4);
    assert!(app.dialog_pages.is_empty());
    app.update(Message::AddItem(MenuItemType::PowerAction));
    assert_eq!(app.menu_items[0], item(MenuItemType::PowerAction, None, None));
}

#[test]
fn dialogs_stack_and_cancel() {
    let mut app = model(three());
    app.update(Message::DialogEditItem(2, launcher("C", "c")));
    app.update(Message::DialogRemoveItem(1));
    app.update(Message::DialogResetMenu);
    assert_eq!(app.current_dialog(), Some(DialogPage::ResetMenu));
    app.update(Message::DialogCancel);
    assert_eq!(app.current_dialog(), Some(DialogPage::RemoveItem(1)));
    app.update(Message::DialogCancel);
    assert_eq!(app.current_dialog(), Some(DialogPage::EditItem(2, launcher("C", "c"))));
    app.update(Message::DialogUpdate(DialogPage::EditItem(2, launcher("C2", "c"))));
    assert_eq!(app.current_dialog(), Some(DialogPage::EditItem(2, launcher("C2", "c"))));
    app.update(Message::DialogCancel);
    assert_eq!(app.current_dialog(), None);
    app.update(Message::DialogCancel);
    app.update(Message::DialogUpdate(DialogPage::ResetMenu));
    assert_eq!(app.current_dialog(), None);
    assert_eq!(app.menu_items, three());
}

#[test]
fn save_replaces_one_item_and_closes_the_dialog() {
    let mut app = model(three());
    app.update(Message::DialogEditItem(2, launcher("C", "c")));
    app.update(Message::SaveItem(2, launcher("Files", "nautilus")));
    assert_eq!(app.menu_items, vec![launcher("A", "a"), divider(), launcher("Files", "nautilus")]);
    assert!(app.dialog_pages.is_empty());
}

#[test]
fn remove_drops_one_item() {
    let mut app = model(three());
    app.update(Message::DialogRemoveItem(1));
    app.update(Message::RemoveItem(1));
    assert_eq!(app.menu_items, vec![launcher("A", "a"), launcher("C", "c")]);
    assert!(app.dialog_pages.is_empty());
}

#[test]
fn move_up_then_down_restores() {
    let mut app = model(three());
    app.update(Message::MoveItem(OrderDirection::Up, 2));
    assert_eq!(app.menu_items, vec![launcher("A", "a"), launcher("C", "c"), divider()]);
    app.update(Message::MoveItem(OrderDirection::Down, 1));
    assert_eq!(app.menu_items, three());
    app.update(Message::MoveItem(OrderDirection::Down, 0));
    assert_eq!(app.menu_items, vec![divider(), launcher("A", "a"), launcher("C", "c")]);
    app.update(Message::MoveItem(OrderDirection::Up, 1));
    assert_eq!(app.menu_items, three());
}

#[test]
fn moves_stop_at_the_ends() {
    let mut app = model(three());
    app.update(Message::MoveItem(OrderDirection::Up, 0));
    assert_eq!(app.menu_items, three());
    app.update(Message::MoveItem(OrderDirection::Down, 2));
    assert_eq!(app.menu_items, three());
    let mut empty = model(Vec::new());
    empty.update(Message::MoveItem(OrderDirection::Up, 0));
    assert!(empty.menu_items.is_empty());
}

#[test]
fn reset_restores_the_default_menu() {
    let mut app = model(three());
    app.update(Message::DialogResetMenu);
    app.update(Message::ResetMenu);
    assert_eq!(app.menu_items, defaults());
    assert!(app.dialog_pages.is_empty());
}

#[test]
fn edit_dialog_kind_choice() {
    let app = model(three());
    assert_eq!(app.selected_type_index(MenuItemType::LaunchAction), 0);
    assert_eq!(app.selected_type_index(MenuItemType::PowerAction), 1);
    assert_eq!(app.selected_type_index(MenuItemType::Divider), 0);
    assert_eq!(
        type_selected(&app.menu_types, 3, &launcher("Off", "poweroff"), 1),
        Message::DialogUpdate(DialogPage::EditItem(
            3,
            item(MenuItemType::PowerAction, Some("Off"), Some("Lock"))
        ))
    );
    assert_eq!(
        type_selected(&app.menu_types, 3, &item(MenuItemType::PowerAction, Some("Off"), Some("Shutdown")), 0),
        Message::DialogUpdate(DialogPage::EditItem(
            3,
            item(MenuItemType::LaunchAction, Some("Off"), None)
        ))
    );
}

#[test]
fn edit_dialog_power_choice() {
    let app = model(three());
    assert_eq!(app.selected_power_index("Lock"), 0);
    assert_eq!(app.selected_power_index("Logout"), 1);
    assert_eq!(app.selected_power_index("Shutdown"), 4);
    assert_eq!(app.selected_power_index("reboot"), 0);
    assert_eq!(app.selected_power_index(""), 0);
    let off = item(MenuItemType::PowerAction, Some("Off"), Some("Lock"));
    assert_eq!(
        power_selected(&app.power_actions, 0, &off, 3),
        Message::DialogUpdate(DialogPage::EditItem(
            0,
            item(MenuItemType::PowerAction, Some("Off"), Some("Restart"))
        ))
    );
}

#[test]
fn edit_dialog_text_inputs_and_save() {
    let a = launcher("A", "a");
    assert_eq!(
        label_entered(1, &a, "Alpha".to_string()),
        Message::DialogUpdate(DialogPage::EditItem(1, launcher("Alpha", "a")))
    );
    assert_eq!(
        command_entered(1, &a, "alpha --x".to_string()),
        Message::DialogUpdate(DialogPage::EditItem(1, launcher("A", "alpha --x")))
    );
    assert_eq!(save_message(1, &a), Some(Message::SaveItem(1, a.clone())));
    assert_eq!(save_message(1, &launcher("", "a")), None);
    assert_eq!(save_message(1, &item(MenuItemType::LaunchAction, None, Some("a"))), None);
}

#[test]
fn item_rows() {
    assert_eq!(item_caption(&launcher("Term", "cosmic-term")), Some("Term   ::   cosmic-term".to_string()));
    assert_eq!(item_caption(&launcher("Term", "")), Some("Term".to_string()));
    assert_eq!(item_caption(&item(MenuItemType::PowerAction, Some("Off"), None)), Some("Off".to_string()));
    assert_eq!(item_caption(&divider()), None);
    assert_eq!(item_icon(MenuItemType::LaunchAction), Some("utilities-terminal-symbolic".to_string()));
    assert_eq!(item_icon(MenuItemType::PowerAction), Some("system-shutdown-symbolic".to_string()));
    assert_eq!(item_icon(MenuItemType::Divider), None);
    assert_eq!(edit_message(2, &divider()), None);
    assert_eq!(edit_message(0, &launcher("A", "a")), Some(Message::DialogEditItem(0, launcher("A", "a"))));
}

#[test]
fn stored_menu_or_default() {
    assert_eq!(get_menu_items(Some(three()), &defaults()), three());
    assert_eq!(get_menu_items(None, &defaults()), defaults());
    assert_eq!(get_menu_items(Some(Vec::new()), &defaults()), Vec::<MenuItem>::new());
}

#[test]
fn accepts_only_indices_in_range() {
    let app = model(three());
    assert!(app.accepts(&Message::UpdateLogo(3)));
    assert!(!app.accepts(&Message::UpdateLogo(4)));
    assert!(app.accepts(&Message::SaveItem(2, divider())));
    assert!(!app.accepts(&Message::SaveItem(3, divider())));
    assert!(!app.accepts(&Message::RemoveItem(3)));
    assert!(app.accepts(&Message::MoveItem(OrderDirection::Down, 2)));
    assert!(!app.accepts(&Message::MoveItem(OrderDirection::Down, 3)));
    assert!(!app.accepts(&Message::MoveItem(OrderDirection::Up, 3)));
    let empty = model(Vec::new());
    assert!(empty.accepts(&Message::MoveItem(OrderDirection::Up, 0)));
    assert!(!empty.accepts(&Message::MoveItem(OrderDirection::Down, 0)));
    assert!(empty.accepts(&Message::DialogCancel));
}

#[test]
fn menu_rows_follow_the_items() {
    let app = model(three());
    let rows = app.menu_rows();
    assert_eq!(rows.len(), 3);
    assert_eq!(
        rows[0],
        MenuRow {
            move_up: Message::MoveItem(OrderDirection::Up, 0),
            move_down: Message::MoveItem(OrderDirection::Down, 0),
            icon: Some("utilities-terminal-symbolic".to_string()),
            caption: Some("A   ::   a".to_string()),
            edit: Some(Message::DialogEditItem(0, launcher("A", "a"))),
            remove: Message::DialogRemoveItem(0),
        }
    );
    assert_eq!(
        rows[1],
        MenuRow {
            move_up: Message::MoveItem(OrderDirection::Up, 1),
            move_down: Message::MoveItem(OrderDirection::Down, 1),
            icon: None,
            caption: None,
            edit: None,
            remove: Message::DialogRemoveItem(1),
        }
    );
    assert!(model(Vec::new()).menu_rows().is_empty());
}

#[test]
fn logo_selection_stays_valid_across_updates() {
    let mut app = model(three());
    let valid = |app: &AppModel| {
        let k = app.selected_logo_idx.unwrap();
        app.logo_options[k] == app.selected_logo_name
            && app.logo_options.iter().all(|o| catalog().contains(o))
    };
    assert!(valid(&app));
    assert_eq!(app.update(Message::UpdateLogo(3)), Effect::SaveLogo("Ubuntu".to_string()));
    assert!(valid(&app));
    assert_eq!(app.update(Message::AddItem(MenuItemType::Divider)), Effect::Nothing);
    assert_eq!(app.update(Message::ToggleCustomLogo(true)), Effect::SaveCustomLogoActive(true));
    assert!(valid(&app));
    assert_eq!(app.selected_logo_name, "Ubuntu");
    assert_eq!(app.selected_logo_idx, Some(3));
}
