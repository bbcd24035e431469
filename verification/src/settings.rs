//! The settings window: choosing the logo and editing the menu.
//!
//! [`AppModel::update`] applies one message to the window's state and returns
//! the [`Effect`] that the runtime carries out (storing a setting, opening a
//! link, asking for a file). The other functions decide what the window shows.
use vstd::prelude::*;
use crate::applet::settings_name;
use crate::menu::{
    choose_logo, copy_items, copy_opt_text, default_logo, default_logo_text, logo_or_default,
    opt_text, power_command_text, text_or_default, text_or_empty, MenuItem, MenuItemType,
    MenuItemView, PowerActionOption,
};
use crate::text::{position_of, same_text, sort_texts, sorted_texts, texts};

verus! {

/// The pages of the side drawer.
#[derive(Clone, Copy, Debug, PartialEq, Eq, Structural)]
pub enum ContextPage {
    About,
}

impl Default for ContextPage {
    fn default() -> (page: Self)
        ensures
            page == ContextPage::About,
    {
        ContextPage::About
    }
}

/// The entries of the window's menu bar.
#[derive(Clone, Copy, Debug, PartialEq, Eq, Structural)]
pub enum MenuAction {
    About,
}

/// Which way a menu item is moved.
#[derive(Clone, Copy, Debug, PartialEq, Eq, Structural)]
pub enum OrderDirection {
    Up,
    Down,
}

/// A dialog waiting for the user; the first one of the stack is shown.
#[derive(Debug, PartialEq)]
pub enum DialogPage {
    /// Edits the menu item at the index; holds the edited copy.
    EditItem(usize, MenuItem),
    /// Asks whether to remove the menu item at the index.
    RemoveItem(usize),
    /// Asks whether to restore the default menu.
    ResetMenu,
}

impl Clone for DialogPage {
    fn clone(&self) -> (copy: Self)
        ensures
            copy == *self,
    {
        match self {
            DialogPage::EditItem(i, item) => DialogPage::EditItem(*i, item.clone()),
            DialogPage::RemoveItem(i) => DialogPage::RemoveItem(*i),
            DialogPage::ResetMenu => DialogPage::ResetMenu,
        }
    }
}

/// What the settings window is told.
#[derive(Debug, PartialEq)]
pub enum Message {
    ToggleContextPage(ContextPage),
    UpdateLogo(usize),
    ToggleCustomLogo(bool),
    UpdateCustomLogo,
    AddItem(MenuItemType),
    SaveItem(usize, MenuItem),
    RemoveItem(usize),
    MoveItem(OrderDirection, usize),
    ResetMenu,
    DialogUpdate(DialogPage),
    DialogCancel,
    DialogEditItem(usize, MenuItem),
    DialogRemoveItem(usize),
    DialogResetMenu,
    OpenUrl(String),
}

impl Clone for Message {
    fn clone(&self) -> (copy: Self)
        ensures
            copy == *self,
    {
        match self {
            Message::ToggleContextPage(p) => Message::ToggleContextPage(*p),
            Message::UpdateLogo(k) => Message::UpdateLogo(*k),
            Message::ToggleCustomLogo(on) => Message::ToggleCustomLogo(*on),
            Message::UpdateCustomLogo => Message::UpdateCustomLogo,
            Message::AddItem(t) => Message::AddItem(*t),
            Message::SaveItem(i, item) => Message::SaveItem(*i, item.clone()),
            Message::RemoveItem(i) => Message::RemoveItem(*i),
            Message::MoveItem(d, i) => Message::MoveItem(*d, *i),
            Message::ResetMenu => Message::ResetMenu,
            Message::DialogUpdate(page) => Message::DialogUpdate(page.clone()),
            Message::DialogCancel => Message::DialogCancel,
            Message::DialogEditItem(i, item) => Message::DialogEditItem(*i, item.clone()),
            Message::DialogRemoveItem(i) => Message::DialogRemoveItem(*i),
            Message::DialogResetMenu => Message::DialogResetMenu,
            Message::OpenUrl(url) => Message::OpenUrl(url.clone()),
        }
    }
}

/// Work for the runtime after an update.
#[derive(Debug, PartialEq)]
pub enum Effect {
    Nothing,
    /// Open the link in the user's browser.
    OpenUrl(String),
    /// Store the chosen logo name.
    SaveLogo(String),
    /// Store whether the user's own image is used.
    SaveCustomLogoActive(bool),
    /// Ask the user for an image file, then call [`AppModel::custom_logo_picked`].
    PickCustomLogo,
    /// Store the path of the user's image.
    SaveCustomLogoPath(String),
}

/// The settings window's state.
#[derive(Debug)]
pub struct AppModel {
    pub context_page: ContextPage,
    pub show_context: bool,
    /// The dialog stack; the first page is the one shown.
    pub dialog_pages: Vec<DialogPage>,
    /// The names of the built-in logos, sorted.
    pub logo_options: Vec<String>,
    pub selected_logo_idx: Option<usize>,
    pub selected_logo_name: String,
    pub custom_logo_active: bool,
    pub custom_logo_path: String,
    pub menu_items: Vec<MenuItem>,
    /// The kinds of item the edit dialog offers.
    pub menu_types: Vec<MenuItemType>,
    /// The session actions the edit dialog offers.
    pub power_actions: Vec<PowerActionOption>,
    /// The label given to a new launcher.
    pub new_launcher_label: String,
    /// The menu that a reset restores.
    pub default_menu_items: Vec<MenuItem>,
}

/// The dialog stack without its first page.
pub open spec fn popped(pages: Seq<DialogPage>) -> Seq<DialogPage> {
    if pages.len() == 0 {
        pages
    } else {
        pages.drop_first()
    }
}

/// The dialog stack with `page` shown first.
pub open spec fn pushed(pages: Seq<DialogPage>, page: DialogPage) -> Seq<DialogPage> {
    seq![page] + pages
}

/// The index an item at `i` moves to; the first item does not move up and the
/// last does not move down.
pub open spec fn move_target(dir: OrderDirection, i: int, len: int) -> int {
    match dir {
        OrderDirection::Up => if i == 0 {
            i
        } else {
            i - 1
        },
        OrderDirection::Down => if i == len - 1 {
            i
        } else {
            i + 1
        },
    }
}

/// The menu after moving the item at `i` one place.
pub open spec fn moved_items(items: Seq<MenuItem>, dir: OrderDirection, i: int) -> Seq<MenuItem> {
    let j = move_target(dir, i, items.len() as int);
    if i == j {
        items
    } else {
        items.update(j, items[i]).update(i, items[j])
    }
}

/// The drawer's page and visibility after asking for `requested`: asking for
/// the page already chosen shows or hides the drawer; another page is shown.
pub open spec fn context_after(page: ContextPage, shown: bool, requested: ContextPage) -> (
    ContextPage,
    bool,
) {
    if page == requested {
        (page, !shown)
    } else {
        (requested, true)
    }
}

/// A new item of kind `t`: a launcher opens the settings window under the
/// given label; other kinds have neither label nor command.
pub open spec fn new_item_view(t: MenuItemType, launcher_label: Seq<char>) -> MenuItemView {
    MenuItemView {
        item_type: t,
        label: if t == MenuItemType::LaunchAction {
            Some(launcher_label)
        } else {
            None
        },
        command: if t == MenuItemType::LaunchAction {
            Some(settings_name())
        } else {
            None
        },
    }
}

/// The logo settings of two states agree.
pub open spec fn same_logo_settings(a: AppModel, b: AppModel) -> bool {
    &&& a.logo_options@ == b.logo_options@
    &&& a.selected_logo_idx == b.selected_logo_idx
    &&& a.selected_logo_name == b.selected_logo_name
    &&& a.custom_logo_active == b.custom_logo_active
    &&& a.custom_logo_path == b.custom_logo_path
}

/// The parts of two states that no message changes agree.
pub open spec fn same_fixed(a: AppModel, b: AppModel) -> bool {
    &&& a.menu_types@ == b.menu_types@
    &&& a.power_actions@ == b.power_actions@
    &&& a.new_launcher_label == b.new_launcher_label
    &&& a.default_menu_items@ == b.default_menu_items@
}

/// The drawers of two states agree.
pub open spec fn same_context(a: AppModel, b: AppModel) -> bool {
    a.context_page == b.context_page && a.show_context == b.show_context
}

/// The menus and dialog stacks of two states agree.
pub open spec fn same_menu(a: AppModel, b: AppModel) -> bool {
    a.menu_items@ == b.menu_items@ && a.dialog_pages@ == b.dialog_pages@
}

/// The messages that can be applied to `m`: the indices they name must be in range.
pub open spec fn applicable(m: AppModel, message: Message) -> bool {
    match message {
        Message::UpdateLogo(k) => k < m.logo_options.len(),
        Message::SaveItem(i, _) => i < m.menu_items.len(),
        Message::RemoveItem(i) => i < m.menu_items.len(),
        Message::MoveItem(OrderDirection::Up, i) => i == 0 || i < m.menu_items.len(),
        Message::MoveItem(OrderDirection::Down, i) => i < m.menu_items.len(),
        _ => true,
    }
}

/// What a message does to the state and asks of the runtime.
pub open spec fn applied(old: AppModel, new: AppModel, message: Message, effect: Effect) -> bool {
    &&& same_fixed(old, new)
    &&& match message {
        Message::OpenUrl(url) => same_logo_settings(old, new) && same_context(old, new)
            && same_menu(old, new) && effect == Effect::OpenUrl(url),
        Message::ToggleContextPage(page) => {
            &&& (new.context_page, new.show_context) == context_after(
                old.context_page,
                old.show_context,
                page,
            )
            &&& same_logo_settings(old, new) && same_menu(old, new)
            &&& effect == Effect::Nothing
        },
        Message::UpdateLogo(k) => {
            &&& new.selected_logo_name == old.logo_options@[k as int]
            &&& new.selected_logo_idx == Some(k)
            &&& new.logo_options@ == old.logo_options@
            &&& new.custom_logo_active == old.custom_logo_active
            &&& new.custom_logo_path == old.custom_logo_path
            &&& same_context(old, new) && same_menu(old, new)
            &&& effect == Effect::SaveLogo(new.selected_logo_name)
        },
        Message::ToggleCustomLogo(on) => {
            &&& new.custom_logo_active == on
            &&& new.logo_options@ == old.logo_options@
            &&& new.selected_logo_idx == old.selected_logo_idx
            &&& new.selected_logo_name == old.selected_logo_name
            &&& new.custom_logo_path == old.custom_logo_path
            &&& same_context(old, new) && same_menu(old, new)
            &&& effect == Effect::SaveCustomLogoActive(on)
        },
        Message::UpdateCustomLogo => same_logo_settings(old, new) && same_context(old, new)
            && same_menu(old, new) && effect == Effect::PickCustomLogo,
        Message::AddItem(t) => {
            &&& new.menu_items.len() == old.menu_items.len() + 1
            &&& new.menu_items@[0]@ == new_item_view(t, old.new_launcher_label@)
            &&& new.menu_items@.drop_first() == old.menu_items@
            &&& new.dialog_pages@ == if t == MenuItemType::LaunchAction {
                pushed(old.dialog_pages@, DialogPage::EditItem(0, new.menu_items@[0]))
            } else {
                old.dialog_pages@
            }
            &&& same_logo_settings(old, new) && same_context(old, new)
            &&& effect == Effect::Nothing
        },
        Message::DialogUpdate(page) => {
            &&& new.dialog_pages@ == if old.dialog_pages.len() > 0 {
                old.dialog_pages@.update(0, page)
            } else {
                old.dialog_pages@
            }
            &&& new.menu_items@ == old.menu_items@
            &&& same_logo_settings(old, new) && same_context(old, new)
            &&& effect == Effect::Nothing
        },
        Message::DialogCancel => {
            &&& new.dialog_pages@ == popped(old.dialog_pages@)
            &&& new.menu_items@ == old.menu_items@
            &&& same_logo_settings(old, new) && same_context(old, new)
            &&& effect == Effect::Nothing
        },
        Message::DialogEditItem(i, item) => {
            &&& new.dialog_pages@ == pushed(old.dialog_pages@, DialogPage::EditItem(i, item))
            &&& new.menu_items@ == old.menu_items@
            &&& same_logo_settings(old, new) && same_context(old, new)
            &&& effect == Effect::Nothing
        },
        Message::DialogRemoveItem(i) => {
            &&& new.dialog_pages@ == pushed(old.dialog_pages@, DialogPage::RemoveItem(i))
            &&& new.menu_items@ == old.menu_items@
            &&& same_logo_settings(old, new) && same_context(old, new)
            &&& effect == Effect::Nothing
        },
        Message::DialogResetMenu => {
            &&& new.dialog_pages@ == pushed(old.dialog_pages@, DialogPage::ResetMenu)
            &&& new.menu_items@ == old.menu_items@
            &&& same_logo_settings(old, new) && same_context(old, new)
            &&& effect == Effect::Nothing
        },
        Message::SaveItem(i, item) => {
            &&& new.menu_items@ == old.menu_items@.update(i as int, item)
            &&& new.dialog_pages@ == popped(old.dialog_pages@)
            &&& same_logo_settings(old, new) && same_context(old, new)
            &&& effect == Effect::Nothing
        },
        Message::RemoveItem(i) => {
            &&& new.menu_items@ == old.menu_items@.remove(i as int)
            &&& new.dialog_pages@ == popped(old.dialog_pages@)
            &&& same_logo_settings(old, new) && same_context(old, new)
            &&& effect == Effect::Nothing
        },
        Message::MoveItem(dir, i) => {
            &&& new.menu_items@ == moved_items(old.menu_items@, dir, i as int)
            &&& new.dialog_pages@ == old.dialog_pages@
            &&& same_logo_settings(old, new) && same_context(old, new)
            &&& effect == Effect::Nothing
        },
        Message::ResetMenu => {
            &&& new.menu_items@ == old.default_menu_items@
            &&& new.dialog_pages@ == popped(old.dialog_pages@)
            &&& same_logo_settings(old, new) && same_context(old, new)
            &&& effect == Effect::Nothing
        },
    }
}

impl AppModel {
    /// Whether `message` can be applied: the indices it names are in range.
    pub fn accepts(&self, message: &Message) -> (ok: bool)
        ensures
            ok == applicable(*self, *message),
    {
        match message {
            Message::UpdateLogo(k) => *k < self.logo_options.len(),
            Message::SaveItem(i, _) => *i < self.menu_items.len(),
            Message::RemoveItem(i) => *i < self.menu_items.len(),
            Message::MoveItem(OrderDirection::Up, i) => *i == 0 || *i < self.menu_items.len(),
            Message::MoveItem(OrderDirection::Down, i) => *i < self.menu_items.len(),
            _ => true,
        }
    }

    /// Drops the dialog shown first, if any.
    fn pop_dialog(&mut self)
        ensures
            final(self).dialog_pages@ == popped(old(self).dialog_pages@),
            final(self).menu_items == old(self).menu_items,
            final(self).context_page == old(self).context_page,
            final(self).show_context == old(self).show_context,
            final(self).logo_options == old(self).logo_options,
            final(self).selected_logo_idx == old(self).selected_logo_idx,
            final(self).selected_logo_name == old(self).selected_logo_name,
            final(self).custom_logo_active == old(self).custom_logo_active,
            final(self).custom_logo_path == old(self).custom_logo_path,
            final(self).menu_types == old(self).menu_types,
            final(self).power_actions == old(self).power_actions,
            final(self).new_launcher_label == old(self).new_launcher_label,
            final(self).default_menu_items == old(self).default_menu_items,
    {
        if self.dialog_pages.len() > 0 {
            self.dialog_pages.remove(0);
        }
    }

    /// Applies one message and returns the work left for the runtime.
    pub fn update(&mut self, message: Message) -> (effect: Effect)
        requires
            applicable(*old(self), message),
        ensures
            applied(*old(self), *final(self), message, effect),
    {
        match message {
            Message::OpenUrl(url) => Effect::OpenUrl(url),
            Message::ToggleContextPage(context_page) => {
                if self.context_page == context_page {
                    self.show_context = !self.show_context;
                } else {
                    self.context_page = context_page;
                    self.show_context = true;
                }
                Effect::Nothing
            },
            Message::UpdateLogo(logo) => {
                self.selected_logo_name = self.logo_options[logo].clone();
                self.selected_logo_idx = Some(logo);
                Effect::SaveLogo(self.selected_logo_name.clone())
            },
            Message::ToggleCustomLogo(toggle) => {
                self.custom_logo_active = toggle;
                Effect::SaveCustomLogoActive(toggle)
            },
            Message::UpdateCustomLogo => Effect::PickCustomLogo,
            Message::AddItem(item_type) => {
                let is_launcher = item_type == MenuItemType::LaunchAction;
                let new_item = MenuItem {
                    item_type,
                    label: if is_launcher {
                        Some(self.new_launcher_label.clone())
                    } else {
                        None
                    },
                    command: if is_launcher {
                        Some("cosmic-ext-logomenu-settings".to_owned())
                    } else {
                        None
                    },
                };
                let ghost before = self.menu_items@;
                self.menu_items.insert(0, new_item.clone());
                assert(self.menu_items@.drop_first() =~= before);
                if is_launcher {
                    let ghost pages = self.dialog_pages@;
                    let page = DialogPage::EditItem(0, new_item);
                    self.dialog_pages.insert(0, page);
                    assert(self.dialog_pages@ =~= pushed(pages, page));
                }
                Effect::Nothing
            },
            Message::DialogUpdate(dialog_page) => {
                if self.dialog_pages.len() > 0 {
                    self.dialog_pages.set(0, dialog_page);
                }
                Effect::Nothing
            },
            Message::DialogCancel => {
                self.pop_dialog();
                Effect::Nothing
            },
            Message::DialogEditItem(i, menu_item) => {
                let ghost pages = self.dialog_pages@;
                let page = DialogPage::EditItem(i, menu_item);
                self.dialog_pages.insert(0, page);
                assert(self.dialog_pages@ =~= pushed(pages, page));
                Effect::Nothing
            },
            Message::DialogRemoveItem(i) => {
                let ghost pages = self.dialog_pages@;
                let page = DialogPage::RemoveItem(i);
                self.dialog_pages.insert(0, page);
                assert(self.dialog_pages@ =~= pushed(pages, page));
                Effect::Nothing
            },
            Message::SaveItem(i, menu_item) => {
                self.menu_items.set(i, menu_item);
                self.pop_dialog();
                Effect::Nothing
            },
            Message::RemoveItem(i) => {
                self.menu_items.remove(i);
                self.pop_dialog();
                Effect::Nothing
            },
            Message::MoveItem(dir, i) => {
                let j = match dir {
                    OrderDirection::Up => {
                        if i == 0 {
                            i
                        } else {
                            i - 1
                        }
                    },
                    OrderDirection::Down => {
                        if i == self.menu_items.len() - 1 {
                            i
                        } else {
                            i + 1
                        }
                    },
                };
                if i != j {
                    let a = self.menu_items[i].clone();
                    let b = self.menu_items[j].clone();
                    self.menu_items.set(j, a);
                    self.menu_items.set(i, b);
                }
                Effect::Nothing
            },
            Message::DialogResetMenu => {
                let ghost pages = self.dialog_pages@;
                let page = DialogPage::ResetMenu;
                self.dialog_pages.insert(0, page);
                assert(self.dialog_pages@ =~= pushed(pages, page));
                Effect::Nothing
            },
            Message::ResetMenu => {
                self.menu_items = copy_items(&self.default_menu_items);
                self.pop_dialog();
                Effect::Nothing
            },
        }
    }
}


/// The first index of `t` among `types`, or 0 where it is missing.
pub open spec fn type_index(types: Seq<MenuItemType>, t: MenuItemType) -> int {
    if exists|k: int| 0 <= k < types.len() && types[k] == t {
        choose|k: int|
            0 <= k < types.len() && types[k] == t && forall|j: int| 0 <= j < k ==> types[j] != t
    } else {
        0
    }
}

/// The first index among `options` whose command text is `command`, or 0 where none is.
pub open spec fn power_index(options: Seq<PowerActionOption>, command: Seq<char>) -> int {
    if exists|k: int| 0 <= k < options.len() && power_command_text(options[k]) == command {
        choose|k: int|
            0 <= k < options.len() && power_command_text(options[k]) == command && forall|j: int|
                0 <= j < k ==> power_command_text(options[j]) != command
    } else {
        0
    }
}

/// The message that puts `edited` into the edit dialog for the item at `i`.
pub open spec fn edit_update(i: usize, edited: MenuItem) -> Message {
    Message::DialogUpdate(DialogPage::EditItem(i, edited))
}

/// An item of kind `t` made from `item` in the edit dialog: a power entry
/// starts as "Lock"; any other kind loses its command.
pub open spec fn retyped_view(item: MenuItemView, t: MenuItemType) -> MenuItemView {
    MenuItemView {
        item_type: t,
        label: item.label,
        command: if t == MenuItemType::PowerAction {
            Some("Lock"@)
        } else {
            None
        },
    }
}

/// The text shown for a menu item: its label, followed by its command when
/// it has a non-empty one.
pub open spec fn caption_text(label: Seq<char>, command: Seq<char>) -> Seq<char> {
    if command.len() == 0 {
        label
    } else {
        label + "   ::   "@ + command
    }
}

/// The icon name shown before a menu item of kind `t`; a separator has none.
pub open spec fn icon_text(t: MenuItemType) -> Option<Seq<char>> {
    match t {
        MenuItemType::LaunchAction => Some("utilities-terminal-symbolic"@),
        MenuItemType::PowerAction => Some("system-shutdown-symbolic"@),
        MenuItemType::Divider => None,
    }
}

/// The logo shown at the top of the settings window.
#[derive(Debug, PartialEq)]
pub enum LogoPreview {
    /// The user's image file.
    CustomFile(String),
    /// A built-in logo, by name.
    Builtin(String),
}

impl MenuAction {
    /// The message a menu bar entry sends.
    pub fn message(&self) -> (message: Message)
        ensures
            message == Message::ToggleContextPage(ContextPage::About),
    {
        match self {
            MenuAction::About => Message::ToggleContextPage(ContextPage::About),
        }
    }
}

/// The stored menu, or the default menu where none is stored.
pub fn get_menu_items(stored: Option<Vec<MenuItem>>, default_items: &Vec<MenuItem>) -> (items: Vec<
    MenuItem,
>)
    ensures
        items@ == match stored {
            Some(v) => v@,
            None => default_items@,
        },
{
    let config_items = match stored {
        Some(v) => v,
        None => copy_items(default_items),
    };
    let mut display_items: Vec<MenuItem> = Vec::new();
    let mut rest = config_items;
    let ghost all = rest@;
    while rest.len() > 0
        invariant
            display_items@ + rest@ == all,
        decreases rest.len(),
    {
        let item = rest.remove(0);
        display_items.push(item);
        assert(display_items@ + rest@ =~= all);
    }
    assert(display_items@ =~= all);
    display_items
}

/// The icon name shown before a menu item of kind `item_type`.
pub fn item_icon(item_type: MenuItemType) -> (icon: Option<String>)
    ensures
        opt_text(icon) == icon_text(item_type),
{
    match item_type {
        MenuItemType::LaunchAction => Some("utilities-terminal-symbolic".to_owned()),
        MenuItemType::PowerAction => Some("system-shutdown-symbolic".to_owned()),
        MenuItemType::Divider => None,
    }
}

/// The text shown for a menu item; an item without a label is drawn as a line.
pub fn item_caption(item: &MenuItem) -> (caption: Option<String>)
    ensures
        opt_text(caption) == match item.label {
            Some(label) => Some(caption_text(label@, text_or_empty(item.command))),
            None => None,
        },
{
    match &item.label {
        Some(label) => {
            let mut caption = label.clone();
            let command = text_or_default(&item.command);
            if !command.as_str().is_empty() {
                caption.append("   ::   ");
                caption.append(command.as_str());
            }
            Some(caption)
        },
        None => None,
    }
}

/// One row of the menu editor: the buttons' messages, the icon and the text.
#[derive(Debug, PartialEq)]
pub struct MenuRow {
    pub move_up: Message,
    pub move_down: Message,
    pub icon: Option<String>,
    /// The text shown; none draws the row as a line.
    pub caption: Option<String>,
    pub edit: Option<Message>,
    pub remove: Message,
}

/// The editor row for the item at `i`.
pub open spec fn row_for(row: MenuRow, i: usize, item: MenuItem) -> bool {
    &&& row.move_up == Message::MoveItem(OrderDirection::Up, i)
    &&& row.move_down == Message::MoveItem(OrderDirection::Down, i)
    &&& opt_text(row.icon) == icon_text(item.item_type)
    &&& opt_text(row.caption) == match item.label {
        Some(label) => Some(caption_text(label@, text_or_empty(item.command))),
        None => None,
    }
    &&& row.edit == if item.item_type == MenuItemType::Divider {
        None
    } else {
        Some(Message::DialogEditItem(i, item))
    }
    &&& row.remove == Message::DialogRemoveItem(i)
}

/// The message of an item's edit button; a separator cannot be edited.
pub fn edit_message(i: usize, item: &MenuItem) -> (message: Option<Message>)
    ensures
        message == if item.item_type == MenuItemType::Divider {
            None
        } else {
            Some(Message::DialogEditItem(i, *item))
        },
{
    match item.item_type {
        MenuItemType::Divider => None,
        _ => Some(Message::DialogEditItem(i, item.clone())),
    }
}

/// The message that puts a new label into the edit dialog.
pub fn label_entered(i: usize, item: &MenuItem, value: String) -> (message: Message)
    ensures
        message == edit_update(
            i,
            MenuItem { item_type: item.item_type, label: Some(value), command: item.command },
        ),
{
    Message::DialogUpdate(
        DialogPage::EditItem(
            i,
            MenuItem {
                item_type: item.item_type,
                label: Some(value),
                command: copy_opt_text(&item.command),
            },
        ),
    )
}

/// The message that puts a new command into the edit dialog.
pub fn command_entered(i: usize, item: &MenuItem, value: String) -> (message: Message)
    ensures
        message == edit_update(
            i,
            MenuItem { item_type: item.item_type, label: item.label, command: Some(value) },
        ),
{
    Message::DialogUpdate(
        DialogPage::EditItem(
            i,
            MenuItem {
                item_type: item.item_type,
                label: copy_opt_text(&item.label),
                command: Some(value),
            },
        ),
    )
}

/// The message of the edit dialog's save button: none while the label is empty.
pub fn save_message(i: usize, item: &MenuItem) -> (message: Option<Message>)
    ensures
        message == if text_or_empty(item.label).len() == 0 {
            None
        } else {
            Some(Message::SaveItem(i, *item))
        },
{
    let label = text_or_default(&item.label);
    if label.as_str().is_empty() {
        None
    } else {
        Some(Message::SaveItem(i, item.clone()))
    }
}

impl AppModel {
    /// The settings window's state at start, from the built-in logo names,
    /// the stored settings, the label for new launchers and the default menu.
    /// The stored logo is kept where the catalog has it; otherwise the default
    /// logo is chosen.
    pub fn init(
        catalog: Vec<String>,
        stored_logo: Option<String>,
        menu_items: Vec<MenuItem>,
        custom_logo_active: bool,
        custom_logo_path: String,
        new_launcher_label: String,
        default_menu_items: Vec<MenuItem>,
    ) -> (app: AppModel)
        ensures
            app.selected_logo_name@ == logo_or_default(
                catalog@,
                match stored_logo {
                    Some(l) => l@,
                    None => default_logo_text(),
                },
                default_logo_text(),
            ),
            app.logo_options@.to_multiset() == catalog@.to_multiset(),
            sorted_texts(texts(app.logo_options@)),
            match app.selected_logo_idx {
                Some(k) => {
                    &&& k < app.logo_options.len()
                    &&& app.logo_options@[k as int]@ == app.selected_logo_name@
                    &&& forall|j: int|
                        0 <= j < k ==> app.logo_options@[j]@ != app.selected_logo_name@
                },
                None => forall|j: int|
                    0 <= j < app.logo_options.len() ==> app.logo_options@[j]@
                        != app.selected_logo_name@,
            },
            app.context_page == ContextPage::About,
            !app.show_context,
            app.dialog_pages@.len() == 0,
            app.custom_logo_active == custom_logo_active,
            app.custom_logo_path == custom_logo_path,
            app.menu_items == menu_items,
            app.menu_types@ == seq![MenuItemType::LaunchAction, MenuItemType::PowerAction],
            app.power_actions@ == seq![
                PowerActionOption::Lock,
                PowerActionOption::Logout,
                PowerActionOption::Suspend,
                PowerActionOption::Restart,
                PowerActionOption::Shutdown,
            ],
            app.new_launcher_label == new_launcher_label,
            app.default_menu_items == default_menu_items,
            texts(catalog@).contains(default_logo_text()) ==> logo_selection_valid(app, catalog@),
    {
        let wanted = match stored_logo {
            Some(l) => l,
            None => default_logo(),
        };
        let fallback = default_logo();
        let selected_logo_name = choose_logo(&catalog, &wanted, &fallback);
        let ghost listed = catalog@;
        let logo_options = sort_texts(catalog);
        let selected_logo_idx = position_of(&logo_options, selected_logo_name.as_str());
        proof {
            lemma_sorted_options_from_catalog(
                catalog@,
                logo_options@,
                selected_logo_name@,
                selected_logo_idx,
            );
        }
        let mut menu_types: Vec<MenuItemType> = Vec::new();
        menu_types.push(MenuItemType::LaunchAction);
        menu_types.push(MenuItemType::PowerAction);
        let mut power_actions: Vec<PowerActionOption> = Vec::new();
        power_actions.push(PowerActionOption::Lock);
        power_actions.push(PowerActionOption::Logout);
        power_actions.push(PowerActionOption::Suspend);
        power_actions.push(PowerActionOption::Restart);
        power_actions.push(PowerActionOption::Shutdown);
        assert(menu_types@ =~= seq![MenuItemType::LaunchAction, MenuItemType::PowerAction]);
        assert(power_actions@ =~= seq![
            PowerActionOption::Lock,
            PowerActionOption::Logout,
            PowerActionOption::Suspend,
            PowerActionOption::Restart,
            PowerActionOption::Shutdown,
        ]);
        AppModel {
            context_page: ContextPage::About,
            show_context: false,
            dialog_pages: Vec::new(),
            logo_options,
            selected_logo_idx,
            selected_logo_name,
            custom_logo_active,
            custom_logo_path,
            menu_items,
            menu_types,
            power_actions,
            new_launcher_label,
            default_menu_items,
        }
    }

    /// Takes the image file the user picked, if any, and asks to store its path.
    pub fn custom_logo_picked(&mut self, picked: Option<String>) -> (effect: Effect)
        ensures
            match picked {
                Some(path) => final(self).custom_logo_path == path && effect
                    == Effect::SaveCustomLogoPath(path),
                None => final(self).custom_logo_path == old(self).custom_logo_path && effect
                    == Effect::Nothing,
            },
            final(self).custom_logo_active == old(self).custom_logo_active,
            final(self).selected_logo_name == old(self).selected_logo_name,
            final(self).selected_logo_idx == old(self).selected_logo_idx,
            final(self).logo_options == old(self).logo_options,
            final(self).context_page == old(self).context_page,
            final(self).show_context == old(self).show_context,
            final(self).menu_items == old(self).menu_items,
            final(self).dialog_pages == old(self).dialog_pages,
            same_fixed(*old(self), *final(self)),
    {
        match picked {
            Some(path) => {
                self.custom_logo_path = path.clone();
                Effect::SaveCustomLogoPath(path)
            },
            None => Effect::Nothing,
        }
    }

    /// The page of the side drawer, when it is shown.
    pub fn context_drawer(&self) -> (page: Option<ContextPage>)
        ensures
            page == if self.show_context {
                Some(self.context_page)
            } else {
                None
            },
    {
        if !self.show_context {
            return None;
        }
        match self.context_page {
            ContextPage::About => Some(ContextPage::About),
        }
    }

    /// The logo at the top of the window: the user's image when it is switched
    /// on and `custom_path_exists`, else the selected built-in logo.
    pub fn logo_preview(&self, custom_path_exists: bool) -> (preview: LogoPreview)
        ensures
            preview == if self.custom_logo_active && custom_path_exists {
                LogoPreview::CustomFile(self.custom_logo_path)
            } else {
                LogoPreview::Builtin(self.selected_logo_name)
            },
    {
        if self.custom_logo_active && custom_path_exists {
            LogoPreview::CustomFile(self.custom_logo_path.clone())
        } else {
            LogoPreview::Builtin(self.selected_logo_name.clone())
        }
    }

    /// The caption of the image setting: the chosen path, or none while no
    /// path is chosen.
    pub fn custom_logo_caption(&self) -> (caption: Option<String>)
        ensures
            caption == if self.custom_logo_path@.len() == 0 {
                None
            } else {
                Some(self.custom_logo_path)
            },
    {
        if self.custom_logo_path.as_str().is_empty() {
            None
        } else {
            Some(self.custom_logo_path.clone())
        }
    }

    /// The rows of the menu editor, one for each menu item, in order.
    pub fn menu_rows(&self) -> (rows: Vec<MenuRow>)
        ensures
            rows.len() == self.menu_items.len(),
            forall|i: int|
                0 <= i < rows.len() ==> row_for(#[trigger] rows@[i], i as usize, self.menu_items@[i]),
    {
        let mut rows: Vec<MenuRow> = Vec::new();
        let mut i: usize = 0;
        while i < self.menu_items.len()
            invariant
                i <= self.menu_items.len(),
                rows.len() == i,
                forall|k: int|
                    0 <= k < i ==> row_for(#[trigger] rows@[k], k as usize, self.menu_items@[k]),
            decreases self.menu_items.len() - i,
        {
            let item = &self.menu_items[i];
            rows.push(
                MenuRow {
                    move_up: Message::MoveItem(OrderDirection::Up, i),
                    move_down: Message::MoveItem(OrderDirection::Down, i),
                    icon: item_icon(item.item_type),
                    caption: item_caption(item),
                    edit: edit_message(i, item),
                    remove: Message::DialogRemoveItem(i),
                },
            );
            i = i + 1;
        }
        rows
    }

    /// The dialog shown, if any.
    pub fn current_dialog(&self) -> (page: Option<DialogPage>)
        ensures
            page == if self.dialog_pages@.len() > 0 {
                Some(self.dialog_pages@[0])
            } else {
                None
            },
    {
        if self.dialog_pages.len() > 0 {
            Some(self.dialog_pages[0].clone())
        } else {
            None
        }
    }

    /// The position of `item_type` in the edit dialog's kind list.
    pub fn selected_type_index(&self, item_type: MenuItemType) -> (index: usize)
        ensures
            index == type_index(self.menu_types@, item_type),
    {
        let mut k: usize = 0;
        while k < self.menu_types.len()
            invariant
                k <= self.menu_types.len(),
                forall|j: int| 0 <= j < k ==> self.menu_types@[j] != item_type,
            decreases self.menu_types.len() - k,
        {
            if self.menu_types[k] == item_type {
                let ghost ts = self.menu_types@;
                proof {
                    let c = choose|c: int|
                        0 <= c < ts.len() && ts[c] == item_type && forall|j: int|
                            0 <= j < c ==> ts[j] != item_type;
                    assert(0 <= c < ts.len() && ts[c] == item_type && forall|j: int|
                        0 <= j < c ==> ts[j] != item_type);
                    if c < k {
                    } else if c > k {
                        assert(ts[k as int] == item_type);
                    }
                }
                return k;
            }
            k = k + 1;
        }
        0
    }

    /// The position of the session action whose command text is `command`
    /// in the edit dialog's list.
    pub fn selected_power_index(&self, command: &str) -> (index: usize)
        ensures
            index == power_index(self.power_actions@, command@),
    {
        let mut k: usize = 0;
        while k < self.power_actions.len()
            invariant
                k <= self.power_actions.len(),
                forall|j: int|
                    0 <= j < k ==> power_command_text(self.power_actions@[j]) != command@,
            decreases self.power_actions.len() - k,
        {
            let text = self.power_actions[k].command();
            if same_text(text.as_str(), command) {
                let ghost ps = self.power_actions@;
                proof {
                    let c = choose|c: int|
                        0 <= c < ps.len() && power_command_text(ps[c]) == command@ && forall|j: int|
                            0 <= j < c ==> power_command_text(ps[j]) != command@;
                    assert(0 <= c < ps.len() && power_command_text(ps[c]) == command@ && forall|
                        j: int,
                    |
                        0 <= j < c ==> power_command_text(ps[j]) != command@);
                    if c < k {
                    } else if c > k {
                        assert(power_command_text(ps[k as int]) == command@);
                    }
                }
                return k;
            }
            k = k + 1;
        }
        0
    }

}

/// The message sent when kind number `value` is chosen in the edit dialog.
pub fn type_selected(menu_types: &Vec<MenuItemType>, i: usize, item: &MenuItem, value: usize) -> (message:
    Message)
    requires
        value < menu_types.len(),
    ensures
        message matches Message::DialogUpdate(DialogPage::EditItem(j, edited)) && j == i
            && edited.label == item.label && edited@ == retyped_view(
            item@,
            menu_types@[value as int],
        ),
{
    let item_type = menu_types[value];
    let command = if item_type == MenuItemType::PowerAction {
        Some("Lock".to_owned())
    } else {
        None
    };
    Message::DialogUpdate(
        DialogPage::EditItem(i, MenuItem { item_type, label: copy_opt_text(&item.label), command }),
    )
}

/// The message sent when session action number `value` is chosen in the edit dialog.
pub fn power_selected(
    power_actions: &Vec<PowerActionOption>,
    i: usize,
    item: &MenuItem,
    value: usize,
) -> (message: Message)
    requires
        value < power_actions.len(),
    ensures
        message matches Message::DialogUpdate(DialogPage::EditItem(j, edited)) && j == i
            && edited.item_type == item.item_type && edited.label == item.label
            && opt_text(edited.command) == Some(
            power_command_text(power_actions@[value as int]),
        ),
{
    let command = power_actions[value].command();
    Message::DialogUpdate(
        DialogPage::EditItem(
            i,
            MenuItem {
                item_type: item.item_type,
                label: copy_opt_text(&item.label),
                command: Some(command),
            },
        ),
    )
}

/// Moving an item up and then moving it back down restores the menu, and so
/// does moving an item down and then back up.
pub proof fn lemma_move_round_trip(items: Seq<MenuItem>, i: int)
    requires
        0 <= i < items.len(),
    ensures
        i > 0 ==> moved_items(moved_items(items, OrderDirection::Up, i), OrderDirection::Down, i - 1)
            == items,
        i + 1 < items.len() ==> moved_items(
            moved_items(items, OrderDirection::Down, i),
            OrderDirection::Up,
            i + 1,
        ) == items,
{
    if i > 0 {
        let once = moved_items(items, OrderDirection::Up, i);
        assert(moved_items(once, OrderDirection::Down, i - 1) =~= items);
    }
    if i + 1 < items.len() {
        let once = moved_items(items, OrderDirection::Down, i);
        assert(moved_items(once, OrderDirection::Up, i + 1) =~= items);
    }
}

/// Moving an item keeps the menu's items and their number; only the order changes.
pub proof fn lemma_move_keeps_items(items: Seq<MenuItem>, dir: OrderDirection, i: int)
    requires
        0 <= i < items.len(),
    ensures
        moved_items(items, dir, i).len() == items.len(),
        moved_items(items, dir, i).to_multiset() == items.to_multiset(),
{
    broadcast use vstd::seq_lib::to_multiset_update;

    let j = move_target(dir, i, items.len() as int);
    if i != j {
        let first = items.update(j, items[i]);
        assert(first.to_multiset() =~= items.to_multiset().insert(items[i]).remove(items[j]));
        assert(first[i] == items[i]);
        assert(first.update(i, items[j]).to_multiset() =~= first.to_multiset().insert(
            items[j],
        ).remove(items[i]));
        let m = items.to_multiset();
        items.to_multiset_ensures();
        assert(items.contains(items[j]));
        assert(m.count(items[j]) > 0);
        assert(m.insert(items[i]).remove(items[j]).insert(items[j]).remove(items[i]) =~= m);
        assert(first.update(i, items[j]).to_multiset() =~= items.to_multiset());
    }
}

/// Adding an item and then removing the first item restores the menu. A new
/// launcher opens its edit dialog, which the removal closes again; other new
/// items leave the dialogs alone, so the removal closes the dialog shown.
pub proof fn lemma_add_then_remove(
    s0: AppModel,
    s1: AppModel,
    s2: AppModel,
    t: MenuItemType,
    e1: Effect,
    e2: Effect,
)
    requires
        applied(s0, s1, Message::AddItem(t), e1),
        applied(s1, s2, Message::RemoveItem(0), e2),
    ensures
        s2.menu_items@ == s0.menu_items@,
        s2.dialog_pages@ == if t == MenuItemType::LaunchAction {
            s0.dialog_pages@
        } else {
            popped(s0.dialog_pages@)
        },
        same_logo_settings(s0, s2),
        same_context(s0, s2),
{
    assert(s1.menu_items@.remove(0) =~= s1.menu_items@.drop_first());
    if t == MenuItemType::LaunchAction {
        assert(popped(s1.dialog_pages@) =~= s0.dialog_pages@);
    }
}

/// Opening a dialog and cancelling it restores the dialog stack; the menu is untouched.
pub proof fn lemma_dialog_open_cancel(
    s0: AppModel,
    s1: AppModel,
    s2: AppModel,
    opened: Message,
    e1: Effect,
    e2: Effect,
)
    requires
        opened matches Message::DialogEditItem(_, _) || opened matches Message::DialogRemoveItem(_)
            || opened matches Message::DialogResetMenu,
        applied(s0, s1, opened, e1),
        applied(s1, s2, Message::DialogCancel, e2),
    ensures
        s2.dialog_pages@ == s0.dialog_pages@,
        s2.menu_items@ == s0.menu_items@,
        same_logo_settings(s0, s2),
        same_context(s0, s2),
{
    assert(popped(s1.dialog_pages@) =~= s0.dialog_pages@);
}

/// Asking twice for the same drawer page shows it and hides it again when it
/// was chosen already; otherwise it ends up chosen and hidden.
pub proof fn lemma_context_toggle_twice(
    s0: AppModel,
    s1: AppModel,
    s2: AppModel,
    page: ContextPage,
    e1: Effect,
    e2: Effect,
)
    requires
        applied(s0, s1, Message::ToggleContextPage(page), e1),
        applied(s1, s2, Message::ToggleContextPage(page), e2),
    ensures
        s2.context_page == page,
        s2.show_context == if s0.context_page == page {
            s0.show_context
        } else {
            false
        },
        s2.menu_items@ == s0.menu_items@,
        s2.dialog_pages@ == s0.dialog_pages@,
{
}

/// Saving an item replaces exactly the item at its index and closes the dialog shown.
pub proof fn lemma_save_replaces_one(
    s0: AppModel,
    s1: AppModel,
    i: usize,
    item: MenuItem,
    e: Effect,
)
    requires
        applicable(s0, Message::SaveItem(i, item)),
        applied(s0, s1, Message::SaveItem(i, item), e),
    ensures
        s1.menu_items.len() == s0.menu_items.len(),
        s1.menu_items@[i as int] == item,
        forall|k: int| 0 <= k < s0.menu_items.len() && k != i ==> s1.menu_items@[k] == s0.menu_items@[k],
        s1.dialog_pages@ == popped(s0.dialog_pages@),
{
}

/// Every logo option comes from `catalog`, and the selected index names the
/// selected logo among the options.
pub open spec fn logo_selection_valid(s: AppModel, catalog: Seq<String>) -> bool {
    &&& forall|k: int|
        0 <= k < s.logo_options.len() ==> texts(catalog).contains(#[trigger] s.logo_options@[k]@)
    &&& s.selected_logo_idx matches Some(k) && k < s.logo_options.len()
        && s.logo_options@[k as int]@ == s.selected_logo_name@
}

/// Options that are a permutation of `catalog` all come from it, and a name
/// the catalog lists is found among them.
proof fn lemma_sorted_options_from_catalog(
    catalog: Seq<String>,
    options: Seq<String>,
    name: Seq<char>,
    found: Option<usize>,
)
    requires
        options.to_multiset() == catalog.to_multiset(),
        match found {
            Some(k) => k < options.len() && options[k as int]@ == name,
            None => forall|j: int| 0 <= j < options.len() ==> options[j]@ != name,
        },
    ensures
        forall|k: int| 0 <= k < options.len() ==> texts(catalog).contains(#[trigger] options[k]@),
        texts(catalog).contains(name) ==> found is Some,
{
    catalog.to_multiset_ensures();
    options.to_multiset_ensures();
    assert forall|k: int| 0 <= k < options.len() implies texts(catalog).contains(
        #[trigger] options[k]@,
    ) by {
        assert(options.contains(options[k]));
        assert(catalog.to_multiset().count(options[k]) > 0);
        assert(catalog.contains(options[k]));
        let c = choose|c: int| 0 <= c < catalog.len() && catalog[c] == options[k];
        assert(texts(catalog)[c] == options[k]@);
    }
    if texts(catalog).contains(name) {
        let c = choose|c: int| 0 <= c < texts(catalog).len() && texts(catalog)[c] == name;
        assert(catalog.contains(catalog[c]));
        assert(options.to_multiset().count(catalog[c]) > 0);
        assert(options.contains(catalog[c]));
        let k = choose|k: int| 0 <= k < options.len() && options[k] == catalog[c];
        assert(options[k]@ == name);
    }
}

/// Every message the update admits keeps the logo selection valid and the
/// options unchanged. Choosing option `m` selects it by index and by name and
/// stores exactly that name; no other message stores a logo name.
pub proof fn lemma_logo_selection_kept(
    s0: AppModel,
    s1: AppModel,
    message: Message,
    effect: Effect,
    catalog: Seq<String>,
)
    requires
        applicable(s0, message),
        applied(s0, s1, message, effect),
        logo_selection_valid(s0, catalog),
    ensures
        logo_selection_valid(s1, catalog),
        s1.logo_options@ == s0.logo_options@,
        match message {
            Message::UpdateLogo(m) => {
                &&& s1.selected_logo_idx == Some(m)
                &&& s1.selected_logo_name == s1.logo_options@[m as int]
                &&& effect == Effect::SaveLogo(s1.selected_logo_name)
            },
            _ => !(effect is SaveLogo),
        },
{
}

/// A message that names a menu item or a logo option is admitted exactly when
/// that index is in range (moving the first item up is always admitted); every
/// other message is always admitted.
pub proof fn lemma_admitted_messages(m: AppModel, i: usize, item: MenuItem, message: Message)
    ensures
        applicable(m, Message::RemoveItem(i)) <==> i < m.menu_items.len(),
        applicable(m, Message::SaveItem(i, item)) <==> i < m.menu_items.len(),
        applicable(m, Message::UpdateLogo(i)) <==> i < m.logo_options.len(),
        applicable(m, Message::MoveItem(OrderDirection::Down, i)) <==> i < m.menu_items.len(),
        applicable(m, Message::MoveItem(OrderDirection::Up, i)) <==> (i == 0 || i
            < m.menu_items.len()),
        !(message is RemoveItem || message is SaveItem || message is UpdateLogo
            || message is MoveItem) ==> applicable(m, message),
{
}

/// Every item but a separator can be edited from its row, and the edit
/// button opens the editor on that item at that index; the other buttons of
/// row `i` move, and ask to remove, the item at `i`.
pub proof fn lemma_row_buttons(row: MenuRow, i: usize, item: MenuItem)
    requires
        row_for(row, i, item),
    ensures
        row.edit is None <==> item.item_type == MenuItemType::Divider,
        item.item_type == MenuItemType::LaunchAction || item.item_type == MenuItemType::PowerAction
            ==> row.edit == Some(Message::DialogEditItem(i, item)),
        row.move_up == Message::MoveItem(OrderDirection::Up, i),
        row.move_down == Message::MoveItem(OrderDirection::Down, i),
        row.remove == Message::DialogRemoveItem(i),
        row.icon is None <==> item.item_type == MenuItemType::Divider,
        row.caption is None <==> item.label is None,
{
}

/// In the edit dialog's standard lists, each kind and each session option is
/// shown as selected at its own position, and a separator shows the first kind.
pub proof fn lemma_dialog_selection(t: MenuItemType, option: PowerActionOption)
    ensures
        type_index(seq![MenuItemType::LaunchAction, MenuItemType::PowerAction], t) == match t {
            MenuItemType::PowerAction => 1int,
            _ => 0int,
        },
        power_index(
            seq![
                PowerActionOption::Lock,
                PowerActionOption::Logout,
                PowerActionOption::Suspend,
                PowerActionOption::Restart,
                PowerActionOption::Shutdown,
            ],
            power_command_text(option),
        ) == match option {
            PowerActionOption::Lock => 0int,
            PowerActionOption::Logout => 1int,
            PowerActionOption::Suspend => 2int,
            PowerActionOption::Restart => 3int,
            PowerActionOption::Shutdown => 4int,
        },
{
    let types = seq![MenuItemType::LaunchAction, MenuItemType::PowerAction];
    if t != MenuItemType::Divider {
        let k: int = if t == MenuItemType::LaunchAction { 0 } else { 1 };
        assert(types[k] == t);
    }
    let options = seq![
        PowerActionOption::Lock,
        PowerActionOption::Logout,
        PowerActionOption::Suspend,
        PowerActionOption::Restart,
        PowerActionOption::Shutdown,
    ];
    crate::applet::lemma_power_commands_round_trip(option);
    let k: int = match option {
        PowerActionOption::Lock => 0,
        PowerActionOption::Logout => 1,
        PowerActionOption::Suspend => 2,
        PowerActionOption::Restart => 3,
        PowerActionOption::Shutdown => 4,
    };
    assert(options[k] == option);
    assert(0 <= k < options.len() && power_command_text(options[k]) == power_command_text(option));
    let c = choose|c: int|
        0 <= c < options.len() && power_command_text(options[c]) == power_command_text(option)
            && forall|j: int|
            0 <= j < c ==> power_command_text(options[j]) != power_command_text(option);
    assert(0 <= c < options.len() && power_command_text(options[c]) == power_command_text(
        option,
    ));
    assert(options[c] == option);
    assert(c == k);
}

/// Moving item `i` up swaps it with the item before it, and moving it down
/// swaps it with the item after it; the first item stays first when moved up
/// and the last stays last when moved down; all other items stay in place.
pub proof fn lemma_move_swaps_neighbours(items: Seq<MenuItem>, i: int)
    requires
        0 <= i < items.len(),
    ensures
        i > 0 ==> moved_items(items, OrderDirection::Up, i)[i - 1] == items[i]
            && moved_items(items, OrderDirection::Up, i)[i] == items[i - 1],
        i + 1 < items.len() ==> moved_items(items, OrderDirection::Down, i)[i + 1] == items[i]
            && moved_items(items, OrderDirection::Down, i)[i] == items[i + 1],
        i == 0 ==> moved_items(items, OrderDirection::Up, i) == items,
        i == items.len() - 1 ==> moved_items(items, OrderDirection::Down, i) == items,
        forall|k: int|
            0 <= k < items.len() && k != i && k != i - 1 ==> #[trigger] moved_items(
                items,
                OrderDirection::Up,
                i,
            )[k] == items[k],
        forall|k: int|
            0 <= k < items.len() && k != i && k != i + 1 ==> #[trigger] moved_items(
                items,
                OrderDirection::Down,
                i,
            )[k] == items[k],
{
}

/// A new launcher starts the settings window and carries the label for new
/// launchers; a new separator or power entry has neither label nor command.
/// It is put first, before all earlier items.
pub proof fn lemma_added_item(s0: AppModel, s1: AppModel, t: MenuItemType, e: Effect)
    requires
        applied(s0, s1, Message::AddItem(t), e),
    ensures
        s1.menu_items@[0].item_type == t,
        t == MenuItemType::LaunchAction ==> opt_text(s1.menu_items@[0].label) == Some(
            s0.new_launcher_label@,
        ) && opt_text(s1.menu_items@[0].command) == Some("cosmic-ext-logomenu-settings"@),
        t != MenuItemType::LaunchAction ==> s1.menu_items@[0].label is None
            && s1.menu_items@[0].command is None,
        forall|k: int| 0 <= k < s0.menu_items.len() ==> s1.menu_items@[k + 1] == s0.menu_items@[k],
        t == MenuItemType::LaunchAction ==> s1.dialog_pages@[0] == DialogPage::EditItem(
            0,
            s1.menu_items@[0],
        ),
{
    assert forall|k: int| 0 <= k < s0.menu_items.len() implies s1.menu_items@[k + 1]
        == s0.menu_items@[k] by {
        assert(s1.menu_items@.drop_first()[k] == s1.menu_items@[k + 1]);
    }
}

/// Resetting replaces the whole menu by the default menu and closes the
/// dialog shown; the logo settings stay.
pub proof fn lemma_reset_restores_defaults(s0: AppModel, s1: AppModel, e: Effect)
    requires
        applied(s0, s1, Message::ResetMenu, e),
    ensures
        s1.menu_items@ == s0.default_menu_items@,
        s1.default_menu_items@ == s0.default_menu_items@,
        s1.dialog_pages@ == popped(s0.dialog_pages@),
        s0.dialog_pages.len() > 0 ==> s1.dialog_pages.len() == s0.dialog_pages.len() - 1,
        same_logo_settings(s0, s1),
{
}

/// The shown dialog after opening one is the one opened, and cancelling
/// closes exactly the shown dialog.
pub proof fn lemma_dialog_stack(pages: Seq<DialogPage>, page: DialogPage)
    ensures
        pushed(pages, page)[0] == page,
        pushed(pages, page).len() == pages.len() + 1,
        pages.len() > 0 ==> popped(pages).len() == pages.len() - 1 && forall|k: int|
            0 <= k < pages.len() - 1 ==> #[trigger] popped(pages)[k] == pages[k + 1],
        pages.len() == 0 ==> popped(pages).len() == 0,
{
}

/// The text of a row begins with the item's label; the command follows after
/// a separator when it is not empty, and the label stands alone otherwise.
pub proof fn lemma_caption_shape(label: Seq<char>, command: Seq<char>)
    ensures
        caption_text(label, command).subrange(0, label.len() as int) == label,
        command.len() == 0 ==> caption_text(label, command) == label,
        command.len() > 0 ==> caption_text(label, command) == label + "   ::   "@ + command,
        command.len() > 0 ==> caption_text(label, command).len() == label.len() + 8
            + command.len(),
{
    reveal_strlit("   ::   ");
    assert(caption_text(label, command).subrange(0, label.len() as int) =~= label);
}

/// Choosing a kind in the edit dialog keeps the label; a power entry starts
/// with the "Lock" action and any other kind loses its command.
pub proof fn lemma_retyped(item: MenuItemView, t: MenuItemType)
    ensures
        retyped_view(item, t).item_type == t,
        retyped_view(item, t).label == item.label,
        t == MenuItemType::PowerAction ==> retyped_view(item, t).command == Some("Lock"@),
        t != MenuItemType::PowerAction ==> retyped_view(item, t).command is None,
{
}

/// Each kind of item shows its own icon, and a separator shows none.
pub proof fn lemma_icons(t: MenuItemType)
    ensures
        t == MenuItemType::LaunchAction ==> icon_text(t) == Some("utilities-terminal-symbolic"@),
        t == MenuItemType::PowerAction ==> icon_text(t) == Some("system-shutdown-symbolic"@),
        t == MenuItemType::Divider ==> icon_text(t) is None,
{
}

/// Switching the user's image on or off changes only that switch and stores it.
pub proof fn lemma_custom_logo_switch(s0: AppModel, s1: AppModel, on: bool, e: Effect)
    requires
        applied(s0, s1, Message::ToggleCustomLogo(on), e),
    ensures
        s1.custom_logo_active == on,
        e == Effect::SaveCustomLogoActive(on),
        s1.custom_logo_path == s0.custom_logo_path,
        s1.selected_logo_name == s0.selected_logo_name,
        s1.menu_items@ == s0.menu_items@,
{
}
} // verus!
