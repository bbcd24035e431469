//! The entries of the logo menu, shared by the applet and the settings window.
use vstd::prelude::*;
use crate::text::{text_listed, texts};

verus! {

/// What selecting a menu entry does.
#[derive(Clone, Copy, Debug, PartialEq, Eq, Structural)]
pub enum MenuItemType {
    /// Runs a shell command.
    LaunchAction,
    /// Runs a session action such as locking or shutting down.
    PowerAction,
    /// A separator line with no action.
    Divider,
}

/// One entry of the logo menu.
#[derive(Debug, PartialEq)]
pub struct MenuItem {
    pub item_type: MenuItemType,
    pub label: Option<String>,
    pub command: Option<String>,
}

/// The text of an optional string.
pub open spec fn opt_text(o: Option<String>) -> Option<Seq<char>> {
    match o {
        Some(s) => Some(s@),
        None => None,
    }
}

/// The text of an optional string, or the empty text.
pub open spec fn text_or_empty(o: Option<String>) -> Seq<char> {
    match o {
        Some(s) => s@,
        None => Seq::empty(),
    }
}

/// A menu entry as texts.
pub struct MenuItemView {
    pub item_type: MenuItemType,
    pub label: Option<Seq<char>>,
    pub command: Option<Seq<char>>,
}

impl View for MenuItem {
    type V = MenuItemView;

    open spec fn view(&self) -> MenuItemView {
        MenuItemView {
            item_type: self.item_type,
            label: opt_text(self.label),
            command: opt_text(self.command),
        }
    }
}

/// A copy of an optional string.
pub fn copy_opt_text(o: &Option<String>) -> (copy: Option<String>)
    ensures
        copy == *o,
{
    match o {
        Some(s) => Some(s.clone()),
        None => None,
    }
}

/// The text of an optional string, or an empty string.
pub fn text_or_default(o: &Option<String>) -> (s: String)
    ensures
        s@ == text_or_empty(*o),
{
    match o {
        Some(s) => s.clone(),
        None => String::new(),
    }
}

impl Clone for MenuItem {
    fn clone(&self) -> (copy: Self)
        ensures
            copy == *self,
    {
        MenuItem {
            item_type: self.item_type,
            label: copy_opt_text(&self.label),
            command: copy_opt_text(&self.command),
        }
    }
}

impl MenuItem {
    /// What the entry does.
    pub fn item_type(&self) -> (t: MenuItemType)
        ensures
            t == self.item_type,
    {
        self.item_type
    }

    /// The entry's label, if it has one.
    pub fn label(&self) -> (label: Option<String>)
        ensures
            label == self.label,
    {
        copy_opt_text(&self.label)
    }

    /// The entry's command, if it has one.
    pub fn command(&self) -> (command: Option<String>)
        ensures
            command == self.command,
    {
        copy_opt_text(&self.command)
    }
}

/// A copy of a list of menu entries.
pub fn copy_items(items: &Vec<MenuItem>) -> (copy: Vec<MenuItem>)
    ensures
        copy@ == items@,
{
    let mut copy: Vec<MenuItem> = Vec::new();
    let mut i: usize = 0;
    while i < items.len()
        invariant
            i <= items.len(),
            copy@ == items@.take(i as int),
        decreases items.len() - i,
    {
        copy.push(items[i].clone());
        assert(copy@ =~= items@.take(i as int + 1));
        i = i + 1;
    }
    assert(items@.take(items.len() as int) =~= items@);
    copy
}

/// The session actions a power entry can name, in the order the settings window offers them.
#[derive(Clone, Copy, Debug, PartialEq, Eq, Structural)]
pub enum PowerActionOption {
    Lock,
    Logout,
    Suspend,
    Restart,
    Shutdown,
}

/// The command text stored in a power entry for each option.
pub open spec fn power_command_text(option: PowerActionOption) -> Seq<char> {
    match option {
        PowerActionOption::Lock => "Lock"@,
        PowerActionOption::Logout => "Logout"@,
        PowerActionOption::Suspend => "Suspend"@,
        PowerActionOption::Restart => "Restart"@,
        PowerActionOption::Shutdown => "Shutdown"@,
    }
}

impl PowerActionOption {
    /// The command text stored in a power entry for this option.
    pub fn command(&self) -> (command: String)
        ensures
            command@ == power_command_text(*self),
    {
        match self {
            PowerActionOption::Lock => "Lock".to_owned(),
            PowerActionOption::Logout => "Logout".to_owned(),
            PowerActionOption::Suspend => "Suspend".to_owned(),
            PowerActionOption::Restart => "Restart".to_owned(),
            PowerActionOption::Shutdown => "Shutdown".to_owned(),
        }
    }
}

/// The name of the logo the settings window selects when no other is stored
/// or the stored one is unknown.
pub open spec fn default_logo_text() -> Seq<char> {
    "Cosmic (Symbolic)"@
}

/// The name of the logo the settings window selects when no other is stored
/// or the stored one is unknown.
pub fn default_logo() -> (name: String)
    ensures
        name@ == default_logo_text(),
{
    "Cosmic (Symbolic)".to_owned()
}

/// The logo name to use: the wanted one where the catalog has it, else `fallback`.
pub open spec fn logo_or_default(catalog: Seq<String>, wanted: Seq<char>, fallback: Seq<char>) -> Seq<
    char,
> {
    if texts(catalog).contains(wanted) {
        wanted
    } else {
        fallback
    }
}

/// The logo name to use: `wanted` where `catalog` lists it, else `fallback`.
pub fn choose_logo(catalog: &Vec<String>, wanted: &String, fallback: &String) -> (name: String)
    ensures
        name@ == logo_or_default(catalog@, wanted@, fallback@),
{
    if text_listed(catalog, wanted.as_str()) {
        wanted.clone()
    } else {
        fallback.clone()
    }
}

} // verus!
