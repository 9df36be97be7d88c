//! The profile menu: what it offers and what an answer from it means.

use vstd::prelude::*;

verus! {

/// The identifier of the first profile in the menu; the others follow.
pub const PROFILE_MENU_BASE: usize = 2000;

/// The management items in the same menu, below the list's base so that one
/// comparison tells the two apart.
pub const PROFILE_NEW: usize = 1900;

pub const PROFILE_DUPLICATE: usize = 1901;

pub const PROFILE_RENAME: usize = 1902;

pub const PROFILE_DELETE: usize = 1903;

pub const PROFILE_IMPORT: usize = 1904;

/// What can be done to the selected profile.
#[derive(Debug, Clone, Copy, PartialEq, Eq, Structural)]
pub enum ProfileAction {
    New,
    Duplicate,
    Rename,
    Delete,
}

/// One line of the menu, with its text as `S`.
#[derive(Debug, Clone, PartialEq, Eq)]
pub enum MenuLine<S> {
    Item { id: usize, text: S, checked: bool, enabled: bool },
    Separator,
}

/// One line of the menu.
pub type MenuItem = MenuLine<String>;

/// What an answer from the menu means.
#[derive(Debug, Clone, Copy, PartialEq, Eq, Structural)]
pub enum MenuChoice {
    Nothing,
    Import,
    Manage(ProfileAction),
    /// The profile at this position.
    Switch(usize),
}

impl View for MenuLine<String> {
    type V = MenuLine<Seq<char>>;

    open spec fn view(&self) -> MenuLine<Seq<char>> {
        match self {
            MenuLine::Item { id, text, checked, enabled } => MenuLine::Item {
                id: *id,
                text: text@,
                checked: *checked,
                enabled: *enabled,
            },
            MenuLine::Separator => MenuLine::Separator,
        }
    }
}

/// The lines of a menu as mathematical values.
pub open spec fn menu_views(lines: Seq<MenuItem>) -> Seq<MenuLine<Seq<char>>> {
    Seq::new(lines.len(), |i: int| lines[i]@)
}

/// Names as mathematical values.
pub open spec fn name_views(names: Seq<String>) -> Seq<Seq<char>> {
    Seq::new(names.len(), |i: int| names[i]@)
}

/// The line for the profile at one position.
pub open spec fn profile_line(
    names: Seq<Seq<char>>,
    selected: Seq<char>,
    i: int,
) -> MenuLine<Seq<char>> {
    MenuLine::Item {
        id: (PROFILE_MENU_BASE + i) as usize,
        text: names[i],
        checked: names[i] == selected,
        enabled: true,
    }
}

/// A line that manages profiles.
pub open spec fn manage_line(id: usize, text: Seq<char>, enabled: bool) -> MenuLine<Seq<char>> {
    MenuLine::Item { id, text, checked: false, enabled }
}

/// The lines under the list of profiles. Deleting is there but unavailable
/// while there is only one profile, because deleting it would leave nothing to
/// run.
pub open spec fn manage_lines(count: nat) -> Seq<MenuLine<Seq<char>>> {
    seq![
        MenuLine::Separator,
        manage_line(PROFILE_NEW, "New..."@, true),
        manage_line(PROFILE_DUPLICATE, "Duplicate..."@, true),
        manage_line(PROFILE_RENAME, "Rename..."@, true),
        manage_line(PROFILE_IMPORT, "Import from TPFanControl..."@, true),
        manage_line(PROFILE_DELETE, "Delete"@, count > 1),
    ]
}

/// The whole menu: every profile in order, the selected one checked, and the
/// management items under them.
pub open spec fn menu_lines(
    names: Seq<Seq<char>>,
    selected: Seq<char>,
) -> Seq<MenuLine<Seq<char>>> {
    Seq::new(names.len(), |i: int| profile_line(names, selected, i)) + manage_lines(names.len())
}

/// What an answer from the menu means. An answer that is not positive is no
/// answer, and choosing the profile that is already selected changes nothing.
pub open spec fn meaning(
    chosen: i32,
    names: Seq<Seq<char>>,
    selected: Seq<char>,
) -> MenuChoice {
    if chosen <= 0 {
        MenuChoice::Nothing
    } else if chosen < PROFILE_MENU_BASE {
        if chosen == PROFILE_IMPORT {
            MenuChoice::Import
        } else if chosen == PROFILE_NEW {
            MenuChoice::Manage(ProfileAction::New)
        } else if chosen == PROFILE_DUPLICATE {
            MenuChoice::Manage(ProfileAction::Duplicate)
        } else if chosen == PROFILE_RENAME {
            MenuChoice::Manage(ProfileAction::Rename)
        } else if chosen == PROFILE_DELETE {
            MenuChoice::Manage(ProfileAction::Delete)
        } else {
            MenuChoice::Nothing
        }
    } else if chosen - PROFILE_MENU_BASE >= names.len() {
        MenuChoice::Nothing
    } else if names[chosen - PROFILE_MENU_BASE] == selected {
        MenuChoice::Nothing
    } else {
        MenuChoice::Switch((chosen - PROFILE_MENU_BASE) as usize)
    }
}

fn manage_item(id: usize, text: &str, enabled: bool) -> (r: MenuItem)
    ensures
        r@ == manage_line(id, text@, enabled),
{
    MenuLine::Item { id, text: text.to_owned(), checked: false, enabled }
}

/// The profile menu.
pub fn menu_items(names: &Vec<String>, selected: &String) -> (r: Vec<MenuItem>)
    requires
        names@.len() + PROFILE_MENU_BASE <= usize::MAX,
    ensures
        menu_views(r@) == menu_lines(name_views(names@), selected@),
{
    let mut lines: Vec<MenuItem> = Vec::new();
    let ghost views = name_views(names@);
    let mut i: usize = 0;
    while i < names.len()
        invariant
            i <= names@.len(),
            names@.len() + PROFILE_MENU_BASE <= usize::MAX,
            views == name_views(names@),
            lines@.len() == i,
            forall|j: int|
                0 <= j < i ==> #[trigger] lines@[j]@ == profile_line(views, selected@, j),
        decreases names@.len() - i,
    {
        lines.push(
            MenuLine::Item {
                id: PROFILE_MENU_BASE + i,
                text: names[i].clone(),
                checked: names[i] == *selected,
                enabled: true,
            },
        );
        i = i + 1;
    }
    lines.push(MenuLine::Separator);
    lines.push(manage_item(PROFILE_NEW, "New...", true));
    lines.push(manage_item(PROFILE_DUPLICATE, "Duplicate...", true));
    lines.push(manage_item(PROFILE_RENAME, "Rename...", true));
    lines.push(manage_item(PROFILE_IMPORT, "Import from TPFanControl...", true));
    lines.push(manage_item(PROFILE_DELETE, "Delete", names.len() > 1));
    assert(menu_views(lines@) == menu_lines(views, selected@));
    lines
}

/// What an answer from the menu means.
pub fn menu_choice(chosen: i32, names: &Vec<String>, selected: &String) -> (r: MenuChoice)
    ensures
        r == meaning(chosen, name_views(names@), selected@),
{
    if chosen <= 0 {
        return MenuChoice::Nothing;
    }
    let id = chosen as usize;
    // Everything below the list's base is a management item. Told apart first,
    // or the subtraction that follows would run off the bottom.
    if id < PROFILE_MENU_BASE {
        if id == PROFILE_IMPORT {
            MenuChoice::Import
        } else if id == PROFILE_NEW {
            MenuChoice::Manage(ProfileAction::New)
        } else if id == PROFILE_DUPLICATE {
            MenuChoice::Manage(ProfileAction::Duplicate)
        } else if id == PROFILE_RENAME {
            MenuChoice::Manage(ProfileAction::Rename)
        } else if id == PROFILE_DELETE {
            MenuChoice::Manage(ProfileAction::Delete)
        } else {
            MenuChoice::Nothing
        }
    } else {
        let at = id - PROFILE_MENU_BASE;
        if at >= names.len() {
            MenuChoice::Nothing
        } else if names[at] == *selected {
            MenuChoice::Nothing
        } else {
            MenuChoice::Switch(at)
        }
    }
}

} // verus!
