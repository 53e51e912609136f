use vstd::prelude::*;

verus! {

/// What the editor's main menu does next.
#[derive(Clone, Copy, Debug, PartialEq, Eq, Structural)]
pub enum MenuAction {
    Edit,
    Save,
    Export,
    Close,
    Load,
    Create,
    Quit,
    /// The choice is not offered in the current state; the menu is shown again.
    Ignore,
}

/// The main menu offers edit, save, export and close (1 to 4) while a scene
/// is open, load and create (5 and 6) while none is, and quit (7) always.
pub open spec fn menu_action_of(has_scene: bool, choice: u64) -> MenuAction {
    if choice == 7 {
        MenuAction::Quit
    } else if has_scene {
        if choice == 1 {
            MenuAction::Edit
        } else if choice == 2 {
            MenuAction::Save
        } else if choice == 3 {
            MenuAction::Export
        } else if choice == 4 {
            MenuAction::Close
        } else {
            MenuAction::Ignore
        }
    } else {
        if choice == 5 {
            MenuAction::Load
        } else if choice == 6 {
            MenuAction::Create
        } else {
            MenuAction::Ignore
        }
    }
}

/// The action for a choice of the main menu, given whether a scene is open.
pub fn menu_action(has_scene: bool, choice: u64) -> (r: MenuAction)
    ensures
        r == menu_action_of(has_scene, choice),
        r == MenuAction::Quit <==> choice == 7,
        has_scene ==> r != MenuAction::Load && r != MenuAction::Create,
        !has_scene ==> r != MenuAction::Edit && r != MenuAction::Save && r != MenuAction::Export
            && r != MenuAction::Close,
{
    match (has_scene, choice) {
        (_, 7) => MenuAction::Quit,
        (true, 1) => MenuAction::Edit,
        (true, 2) => MenuAction::Save,
        (true, 3) => MenuAction::Export,
        (true, 4) => MenuAction::Close,
        (false, 5) => MenuAction::Load,
        (false, 6) => MenuAction::Create,
        _ => MenuAction::Ignore,
    }
}

} // verus!
