use svg_scene::menu::{menu_action, MenuAction};

#[test]
fn menu_with_open_scene() {
    assert_eq!(menu_action(true, 1), MenuAction::Edit);
    assert_eq!(menu_action(true, 2), MenuAction::Save);
    assert_eq!(menu_action(true, 3), MenuAction::Export);
    assert_eq!(menu_action(true, 4), MenuAction::Close);
    assert_eq!(menu_action(true, 5), MenuAction::Ignore);
    assert_eq!(menu_action(true, 7), MenuAction::Quit);
}

#[test]
fn menu_without_scene() {
    assert_eq!(menu_action(false, 1), MenuAction::Ignore);
    assert_eq!(menu_action(false, 5), MenuAction::Load);
    assert_eq!(menu_action(false, 6), MenuAction::Create);
    assert_eq!(menu_action(false, 7), MenuAction::Quit);
    assert_eq!(menu_action(false, 0), MenuAction::Ignore);
}
