use bitshardshell::input::command;
use bitshardshell::input::menu;
use bitshardshell::input::Command;
use bitshardshell::input::Key;
use bitshardshell::input::MenuAction;
use bitshardshell::Viewport;

#[test]
fn arrows_scroll_by_one_glyph() {
    assert_eq!(command(Key::Left), Command::Scroll(-1, 0));
    assert_eq!(command(Key::Right), Command::Scroll(1, 0));
    assert_eq!(command(Key::Up), Command::Scroll(0, -1));
    assert_eq!(command(Key::Down), Command::Scroll(0, 1));
}

#[test]
fn first_function_key_opens_the_menu() {
    assert_eq!(command(Key::F1), Command::OpenMenu);
}

#[test]
fn other_keys_do_nothing_on_the_map() {
    assert_eq!(command(Key::Other), Command::Ignore);
    assert_eq!(command(Key::Char('q')), Command::Ignore);
    assert_eq!(command(Key::Char(' ')), Command::Ignore);
}

#[test]
fn menu_quits_on_q() {
    assert_eq!(menu(Key::Char('q')), Some(MenuAction::Quit));
}

#[test]
fn menu_closes_on_the_first_function_key() {
    assert_eq!(menu(Key::F1), Some(MenuAction::CloseMenu));
}

#[test]
fn menu_stays_open_on_other_keys() {
    assert_eq!(menu(Key::Char('Q')), None);
    assert_eq!(menu(Key::Char('x')), None);
    assert_eq!(menu(Key::Left), None);
    assert_eq!(menu(Key::Right), None);
    assert_eq!(menu(Key::Up), None);
    assert_eq!(menu(Key::Down), None);
    assert_eq!(menu(Key::Other), None);
}

#[test]
fn commands_drive_the_viewport() {
    let mut view = Viewport::new(0, 0, 20, 10);
    for key in [Key::Left, Key::Left, Key::Up, Key::Other, Key::Down, Key::Right, Key::Down] {
        if let Command::Scroll(dx, dy) = command(key) {
            view.move_by(dx, dy);
        }
    }
    assert_eq!((view.scroll_x(), view.scroll_y()), (-1, 1));
}
