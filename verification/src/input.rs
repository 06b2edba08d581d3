use vstd::prelude::*;

verus! {

/// A key press, as the terminal reports it.
#[derive(Clone, Copy, Debug, PartialEq, Eq, Structural)]
pub enum Key {
    /// The first function key.
    F1,
    /// The left arrow.
    Left,
    /// The right arrow.
    Right,
    /// The up arrow.
    Up,
    /// The down arrow.
    Down,
    /// A key that stands for a character.
    Char(char),
    /// Any other key.
    Other,
}

/// What a key press asks for while the map is shown.
#[derive(Clone, Copy, Debug, PartialEq, Eq, Structural)]
pub enum Command {
    /// Open the menu.
    OpenMenu,
    /// Scroll the viewport by so many glyphs to the right and down.
    Scroll(i32, i32),
    /// Nothing: the key has no meaning here.
    Ignore,
}

/// How the menu ends.
#[derive(Clone, Copy, Debug, PartialEq, Eq, Structural)]
pub enum MenuAction {
    /// Leave the program.
    Quit,
    /// Go back to the map.
    CloseMenu,
}

/// What a key asks for while the map is shown: F1 opens the menu, an arrow
/// scrolls by one glyph in its direction, and no other key does anything.
pub open spec fn command_of(key: Key) -> Command {
    match key {
        Key::F1 => Command::OpenMenu,
        Key::Left => Command::Scroll(-1i32, 0),
        Key::Right => Command::Scroll(1, 0),
        Key::Up => Command::Scroll(0, -1i32),
        Key::Down => Command::Scroll(0, 1),
        _ => Command::Ignore,
    }
}

/// How a key ends the menu: `q` quits and F1 closes it. Every other key
/// leaves the menu open.
pub open spec fn menu_action_of(key: Key) -> Option<MenuAction> {
    match key {
        Key::Char('q') => Some(MenuAction::Quit),
        Key::F1 => Some(MenuAction::CloseMenu),
        _ => None,
    }
}

/// What a key asks for while the map is shown.
pub fn command(key: Key) -> (asked: Command)
    ensures
        asked == command_of(key),
        asked matches Command::Scroll(dx, dy) ==> (dx == 0 && (dy == 1 || dy == -1)) || (dy == 0
            && (dx == 1 || dx == -1)),
{
    match key {
        Key::F1 => Command::OpenMenu,
        Key::Left => Command::Scroll(-1, 0),
        Key::Right => Command::Scroll(1, 0),
        Key::Up => Command::Scroll(0, -1),
        Key::Down => Command::Scroll(0, 1),
        _ => Command::Ignore,
    }
}

/// How a key ends the menu, or `None` for a key that leaves it open.
pub fn menu(key: Key) -> (action: Option<MenuAction>)
    ensures
        action == menu_action_of(key),
{
    match key {
        Key::Char(ch) => {
            if ch == 'q' {
                Some(MenuAction::Quit)
            } else {
                None
            }
        },
        Key::F1 => Some(MenuAction::CloseMenu),
        _ => None,
    }
}

} // verus!
