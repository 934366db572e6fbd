//! The commands that the user interface sends to the game, and what the
//! game answers.

use bstring::BString;
use vstd::prelude::*;

verus! {

/// What the player can do with an object.
#[derive(Clone, Copy, Debug, PartialEq, Eq, Structural)]
pub enum Action {
    Cancel,
    Drop,
    Inventory,
    Look,
    Push,
    Rotate,
    Talk,
    Unload,
    UseHand,
    UseSkill,
}

/// How an object was picked.
#[derive(Clone, Copy, Debug, PartialEq, Eq, Structural)]
pub enum ObjectPickKind {
    /// The pointer rests on the object.
    Hover,
    /// The player asks for the menu of actions.
    ActionMenu,
    /// The player asks for the action that the game proposes.
    DefaultAction,
}

/// The gait of a character on the move.
#[derive(Clone, Copy, Debug, PartialEq, Eq, Structural)]
pub enum CritterAnim {
    Walk,
    Running,
}

/// How the pointer over a hex looks.
#[derive(Clone, Copy, Debug, PartialEq, Eq, Structural)]
pub enum HexCursorStyle {
    Normal,
    Blocked,
}

/// A command from the user interface, together with what the interface saw
/// of the world when it sent the command.
pub enum UiCommand<'a> {
    /// An object was picked.
    ObjectPick {
        kind: ObjectPickKind,
        /// The object.
        obj: u64,
        /// Whether the object is the player's character.
        is_dude: bool,
        /// The object's name, if it has one.
        name: Option<&'a [u8]>,
    },
    /// A hex was picked.
    HexPick {
        /// Whether the player wants the character to go there, or only
        /// points.
        go: bool,
        /// The player's character.
        dude: u64,
        /// The length of the path from the character to the hex, if there
        /// is a path.
        path_len: Option<usize>,
    },
    /// An entry of the menu of actions was chosen.
    Action { action: Action },
    /// Any other command.
    Other,
}

/// What the game wants done in answer to a command.
#[derive(Debug)]
pub enum Reaction {
    /// Nothing.
    Nothing,
    /// Show `icon` at the pointer and, if there is one, write `message` into
    /// the message panel.
    Hover { icon: Option<Action>, message: Option<BString> },
    /// Hide the icon at the pointer and show the menu of `actions` for
    /// `obj`. The game's clock stands still from now on; the menu's handle is
    /// to be reported with `menu_shown`.
    ShowActionMenu { actions: Vec<Action>, obj: u64 },
    /// Perform `action` on `obj` and, if `menu` is given, hide that menu.
    Act { obj: u64, action: Action, menu: Option<u64> },
    /// The character's previous action is cancelled. If `anim` is given,
    /// send the character along the path with that gait, then let it stand.
    Go { dude: u64, anim: Option<CritterAnim> },
    /// Show the pointer over the hex in this style.
    HexCursor { style: HexCursorStyle },
}

/// The action that the game proposes for an object: the player's own
/// character is turned, everything else is talked to.
pub open spec fn default_action_spec(is_dude: bool) -> Action {
    if is_dude {
        Action::Rotate
    } else {
        Action::Talk
    }
}

/// The action that the game proposes for an object.
pub fn default_action(is_dude: bool) -> (a: Action)
    ensures
        a == default_action_spec(is_dude),
{
    if is_dude {
        Action::Rotate
    } else {
        Action::Talk
    }
}

/// The entries of the menu of actions: the proposed action first, then
/// looking, talking and cancelling, none of them twice.
pub open spec fn menu_actions_spec(default: Action) -> Seq<Action> {
    let a = seq![default];
    let b = if a.contains(Action::Look) {
        a
    } else {
        a.push(Action::Look)
    };
    let c = if b.contains(Action::Talk) {
        b
    } else {
        b.push(Action::Talk)
    };
    if c.contains(Action::Cancel) {
        c
    } else {
        c.push(Action::Cancel)
    }
}

/// Whether `actions` holds `action`.
fn holds(actions: &Vec<Action>, action: Action) -> (b: bool)
    ensures
        b == actions@.contains(action),
{
    let mut i: usize = 0;
    while i < actions.len()
        invariant
            i <= actions.len(),
            forall|k: int| 0 <= k < i ==> actions@[k] != action,
        decreases actions.len() - i,
    {
        if actions[i] == action {
            return true;
        }
        i = i + 1;
    }
    false
}

/// The entries of the menu of actions for an object whose proposed action is
/// `default`.
pub fn menu_actions(default: Action) -> (actions: Vec<Action>)
    ensures
        actions@ == menu_actions_spec(default),
{
    let mut actions: Vec<Action> = Vec::new();
    actions.push(default);
    assert(actions@ == seq![default]);
    if !holds(&actions, Action::Look) {
        actions.push(Action::Look);
    }
    if !holds(&actions, Action::Talk) {
        actions.push(Action::Talk);
    }
    if !holds(&actions, Action::Cancel) {
        actions.push(Action::Cancel);
    }
    actions
}

/// A menu never lists an action twice, always opens with the proposed
/// action, and always offers looking, talking and cancelling.
pub proof fn lemma_menu_actions(default: Action)
    ensures
        menu_actions_spec(default).no_duplicates(),
        menu_actions_spec(default)[0] == default,
        menu_actions_spec(default).contains(Action::Look),
        menu_actions_spec(default).contains(Action::Talk),
        menu_actions_spec(default).contains(Action::Cancel),
        default == Action::Rotate ==> menu_actions_spec(default) == seq![
            Action::Rotate,
            Action::Look,
            Action::Talk,
            Action::Cancel,
        ],
        default == Action::Talk ==> menu_actions_spec(default) == seq![
            Action::Talk,
            Action::Look,
            Action::Cancel,
        ],
{
    let a = seq![default];
    let b = if a.contains(Action::Look) {
        a
    } else {
        a.push(Action::Look)
    };
    let c = if b.contains(Action::Talk) {
        b
    } else {
        b.push(Action::Talk)
    };
    let d = menu_actions_spec(default);
    assert(a[0] == default);
    assert(a.contains(Action::Look) <==> default == Action::Look) by {
        if default == Action::Look {
            assert(a[0] == Action::Look);
        }
    }
    assert(b.contains(Action::Look)) by {
        if default == Action::Look {
            assert(b[0] == Action::Look);
        } else {
            assert(b[1] == Action::Look);
        }
    }
    assert(b.contains(Action::Talk) <==> default == Action::Talk) by {
        if default == Action::Talk {
            assert(b[0] == Action::Talk);
        }
    }
    assert(c.contains(Action::Talk)) by {
        assert(c[c.len() - 1] == Action::Talk || c[0] == Action::Talk);
    }
    assert(c.contains(Action::Look)) by {
        assert(c[0] == Action::Look || c[1] == Action::Look);
    }
    assert(c.contains(Action::Cancel) <==> default == Action::Cancel) by {
        if default == Action::Cancel {
            assert(c[0] == Action::Cancel);
        }
    }
    assert(d.contains(Action::Cancel)) by {
        assert(d[d.len() - 1] == Action::Cancel || d[0] == Action::Cancel);
    }
    assert(d.contains(Action::Look)) by {
        assert(d[0] == Action::Look || d[1] == Action::Look);
    }
    assert(d.contains(Action::Talk)) by {
        assert(d[0] == Action::Talk || d[1] == Action::Talk || d[2] == Action::Talk);
    }
    if default == Action::Rotate {
        assert(d =~= seq![Action::Rotate, Action::Look, Action::Talk, Action::Cancel]);
    }
    if default == Action::Talk {
        assert(d =~= seq![Action::Talk, Action::Look, Action::Cancel]);
    }
}

/// The gait for a move: walking while a shift key is held, running
/// otherwise.
pub fn move_anim(shift_key_down: bool) -> (anim: CritterAnim)
    ensures
        anim == (if shift_key_down {
            CritterAnim::Walk
        } else {
            CritterAnim::Running
        }),
{
    if shift_key_down {
        CritterAnim::Walk
    } else {
        CritterAnim::Running
    }
}

/// The pointer's style over a hex: normal where a path leads there, blocked
/// where none does.
pub fn hex_cursor_style(path_exists: bool) -> (style: HexCursorStyle)
    ensures
        style == (if path_exists {
            HexCursorStyle::Normal
        } else {
            HexCursorStyle::Blocked
        }),
{
    if path_exists {
        HexCursorStyle::Normal
    } else {
        HexCursorStyle::Blocked
    }
}

} // verus!
