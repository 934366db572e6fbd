//! The state of a game in progress and the decisions that drive it.
//!
//! The game's world, its windows and its files lie outside. Whatever a
//! decision needs to know of them comes in as plain values, and whatever a
//! decision wants done to them goes out as a value that says so.

use vstd::prelude::*;
use crate::game::event::{Event, Key, WorldView, SCROLL_STEP};
use crate::game::message::{bstring_bytes, look_message, look_message_spec};
use crate::game::script::Scripts;
use crate::game::ui::{
    default_action, default_action_spec, hex_cursor_style, menu_actions, menu_actions_spec,
    move_anim, Action, CritterAnim, HexCursorStyle, ObjectPickKind, Reaction, UiCommand,
};
use crate::sequence::chain::Chain;
use crate::sequence::sequencer::{cancel_subject, Sequencer};
use crate::vm::error::Error;
use crate::vm::machine::Flow;
use crate::vm::program::PredefinedProc;
use crate::vm::scope::Scope;
use crate::vm::state::Context;

verus! {

/// A clock that can be stopped.
#[derive(Clone, Copy, Debug)]
pub struct PausableTime {
    time: u64,
    paused: bool,
}

impl PausableTime {
    /// What the clock shows.
    pub closed spec fn shown(&self) -> u64 {
        self.time
    }

    /// Whether the clock stands still.
    pub closed spec fn stopped(&self) -> bool {
        self.paused
    }

    /// A running clock that shows `time`.
    pub fn new(time: u64) -> (t: Self)
        ensures
            t.shown() == time,
            !t.stopped(),
    {
        PausableTime { time, paused: false }
    }

    /// Whether the clock stands still.
    pub fn is_paused(&self) -> (b: bool)
        ensures
            b == self.stopped(),
    {
        self.paused
    }

    /// Whether the clock runs.
    pub fn is_running(&self) -> (b: bool)
        ensures
            b == !self.stopped(),
    {
        !self.is_paused()
    }

    /// Stops or starts the clock.
    pub fn set_paused(&mut self, paused: bool)
        ensures
            final(self).stopped() == paused,
            final(self).shown() == old(self).shown(),
    {
        self.paused = paused;
    }

    /// Stops the clock if it runs and starts it if it stands still.
    pub fn toggle(&mut self)
        ensures
            final(self).stopped() == !old(self).stopped(),
            final(self).shown() == old(self).shown(),
    {
        self.paused = !self.paused;
    }

    /// Lets `delta` pass: a running clock moves on by that much, a stopped
    /// one does not move.
    pub fn update(&mut self, delta: u64)
        requires
            !old(self).stopped() ==> old(self).shown() + delta <= u64::MAX,
        ensures
            final(self).stopped() == old(self).stopped(),
            final(self).shown() == (if old(self).stopped() {
                old(self).shown()
            } else {
                (old(self).shown() + delta) as u64
            }),
    {
        if !self.paused {
            self.time = self.time + delta;
        }
    }

    /// What the clock shows.
    pub fn time(&self) -> (t: u64)
        ensures
            t == self.shown(),
    {
        self.time
    }
}

/// The menu of actions that is open, and the object it is open for.
#[derive(Clone, Copy, Debug, PartialEq, Eq, Structural)]
pub struct ObjectAction {
    /// The handle of the menu.
    pub menu: u64,
    /// The object.
    pub obj: u64,
}

/// What became of an action on an object.
#[derive(Debug)]
pub enum Acted {
    /// The action is none of the game's own.
    Nothing,
    /// The object's composition was cancelled; the object is to be turned
    /// one step clockwise.
    Rotate { obj: u64 },
    /// All compositions were dropped and the object's script, if it has one,
    /// was asked to talk; the result of that invocation.
    Talk { result: Option<Result<Flow, Error>> },
}

/// A game in progress.
pub struct GameState<S> {
    /// The game's clock.
    pub time: PausableTime,
    /// The loaded scripts.
    pub scripts: Scripts,
    /// The variables of map and game, and what scripts have set in motion.
    pub vars: Context<S>,
    /// The compositions in progress.
    pub sequencer: Sequencer<S>,
    /// Whether a shift key is held down.
    pub shift_key_down: bool,
    /// The object that the pointer rested on last.
    pub last_picked_obj: Option<u64>,
    /// The open menu of actions.
    pub object_action: Option<ObjectAction>,
    /// Whether the player has paused the game.
    pub user_paused: bool,
    /// The map that is loaded.
    pub map_id: Option<i32>,
}

/// Where the variables of a map come from when the map is entered.
#[derive(Clone, Copy, Debug, PartialEq, Eq, Structural)]
pub enum MapVarsSource {
    /// From the map itself: it was saved in the middle of a game.
    Saved,
    /// From the file of initial values that goes with the map.
    File,
    /// From nowhere: the map has no variables.
    Empty,
}

/// Where the variables of a map come from: a map that was saved in the
/// middle of a game brings its own; any other map takes them from the file
/// that goes with it, if there is one.
pub fn map_vars_source(savegame: bool, file_exists: bool) -> (source: MapVarsSource)
    ensures
        source == (if savegame {
            MapVarsSource::Saved
        } else if file_exists {
            MapVarsSource::File
        } else {
            MapVarsSource::Empty
        }),
{
    if savegame {
        MapVarsSource::Saved
    } else if file_exists {
        MapVarsSource::File
    } else {
        MapVarsSource::Empty
    }
}

/// Whether a dialog is over once an option has been picked: it is if the
/// option names no procedure, or if the procedure it names has left the
/// dialog without options.
pub fn dialog_finished(has_proc: bool, dialog_is_empty: bool) -> (finished: bool)
    ensures
        finished == (!has_proc || dialog_is_empty),
{
    if has_proc {
        dialog_is_empty
    } else {
        true
    }
}

impl<S> GameState<S> {
    /// The invariant of a game: its scripts and its sequencer are well
    /// formed.
    pub open spec fn wf(&self) -> bool {
        self.scripts.wf() && self.sequencer.wf()
    }

    /// Whether `other` differs from this game at most in its clock, its
    /// sequencer and the flags and handles that commands and events set.
    pub open spec fn same_scripts(&self, other: &GameState<S>) -> bool {
        &&& other.scripts == self.scripts
        &&& other.vars == self.vars
        &&& other.map_id == self.map_id
    }

    /// A game that has just been started at `now`: a running clock, no
    /// scripts, no variables, nothing in progress, no map.
    pub fn new(now: u64) -> (g: Self)
        ensures
            g.wf(),
            g.time.shown() == now,
            !g.time.stopped(),
            g.scripts.scripts@.len() == 0,
            g.scripts.suspended is None,
            g.vars.map_vars@.len() == 0,
            g.vars.global_vars@.len() == 0,
            g.vars.state.sequences@ == Map::<u64, Chain<S>>::empty(),
            !g.vars.state.script_overrides,
            g.sequencer@.len() == 0,
            !g.shift_key_down,
            g.last_picked_obj is None,
            g.object_action is None,
            !g.user_paused,
            g.map_id is None,
    {
        GameState {
            time: PausableTime::new(now),
            scripts: Scripts::new(),
            vars: Context::new(Scope::new(0), Scope::new(0)),
            sequencer: Sequencer::new(),
            shift_key_down: false,
            last_picked_obj: None,
            object_action: None,
            user_paused: false,
            map_id: None,
        }
    }

    /// The game's clock.
    pub fn time(&self) -> (t: &PausableTime)
        ensures
            *t == self.time,
    {
        &self.time
    }

    /// Takes note of the map that a new game begins on and of its variables
    /// and the game's.
    pub fn new_game(&mut self, map_id: i32, map_vars: Scope, global_vars: Scope)
        ensures
            final(self).map_id == Some(map_id),
            final(self).vars.map_vars == map_vars,
            final(self).vars.global_vars == global_vars,
            final(self).vars.state == old(self).vars.state,
            final(self).time == old(self).time,
            final(self).scripts == old(self).scripts,
            final(self).sequencer == old(self).sequencer,
            final(self).shift_key_down == old(self).shift_key_down,
            final(self).last_picked_obj == old(self).last_picked_obj,
            final(self).object_action == old(self).object_action,
            final(self).user_paused == old(self).user_paused,
    {
        self.map_id = Some(map_id);
        self.vars.map_vars = map_vars;
        self.vars.global_vars = global_vars;
    }

    /// Records the handle of the menu of actions that was shown for `obj`.
    pub fn menu_shown(&mut self, menu: u64, obj: u64)
        ensures
            final(self).object_action == Some(ObjectAction { menu, obj }),
            final(self).time == old(self).time,
            final(self).scripts == old(self).scripts,
            final(self).vars == old(self).vars,
            final(self).sequencer == old(self).sequencer,
            final(self).shift_key_down == old(self).shift_key_down,
            final(self).last_picked_obj == old(self).last_picked_obj,
            final(self).user_paused == old(self).user_paused,
            final(self).map_id == old(self).map_id,
    {
        self.object_action = Some(ObjectAction { menu, obj });
    }

    /// Handles a keyboard event and says whether the event was one of the
    /// game's.
    ///
    /// The arrow keys move the camera by [`SCROLL_STEP`]; `A` and `Z` move
    /// the player's character a level up or down; the brackets dim and
    /// brighten the ambient light; `P` pauses the game and lets it go on;
    /// the shift keys are remembered while they are held; `R` is accepted
    /// and changes nothing. Every other event is left to others.
    pub fn handle_event(&mut self, event: Event, world: &mut WorldView) -> (handled: bool)
        requires
            old(world).wf(),
            event == Event::KeyDown(Key::Right) ==> old(world).camera_x - SCROLL_STEP >= i32::MIN,
            event == Event::KeyDown(Key::Left) ==> old(world).camera_x + SCROLL_STEP <= i32::MAX,
            event == Event::KeyDown(Key::Up) ==> old(world).camera_y + SCROLL_STEP <= i32::MAX,
            event == Event::KeyDown(Key::Down) ==> old(world).camera_y - SCROLL_STEP >= i32::MIN,
        ensures
            final(world).wf(),
            (*final(world), final(self).user_paused, final(self).shift_key_down, handled)
                == event_spec(
                event,
                *old(world),
                old(self).user_paused,
                old(self).shift_key_down,
            ),
            final(self).time == old(self).time,
            final(self).scripts == old(self).scripts,
            final(self).vars == old(self).vars,
            final(self).sequencer == old(self).sequencer,
            final(self).last_picked_obj == old(self).last_picked_obj,
            final(self).object_action == old(self).object_action,
            final(self).map_id == old(self).map_id,
    {
        match event {
            Event::KeyDown(Key::Right) => {
                world.camera_x = world.camera_x - SCROLL_STEP;
            },
            Event::KeyDown(Key::Left) => {
                world.camera_x = world.camera_x + SCROLL_STEP;
            },
            Event::KeyDown(Key::Up) => {
                world.camera_y = world.camera_y + SCROLL_STEP;
            },
            Event::KeyDown(Key::Down) => {
                world.camera_y = world.camera_y - SCROLL_STEP;
            },
            Event::KeyDown(Key::A) => {
                world.ascend();
            },
            Event::KeyDown(Key::Z) => {
                world.descend();
            },
            Event::KeyDown(Key::LeftBracket) => {
                world.dim();
            },
            Event::KeyDown(Key::RightBracket) => {
                world.brighten();
            },
            Event::KeyDown(Key::R) => {},
            Event::KeyDown(Key::P) => {
                self.user_paused = !self.user_paused;
            },
            Event::KeyDown(Key::LShift) | Event::KeyDown(Key::RShift) => {
                self.shift_key_down = true;
            },
            Event::KeyUp(Key::LShift) | Event::KeyUp(Key::RShift) => {
                self.shift_key_down = false;
            },
            _ => {
                return false;
            },
        }
        true
    }

    /// Handles a command from the user interface and says what is to be
    /// done in answer.
    ///
    /// Resting the pointer on an object proposes an action, unless a menu is
    /// open, and announces the object if the pointer has moved to it from
    /// elsewhere and the object has a name. Asking for the menu stops the
    /// clock. Choosing from the menu closes it and lets the clock run. A hex
    /// picked as a destination cancels whatever the character was doing,
    /// path or no path; the character sets out only on a path that is not
    /// empty.
    pub fn handle_ui_command(&mut self, command: UiCommand) -> (r: Reaction)
        requires
            old(self).wf(),
            command is Action ==> old(self).object_action.is_some(),
        ensures
            final(self).wf(),
            old(self).same_scripts(final(self)),
            final(self).shift_key_down == old(self).shift_key_down,
            final(self).user_paused == old(self).user_paused,
            final(self).time.shown() == old(self).time.shown(),
            match command {
                UiCommand::ObjectPick { kind: ObjectPickKind::Hover, obj, is_dude, name } => {
                    &&& r matches Reaction::Hover { icon, message }
                    &&& icon == (if old(self).object_action is None {
                        Some(default_action_spec(is_dude))
                    } else {
                        None
                    })
                    &&& match message {
                        Some(m) => old(self).last_picked_obj != Some(obj) && name.is_some()
                            && bstring_bytes(m) == look_message_spec(name.unwrap()@),
                        None => old(self).last_picked_obj == Some(obj) || name is None,
                    }
                    &&& final(self).last_picked_obj == Some(obj)
                    &&& final(self).object_action == old(self).object_action
                    &&& final(self).time == old(self).time
                    &&& final(self).sequencer == old(self).sequencer
                },
                UiCommand::ObjectPick { kind: ObjectPickKind::ActionMenu, obj, is_dude, name } => {
                    &&& r matches Reaction::ShowActionMenu { actions, obj: shown_for }
                    &&& actions@ == menu_actions_spec(default_action_spec(is_dude))
                    &&& shown_for == obj
                    &&& final(self).time.stopped()
                    &&& final(self).last_picked_obj == old(self).last_picked_obj
                    &&& final(self).object_action == old(self).object_action
                    &&& final(self).sequencer == old(self).sequencer
                },
                UiCommand::ObjectPick { kind: ObjectPickKind::DefaultAction, obj, is_dude, name } => {
                    &&& r matches Reaction::Act { obj: on, action, menu }
                    &&& on == obj
                    &&& action == default_action_spec(is_dude)
                    &&& menu is None
                    &&& final(self).last_picked_obj == old(self).last_picked_obj
                    &&& final(self).object_action == old(self).object_action
                    &&& final(self).time == old(self).time
                    &&& final(self).sequencer == old(self).sequencer
                },
                UiCommand::HexPick { go, dude, path_len } => {
                    &&& final(self).last_picked_obj == old(self).last_picked_obj
                    &&& final(self).object_action == old(self).object_action
                    &&& final(self).time == old(self).time
                    &&& if go {
                        &&& r matches Reaction::Go { dude: who, anim }
                        &&& who == dude
                        &&& anim == (if path_len.is_some() && path_len.unwrap() > 0 {
                            Some(
                                if old(self).shift_key_down {
                                    CritterAnim::Walk
                                } else {
                                    CritterAnim::Running
                                },
                            )
                        } else {
                            None
                        })
                        &&& final(self).sequencer@ == cancel_subject(old(self).sequencer@, dude)
                    } else {
                        &&& r matches Reaction::HexCursor { style }
                        &&& style == (if path_len.is_some() {
                            HexCursorStyle::Normal
                        } else {
                            HexCursorStyle::Blocked
                        })
                        &&& final(self).sequencer == old(self).sequencer
                    }
                },
                UiCommand::Action { action } => {
                    &&& r matches Reaction::Act { obj, action: chosen, menu }
                    &&& obj == old(self).object_action.unwrap().obj
                    &&& chosen == action
                    &&& menu == Some(old(self).object_action.unwrap().menu)
                    &&& final(self).object_action is None
                    &&& !final(self).time.stopped()
                    &&& final(self).last_picked_obj == old(self).last_picked_obj
                    &&& final(self).sequencer == old(self).sequencer
                },
                UiCommand::Other => {
                    &&& r is Nothing
                    &&& final(self).last_picked_obj == old(self).last_picked_obj
                    &&& final(self).object_action == old(self).object_action
                    &&& final(self).time == old(self).time
                    &&& final(self).sequencer == old(self).sequencer
                },
            },
    {
        match command {
            UiCommand::ObjectPick { kind, obj, is_dude, name } => {
                let proposed = default_action(is_dude);
                match kind {
                    ObjectPickKind::Hover => {
                        let icon = if self.object_action.is_none() {
                            Some(proposed)
                        } else {
                            None
                        };
                        let moved = match self.last_picked_obj {
                            Some(last) => last != obj,
                            None => true,
                        };
                        let mut message = None;
                        if moved {
                            self.last_picked_obj = Some(obj);
                            if let Some(n) = name {
                                message = Some(look_message(n));
                            }
                        }
                        Reaction::Hover { icon, message }
                    },
                    ObjectPickKind::ActionMenu => {
                        self.time.set_paused(true);
                        Reaction::ShowActionMenu { actions: menu_actions(proposed), obj }
                    },
                    ObjectPickKind::DefaultAction => Reaction::Act {
                        obj,
                        action: proposed,
                        menu: None,
                    },
                }
            },
            UiCommand::HexPick { go, dude, path_len } => {
                if go {
                    let _ = self.sequencer.cancel(dude);
                    let anim = match path_len {
                        Some(n) => if n > 0 {
                            Some(move_anim(self.shift_key_down))
                        } else {
                            None
                        },
                        None => None,
                    };
                    Reaction::Go { dude, anim }
                } else {
                    Reaction::HexCursor { style: hex_cursor_style(path_len.is_some()) }
                }
            },
            UiCommand::Action { action } => {
                let open = self.object_action.unwrap();
                self.object_action = None;
                self.time.set_paused(false);
                Reaction::Act { obj: open.obj, action, menu: Some(open.menu) }
            },
            UiCommand::Other => Reaction::Nothing,
        }
    }

    /// Performs the game's own part of an action on an object.
    ///
    /// Turning an object cancels what the object was doing. Talking drops
    /// every composition at once and then runs the procedure of the object's
    /// script, if it has a script, that answers the player; that script may
    /// ask to be suspended. No other action is the game's own.
    pub fn handle_action(&mut self, obj: u64, action: Action, script: Option<u32>, budget: u64) -> (r:
        Acted)
        requires
            old(self).wf(),
            action == Action::Talk && script.is_some() ==> old(self).scripts.has_script(
                script.unwrap(),
            ),
        ensures
            final(self).wf(),
            final(self).time == old(self).time,
            final(self).shift_key_down == old(self).shift_key_down,
            final(self).last_picked_obj == old(self).last_picked_obj,
            final(self).object_action == old(self).object_action,
            final(self).user_paused == old(self).user_paused,
            final(self).map_id == old(self).map_id,
            final(self).vars.state.sequences == old(self).vars.state.sequences,
            match action {
                Action::Rotate => {
                    &&& r matches Acted::Rotate { obj: turned }
                    &&& turned == obj
                    &&& final(self).sequencer@ == cancel_subject(old(self).sequencer@, obj)
                    &&& final(self).scripts == old(self).scripts
                    &&& final(self).vars == old(self).vars
                },
                Action::Talk => {
                    &&& r matches Acted::Talk { result }
                    &&& final(self).sequencer@.len() == 0
                    &&& match script {
                        Some(sid) => result.is_some() && old(self).scripts.hooked(
                            &final(self).scripts,
                            sid,
                            PredefinedProc::Talk,
                            old(self).vars.env(),
                            final(self).vars.env(),
                            budget as nat,
                            true,
                            result.unwrap(),
                        ),
                        None => result is None && final(self).scripts == old(self).scripts
                            && final(self).vars == old(self).vars,
                    }
                },
                _ => {
                    &&& r is Nothing
                    &&& final(self).sequencer == old(self).sequencer
                    &&& final(self).scripts == old(self).scripts
                    &&& final(self).vars == old(self).vars
                },
            },
    {
        match action {
            Action::Rotate => {
                let _ = self.sequencer.cancel(obj);
                Acted::Rotate { obj }
            },
            Action::Talk => {
                self.sequencer.cleanup();
                let result = match script {
                    Some(sid) => Some(
                        self.scripts.execute_predefined_proc(
                            sid,
                            PredefinedProc::Talk,
                            &mut self.vars,
                            budget,
                            true,
                        ),
                    ),
                    None => None,
                };
                Acted::Talk { result }
            },
            _ => Acted::Nothing,
        }
    }

    /// Runs the procedure that a dialog option names, if it names one. The
    /// procedure must run to its end: it may not ask to be suspended.
    pub fn pick_option(&mut self, sid: u32, proc: Option<usize>, budget: u64) -> (r: Option<
        Result<Flow, Error>,
    >)
        requires
            old(self).wf(),
            proc.is_some() ==> old(self).scripts.has_script(sid),
        ensures
            final(self).wf(),
            final(self).time == old(self).time,
            final(self).sequencer == old(self).sequencer,
            final(self).shift_key_down == old(self).shift_key_down,
            final(self).last_picked_obj == old(self).last_picked_obj,
            final(self).object_action == old(self).object_action,
            final(self).user_paused == old(self).user_paused,
            final(self).map_id == old(self).map_id,
            final(self).vars.state.sequences == old(self).vars.state.sequences,
            match proc {
                Some(p) => r.is_some() && old(self).scripts.invoked(
                    &final(self).scripts,
                    sid,
                    p as int,
                    old(self).vars.env(),
                    final(self).vars.env(),
                    budget as nat,
                    false,
                    r.unwrap(),
                ),
                None => r is None && final(self).scripts == old(self).scripts && final(self).vars
                    == old(self).vars,
            },
    {
        match proc {
            Some(p) => Some(self.scripts.execute_proc(sid, p, &mut self.vars, budget, false)),
            None => None,
        }
    }

    /// Resumes the script that waits for the dialog to end, if one does. The
    /// script must then run to its end: afterwards no script is waiting.
    pub fn end_dialog(&mut self, budget: u64) -> (r: Option<Result<Flow, Error>>)
        requires
            old(self).wf(),
        ensures
            final(self).wf(),
            final(self).time == old(self).time,
            final(self).sequencer == old(self).sequencer,
            final(self).shift_key_down == old(self).shift_key_down,
            final(self).last_picked_obj == old(self).last_picked_obj,
            final(self).object_action == old(self).object_action,
            final(self).user_paused == old(self).user_paused,
            final(self).map_id == old(self).map_id,
            final(self).vars.state.sequences == old(self).vars.state.sequences,
            old(self).scripts.resumed(
                &final(self).scripts,
                None,
                old(self).vars.env(),
                final(self).vars.env(),
                budget as nat,
                false,
                r,
            ),
            final(self).scripts.suspended is None,
    {
        self.scripts.resume(&mut self.vars, None, budget, false)
    }

    /// Lets `delta` pass and decides whether the game goes on.
    ///
    /// The clock moves first, if it was running. The game then stands still
    /// exactly if the player has paused it or a script waits to be resumed.
    /// If it goes on, the time to advance the world and the compositions to
    /// is returned. If it stands still, every composition is dropped at
    /// once, undriven, and nothing is returned.
    pub fn update(&mut self, delta: u64) -> (now: Option<u64>)
        requires
            old(self).wf(),
            !old(self).time.stopped() ==> old(self).time.shown() + delta <= u64::MAX,
        ensures
            final(self).wf(),
            old(self).same_scripts(final(self)),
            final(self).shift_key_down == old(self).shift_key_down,
            final(self).last_picked_obj == old(self).last_picked_obj,
            final(self).object_action == old(self).object_action,
            final(self).user_paused == old(self).user_paused,
            final(self).time.shown() == (if old(self).time.stopped() {
                old(self).time.shown()
            } else {
                (old(self).time.shown() + delta) as u64
            }),
            final(self).time.stopped() == (old(self).user_paused || old(self).scripts.suspended.is_some()),
            match now {
                Some(t) => !final(self).time.stopped() && t == final(self).time.shown() && final(self).sequencer == old(self).sequencer,
                None => final(self).time.stopped() && final(self).sequencer@.len() == 0,
            },
    {
        self.time.update(delta);
        let paused = self.user_paused || self.scripts.can_resume();
        self.time.set_paused(paused);
        if self.time.is_running() {
            Some(self.time.time())
        } else {
            self.sequencer.cleanup();
            None
        }
    }
}

/// What a keyboard event makes of the view of the world, of the player's
/// pause and of the shift keys, and whether the event is one of the game's.
pub open spec fn event_spec(event: Event, world: WorldView, user_paused: bool, shift: bool) -> (
    WorldView,
    bool,
    bool,
    bool,
) {
    match event {
        Event::KeyDown(Key::Right) => (
            WorldView { camera_x: (world.camera_x - SCROLL_STEP) as i32, ..world },
            user_paused,
            shift,
            true,
        ),
        Event::KeyDown(Key::Left) => (
            WorldView { camera_x: (world.camera_x + SCROLL_STEP) as i32, ..world },
            user_paused,
            shift,
            true,
        ),
        Event::KeyDown(Key::Up) => (
            WorldView { camera_y: (world.camera_y + SCROLL_STEP) as i32, ..world },
            user_paused,
            shift,
            true,
        ),
        Event::KeyDown(Key::Down) => (
            WorldView { camera_y: (world.camera_y - SCROLL_STEP) as i32, ..world },
            user_paused,
            shift,
            true,
        ),
        Event::KeyDown(Key::A) => (
            WorldView {
                dude_elevation: crate::game::event::step_up(
                    world.elevations@,
                    world.dude_elevation as int,
                ) as usize,
                ..world
            },
            user_paused,
            shift,
            true,
        ),
        Event::KeyDown(Key::Z) => (
            WorldView {
                dude_elevation: crate::game::event::step_down(
                    world.elevations@,
                    world.dude_elevation as int,
                ) as usize,
                ..world
            },
            user_paused,
            shift,
            true,
        ),
        Event::KeyDown(Key::LeftBracket) => (
            WorldView { ambient_light: crate::game::event::dimmer(world.ambient_light), ..world },
            user_paused,
            shift,
            true,
        ),
        Event::KeyDown(Key::RightBracket) => (
            WorldView { ambient_light: crate::game::event::brighter(world.ambient_light), ..world },
            user_paused,
            shift,
            true,
        ),
        Event::KeyDown(Key::R) => (world, user_paused, shift, true),
        Event::KeyDown(Key::P) => (world, !user_paused, shift, true),
        Event::KeyDown(Key::LShift) | Event::KeyDown(Key::RShift) => (
            world,
            user_paused,
            true,
            true,
        ),
        Event::KeyUp(Key::LShift) | Event::KeyUp(Key::RShift) => (world, user_paused, false, true),
        _ => (world, user_paused, shift, false),
    }
}

} // verus!
