use bstring::BString;
use scriptcore::game::event::{Event, Key, WorldView, ELEVATION_COUNT, MAX_LIGHT, SCROLL_STEP};
use scriptcore::game::message::{look_message, BULLET};
use scriptcore::game::script::Scripts;
use scriptcore::game::state::{
    dialog_finished, map_vars_source, Acted, GameState, MapVarsSource, ObjectAction,
    PausableTime,
};
use scriptcore::game::ui::{
    default_action, hex_cursor_style, menu_actions, move_anim, Action, CritterAnim,
    HexCursorStyle, ObjectPickKind, Reaction, UiCommand,
};
use scriptcore::sequence::{Outcome, Running, Sequence};
use scriptcore::vm::instruction::opcode::Opcode;
use scriptcore::vm::machine::Flow;
use scriptcore::vm::{
    Context, Error, PredefinedProc, Procedure, Program, Scope, Suspend, Value,
};

/// A sequence that runs for ever and counts its updates in the world.
struct Idle;

impl Sequence<u32> for Idle {
    fn update(&mut self, _time: u64, world: &mut u32) -> Outcome {
        *world += 1;
        Outcome::Running(Running::NotLagging)
    }
}

fn world() -> WorldView {
    WorldView {
        camera_x: 0,
        camera_y: 0,
        dude_elevation: 0,
        elevations: [true, true, true],
        ambient_light: 0x8000,
    }
}

fn game() -> GameState<Idle> {
    GameState::new(1000)
}

fn op(code: &mut Vec<u8>, op: Opcode) {
    code.extend_from_slice(&op.to_u16().to_be_bytes());
}

fn long(code: &mut Vec<u8>, v: i32) {
    op(code, Opcode::ConstLong);
    code.extend_from_slice(&v.to_be_bytes());
}

/// A script with three procedures:
/// 0 (`Talk`, offset 0): sets map variable 0 to 1, suspends, sets it to 2, returns;
/// 1 (offset 32): sets global variable 0 to 7 and returns;
/// 2 (`Start`, offset 48): asks the game for the dude object, then returns.
fn script() -> Program {
    let mut code = Vec::new();
    long(&mut code, 1);
    long(&mut code, 0);
    op(&mut code, Opcode::SetMapVar);
    op(&mut code, Opcode::GsayEnd);
    long(&mut code, 2);
    long(&mut code, 0);
    op(&mut code, Opcode::SetMapVar);
    op(&mut code, Opcode::PopFlagsReturnExtern);
    assert_eq!(code.len(), 32);
    long(&mut code, 7);
    long(&mut code, 0);
    op(&mut code, Opcode::SetGlobalVar);
    op(&mut code, Opcode::PopFlagsReturnExtern);
    assert_eq!(code.len(), 48);
    op(&mut code, Opcode::DudeObj);
    op(&mut code, Opcode::Pop);
    op(&mut code, Opcode::PopFlagsReturnExtern);
    let p = |offset, hook| Procedure { name: Vec::new(), offset, arg_count: 0, hook };
    Program {
        code,
        procs: vec![
            p(0, Some(PredefinedProc::Talk)),
            p(32, None),
            p(48, Some(PredefinedProc::Start)),
        ],
        pool: Vec::new(),
    }
}

fn context() -> Context<Idle> {
    Context::new(Scope::new(2), Scope::new(2))
}

#[test]
fn pausable_time_runs_unless_paused() {
    let mut t = PausableTime::new(100);
    assert_eq!(t.time(), 100);
    assert!(t.is_running());
    assert!(!t.is_paused());
    t.update(16);
    assert_eq!(t.time(), 116);
    t.set_paused(true);
    assert!(t.is_paused());
    assert!(!t.is_running());
    t.update(16);
    assert_eq!(t.time(), 116);
    t.toggle();
    assert!(t.is_running());
    t.update(4);
    assert_eq!(t.time(), 120);
    t.toggle();
    assert!(t.is_paused());
    t.set_paused(false);
    t.update(0);
    assert_eq!(t.time(), 120);
}

#[test]
fn look_message_is_bullet_words_and_name() {
    assert_eq!(BULLET, 0x95);
    let m = look_message(b"Vault Dweller");
    assert_eq!(m, BString::from(&b"\x95You see: Vault Dweller"[..]));
    assert_eq!(look_message(b""), BString::from(&b"\x95You see: "[..]));
    assert_eq!(look_message(&[0xff, 0x00]), BString::from(&b"\x95You see: \xff\x00"[..]));
}

#[test]
fn default_action_turns_the_dude_and_talks_to_others() {
    assert_eq!(default_action(true), Action::Rotate);
    assert_eq!(default_action(false), Action::Talk);
}

#[test]
fn menu_lists_no_action_twice() {
    assert_eq!(
        menu_actions(Action::Rotate),
        vec![Action::Rotate, Action::Look, Action::Talk, Action::Cancel]
    );
    assert_eq!(menu_actions(Action::Talk), vec![Action::Talk, Action::Look, Action::Cancel]);
    assert_eq!(menu_actions(Action::Look), vec![Action::Look, Action::Talk, Action::Cancel]);
    assert_eq!(menu_actions(Action::Cancel), vec![Action::Cancel, Action::Look, Action::Talk]);
}

#[test]
fn gait_and_cursor() {
    assert_eq!(move_anim(true), CritterAnim::Walk);
    assert_eq!(move_anim(false), CritterAnim::Running);
    assert_eq!(hex_cursor_style(true), HexCursorStyle::Normal);
    assert_eq!(hex_cursor_style(false), HexCursorStyle::Blocked);
}

#[test]
fn map_variables_come_from_map_file_or_nowhere() {
    assert_eq!(map_vars_source(true, true), MapVarsSource::Saved);
    assert_eq!(map_vars_source(true, false), MapVarsSource::Saved);
    assert_eq!(map_vars_source(false, true), MapVarsSource::File);
    assert_eq!(map_vars_source(false, false), MapVarsSource::Empty);
}

#[test]
fn new_game_state_is_idle() {
    let g = game();
    assert_eq!(g.time.time(), 1000);
    assert!(g.time.is_running());
    assert!(!g.scripts.can_resume());
    assert_eq!(g.sequencer.len(), 0);
    assert!(!g.shift_key_down);
    assert!(!g.user_paused);
    assert_eq!(g.last_picked_obj, None);
    assert_eq!(g.object_action, None);
    assert_eq!(g.map_id, None);
    assert_eq!(g.vars.map_vars.len(), 0);
}

#[test]
fn new_game_takes_note_of_map_and_variables() {
    let mut g = game();
    g.new_game(42, Scope::from_values(&vec![Value::Int(3)]), Scope::new(5));
    assert_eq!(g.map_id, Some(42));
    assert_eq!(g.vars.map_vars.fetch(0), Ok(Value::Int(3)));
    assert_eq!(g.vars.global_vars.len(), 5);
}

#[test]
fn arrow_keys_scroll_the_camera() {
    assert_eq!(SCROLL_STEP, 10);
    let mut g = game();
    let mut w = world();
    assert!(g.handle_event(Event::KeyDown(Key::Right), &mut w));
    assert_eq!((w.camera_x, w.camera_y), (-10, 0));
    assert!(g.handle_event(Event::KeyDown(Key::Left), &mut w));
    assert!(g.handle_event(Event::KeyDown(Key::Left), &mut w));
    assert_eq!((w.camera_x, w.camera_y), (10, 0));
    assert!(g.handle_event(Event::KeyDown(Key::Up), &mut w));
    assert_eq!((w.camera_x, w.camera_y), (10, 10));
    assert!(g.handle_event(Event::KeyDown(Key::Down), &mut w));
    assert!(g.handle_event(Event::KeyDown(Key::Down), &mut w));
    assert_eq!((w.camera_x, w.camera_y), (10, -10));
    assert!(!g.handle_event(Event::KeyUp(Key::Down), &mut w));
    assert_eq!((w.camera_x, w.camera_y), (10, -10));
}

#[test]
fn a_and_z_move_between_the_levels_that_exist() {
    assert_eq!(ELEVATION_COUNT, 3);
    let mut g = game();
    let mut w = world();
    w.elevations = [true, false, true];
    assert!(g.handle_event(Event::KeyDown(Key::A), &mut w));
    assert_eq!(w.dude_elevation, 2);
    assert!(g.handle_event(Event::KeyDown(Key::A), &mut w));
    assert_eq!(w.dude_elevation, 2);
    assert!(g.handle_event(Event::KeyDown(Key::Z), &mut w));
    assert_eq!(w.dude_elevation, 0);
    assert!(g.handle_event(Event::KeyDown(Key::Z), &mut w));
    assert_eq!(w.dude_elevation, 0);
    w.elevations = [false, true, false];
    w.dude_elevation = 1;
    assert!(g.handle_event(Event::KeyDown(Key::A), &mut w));
    assert_eq!(w.dude_elevation, 1);
    assert!(g.handle_event(Event::KeyDown(Key::Z), &mut w));
    assert_eq!(w.dude_elevation, 1);
    w.elevations = [true, true, true];
    w.dude_elevation = 2;
    assert!(g.handle_event(Event::KeyDown(Key::Z), &mut w));
    assert_eq!(w.dude_elevation, 1);
    assert!(g.handle_event(Event::KeyDown(Key::A), &mut w));
    assert_eq!(w.dude_elevation, 2);
}

#[test]
fn brackets_change_the_ambient_light_within_bounds() {
    assert_eq!(MAX_LIGHT, 0x10000);
    let mut g = game();
    let mut w = world();
    w.ambient_light = 1500;
    assert!(g.handle_event(Event::KeyDown(Key::LeftBracket), &mut w));
    assert_eq!(w.ambient_light, 500);
    assert!(g.handle_event(Event::KeyDown(Key::LeftBracket), &mut w));
    assert_eq!(w.ambient_light, 0);
    assert!(g.handle_event(Event::KeyDown(Key::RightBracket), &mut w));
    assert_eq!(w.ambient_light, 1000);
    w.ambient_light = 0x10000 - 1000;
    assert!(g.handle_event(Event::KeyDown(Key::RightBracket), &mut w));
    assert_eq!(w.ambient_light, 0x10000);
    w.ambient_light = 0x10000 - 999;
    assert!(g.handle_event(Event::KeyDown(Key::RightBracket), &mut w));
    assert_eq!(w.ambient_light, 0x10000);
    w.ambient_light = 0x10000;
    assert!(g.handle_event(Event::KeyDown(Key::RightBracket), &mut w));
    assert_eq!(w.ambient_light, 0x10000);
    w.ambient_light = 1000;
    assert!(g.handle_event(Event::KeyDown(Key::LeftBracket), &mut w));
    assert_eq!(w.ambient_light, 0);
    w.ambient_light = u32::MAX;
    assert!(g.handle_event(Event::KeyDown(Key::LeftBracket), &mut w));
    assert_eq!(w.ambient_light, 0);
}

#[test]
fn pause_shift_and_other_keys() {
    let mut g = game();
    let mut w = world();
    let before = w;
    assert!(g.handle_event(Event::KeyDown(Key::P), &mut w));
    assert!(g.user_paused);
    assert!(g.handle_event(Event::KeyDown(Key::P), &mut w));
    assert!(!g.user_paused);
    assert!(g.handle_event(Event::KeyDown(Key::LShift), &mut w));
    assert!(g.shift_key_down);
    assert!(g.handle_event(Event::KeyUp(Key::RShift), &mut w));
    assert!(!g.shift_key_down);
    assert!(g.handle_event(Event::KeyDown(Key::RShift), &mut w));
    assert!(g.shift_key_down);
    assert!(g.handle_event(Event::KeyUp(Key::LShift), &mut w));
    assert!(!g.shift_key_down);
    assert!(g.handle_event(Event::KeyDown(Key::R), &mut w));
    assert!(!g.handle_event(Event::KeyDown(Key::Other), &mut w));
    assert!(!g.handle_event(Event::KeyUp(Key::P), &mut w));
    assert!(!g.handle_event(Event::Other, &mut w));
    assert_eq!(w, before);
    assert!(!g.user_paused);
}

fn hover(obj: u64, is_dude: bool, name: Option<&[u8]>) -> UiCommand<'_> {
    UiCommand::ObjectPick { kind: ObjectPickKind::Hover, obj, is_dude, name }
}

#[test]
fn hover_announces_an_object_once() {
    let mut g = game();
    match g.handle_ui_command(hover(5, false, Some(b"Rat"))) {
        Reaction::Hover { icon, message } => {
            assert_eq!(icon, Some(Action::Talk));
            assert_eq!(message, Some(BString::from(&b"\x95You see: Rat"[..])));
        }
        _ => panic!("a hover is answered by a hover"),
    }
    assert_eq!(g.last_picked_obj, Some(5));
    match g.handle_ui_command(hover(5, false, Some(b"Rat"))) {
        Reaction::Hover { icon, message } => {
            assert_eq!(icon, Some(Action::Talk));
            assert_eq!(message, None);
        }
        _ => panic!("a hover is answered by a hover"),
    }
    match g.handle_ui_command(hover(6, true, None)) {
        Reaction::Hover { icon, message } => {
            assert_eq!(icon, Some(Action::Rotate));
            assert_eq!(message, None);
        }
        _ => panic!("a hover is answered by a hover"),
    }
    assert_eq!(g.last_picked_obj, Some(6));
}

#[test]
fn hover_proposes_nothing_while_a_menu_is_open() {
    let mut g = game();
    g.menu_shown(77, 5);
    match g.handle_ui_command(hover(5, false, Some(b"Rat"))) {
        Reaction::Hover { icon, message } => {
            assert_eq!(icon, None);
            assert!(message.is_some());
        }
        _ => panic!("a hover is answered by a hover"),
    }
}

#[test]
fn action_menu_pauses_until_an_action_is_chosen() {
    let mut g = game();
    let pick = UiCommand::ObjectPick { kind: ObjectPickKind::ActionMenu, obj: 5, is_dude: false, name: None };
    match g.handle_ui_command(pick) {
        Reaction::ShowActionMenu { actions, obj } => {
            assert_eq!(actions, vec![Action::Talk, Action::Look, Action::Cancel]);
            assert_eq!(obj, 5);
        }
        _ => panic!("the menu is to be shown"),
    }
    assert!(g.time.is_paused());
    assert_eq!(g.object_action, None);
    g.menu_shown(77, 5);
    assert_eq!(g.object_action, Some(ObjectAction { menu: 77, obj: 5 }));
    match g.handle_ui_command(UiCommand::Action { action: Action::Look }) {
        Reaction::Act { obj, action, menu } => {
            assert_eq!((obj, action, menu), (5, Action::Look, Some(77)));
        }
        _ => panic!("the chosen action is to be performed"),
    }
    assert_eq!(g.object_action, None);
    assert!(g.time.is_running());
}

#[test]
fn default_action_pick_acts_at_once() {
    let mut g = game();
    let pick = UiCommand::ObjectPick { kind: ObjectPickKind::DefaultAction, obj: 9, is_dude: true, name: None };
    match g.handle_ui_command(pick) {
        Reaction::Act { obj, action, menu } => {
            assert_eq!((obj, action, menu), (9, Action::Rotate, None));
        }
        _ => panic!("the proposed action is to be performed"),
    }
    assert!(g.time.is_running());
}

#[test]
fn hex_pick_cancels_and_sets_out_on_a_path_that_is_not_empty() {
    let mut g = game();
    g.sequencer.start(1, Idle);
    g.sequencer.start(2, Idle);
    let go = |path_len| UiCommand::HexPick { go: true, dude: 1, path_len };
    match g.handle_ui_command(go(Some(3))) {
        Reaction::Go { dude, anim } => assert_eq!((dude, anim), (1, Some(CritterAnim::Running))),
        _ => panic!("the character is to go"),
    }
    assert!(!g.sequencer.is_active(1));
    assert!(g.sequencer.is_active(2));
    g.sequencer.start(1, Idle);
    g.shift_key_down = true;
    match g.handle_ui_command(go(Some(1))) {
        Reaction::Go { dude, anim } => assert_eq!((dude, anim), (1, Some(CritterAnim::Walk))),
        _ => panic!("the character is to go"),
    }
    g.sequencer.start(1, Idle);
    match g.handle_ui_command(go(Some(0))) {
        Reaction::Go { dude, anim } => assert_eq!((dude, anim), (1, None)),
        _ => panic!("the character is to stay"),
    }
    assert!(!g.sequencer.is_active(1));
    g.sequencer.start(1, Idle);
    match g.handle_ui_command(go(None)) {
        Reaction::Go { dude, anim } => assert_eq!((dude, anim), (1, None)),
        _ => panic!("the character is to stay"),
    }
    assert!(!g.sequencer.is_active(1));
    let mut world = 0;
    g.sequencer.update(1, &mut world);
    assert_eq!(world, 1);
    assert_eq!(g.sequencer.len(), 1);
}

#[test]
fn hex_pick_without_action_only_styles_the_cursor() {
    let mut g = game();
    g.sequencer.start(1, Idle);
    let point = |path_len| UiCommand::HexPick { go: false, dude: 1, path_len };
    match g.handle_ui_command(point(Some(0))) {
        Reaction::HexCursor { style } => assert_eq!(style, HexCursorStyle::Normal),
        _ => panic!("the cursor is to be styled"),
    }
    match g.handle_ui_command(point(None)) {
        Reaction::HexCursor { style } => assert_eq!(style, HexCursorStyle::Blocked),
        _ => panic!("the cursor is to be styled"),
    }
    assert!(g.sequencer.is_active(1));
    assert!(matches!(g.handle_ui_command(UiCommand::Other), Reaction::Nothing));
}

#[test]
fn rotate_cancels_the_objects_composition() {
    let mut g = game();
    g.sequencer.start(1, Idle);
    g.sequencer.start(2, Idle);
    match g.handle_action(1, Action::Rotate, None, 100) {
        Acted::Rotate { obj } => assert_eq!(obj, 1),
        _ => panic!("the object is to be turned"),
    }
    assert!(!g.sequencer.is_active(1));
    assert!(g.sequencer.is_active(2));
    assert!(matches!(g.handle_action(2, Action::Look, None, 100), Acted::Nothing));
    assert!(g.sequencer.is_active(2));
}

#[test]
fn talk_drops_all_compositions_and_runs_the_talk_procedure() {
    let mut g = game();
    g.new_game(1, Scope::new(2), Scope::new(2));
    assert!(g.scripts.insert(10, script()).is_ok());
    g.sequencer.start(1, Idle);
    g.sequencer.start(2, Idle);
    match g.handle_action(1, Action::Talk, Some(10), 100) {
        Acted::Talk { result } => assert_eq!(result, Some(Ok(Flow::Suspend(Suspend::GsayEnd)))),
        _ => panic!("the object is to be talked to"),
    }
    assert_eq!(g.sequencer.len(), 0);
    assert!(g.scripts.can_resume());
    assert_eq!(g.vars.map_vars.fetch(0), Ok(Value::Int(1)));
    match g.handle_action(1, Action::Talk, None, 100) {
        Acted::Talk { result } => assert_eq!(result, None),
        _ => panic!("the object is to be talked to"),
    }
}

#[test]
fn update_advances_time_and_goes_on_unless_paused() {
    let mut g = game();
    g.sequencer.start(1, Idle);
    assert_eq!(g.update(16), Some(1016));
    assert_eq!(g.sequencer.len(), 1);
    g.user_paused = true;
    // The clock was running when the time passed, so it moves once more.
    assert_eq!(g.update(16), None);
    assert_eq!(g.time.time(), 1032);
    assert!(g.time.is_paused());
    assert_eq!(g.sequencer.len(), 0);
    assert_eq!(g.update(16), None);
    assert_eq!(g.time.time(), 1032);
    g.user_paused = false;
    assert_eq!(g.update(16), Some(1032));
    assert_eq!(g.update(16), Some(1048));
}

#[test]
fn update_stands_still_while_a_script_is_suspended() {
    let mut g = game();
    g.new_game(1, Scope::new(2), Scope::new(2));
    assert!(g.scripts.insert(10, script()).is_ok());
    let _ = g.handle_action(1, Action::Talk, Some(10), 100);
    g.sequencer.start(1, Idle);
    assert_eq!(g.update(1), None);
    assert_eq!(g.sequencer.len(), 0);
    assert_eq!(g.scripts.resume(&mut g.vars, None, 100, false), Some(Ok(Flow::Returned)));
    assert_eq!(g.update(1), Some(1001));
}

#[test]
fn scripts_registry_keeps_identifiers_apart() {
    let mut s = Scripts::new();
    assert_eq!(s.find(1), None);
    assert!(s.insert(1, script()).is_ok());
    assert!(s.insert(2, script()).is_ok());
    assert!(s.insert(1, script()).is_err());
    assert_eq!(s.find(1), Some(0));
    assert_eq!(s.find(2), Some(1));
    assert_eq!(s.find(3), None);
    assert!(!s.can_resume());
}

#[test]
fn execute_proc_runs_to_the_procedures_return() {
    let mut s = Scripts::new();
    let mut ctx = context();
    s.insert(1, script()).unwrap();
    ctx.state.script_overrides = true;
    assert_eq!(s.execute_proc(1, 1, &mut ctx, 100, false), Ok(Flow::Returned));
    assert_eq!(ctx.global_vars.fetch(0), Ok(Value::Int(7)));
    assert!(!ctx.state.script_overrides);
    assert!(s.scripts[0].state.data_stack.is_empty());
    assert!(s.scripts[0].state.frames.is_empty());
    assert!(!s.can_resume());
}

#[test]
fn execute_proc_fails_for_a_procedure_that_is_not_there() {
    let mut s = Scripts::new();
    let mut ctx = context();
    s.insert(1, script()).unwrap();
    assert_eq!(s.execute_proc(1, 3, &mut ctx, 100, true), Err(Error::BadOperandType));
    assert_eq!(s.scripts[0].state.pc, 0);
}

#[test]
fn predefined_procedure_that_is_missing_just_returns() {
    let mut s = Scripts::new();
    let mut ctx = context();
    s.insert(1, script()).unwrap();
    assert_eq!(
        s.execute_predefined_proc(1, PredefinedProc::MapEnter, &mut ctx, 100, false),
        Ok(Flow::Returned)
    );
    assert_eq!(ctx.map_vars.fetch(0), Ok(Value::Int(0)));
    assert_eq!(ctx.global_vars.fetch(0), Ok(Value::Int(0)));
}

#[test]
fn suspended_script_resumes_behind_the_suspension_point() {
    let mut s = Scripts::new();
    let mut ctx = context();
    s.insert(1, script()).unwrap();
    assert_eq!(
        s.execute_predefined_proc(1, PredefinedProc::Talk, &mut ctx, 100, true),
        Ok(Flow::Suspend(Suspend::GsayEnd))
    );
    assert!(s.can_resume());
    assert_eq!(ctx.map_vars.fetch(0), Ok(Value::Int(1)));
    {
        let kept = &s.suspended.as_ref().unwrap().execution;
        assert_eq!(kept.pc, 16);
        assert!(kept.data_stack.is_empty());
        assert_eq!(kept.frames.len(), 1);
    }
    // Another procedure of the same script runs while the first one waits.
    assert_eq!(s.execute_proc(1, 1, &mut ctx, 100, false), Ok(Flow::Returned));
    assert_eq!(ctx.global_vars.fetch(0), Ok(Value::Int(7)));
    assert!(s.can_resume());
    assert_eq!(s.suspended.as_ref().unwrap().execution.pc, 16);
    assert_eq!(s.resume(&mut ctx, None, 100, false), Some(Ok(Flow::Returned)));
    assert_eq!(ctx.map_vars.fetch(0), Ok(Value::Int(2)));
    assert!(!s.can_resume());
    assert_eq!(s.resume(&mut ctx, None, 100, false), None);
}

#[test]
fn resume_pushes_the_value_it_is_given() {
    let mut code = Vec::new();
    op(&mut code, Opcode::GsayEnd);
    long(&mut code, 1);
    op(&mut code, Opcode::SetMapVar);
    op(&mut code, Opcode::PopFlagsReturnExtern);
    let program = Program {
        code,
        procs: vec![Procedure { name: Vec::new(), offset: 0, arg_count: 0, hook: None }],
        pool: Vec::new(),
    };
    let mut s = Scripts::new();
    let mut ctx = context();
    s.insert(4, program).unwrap();
    assert_eq!(s.execute_proc(4, 0, &mut ctx, 100, true), Ok(Flow::Suspend(Suspend::GsayEnd)));
    assert_eq!(s.resume(&mut ctx, Some(Value::Int(55)), 100, true), Some(Ok(Flow::Returned)));
    assert_eq!(ctx.map_vars.fetch(1), Ok(Value::Int(55)));
}

#[test]
fn suspension_where_none_is_allowed_is_an_error() {
    let mut s = Scripts::new();
    let mut ctx = context();
    s.insert(1, script()).unwrap();
    assert_eq!(s.execute_proc(1, 0, &mut ctx, 100, false), Err(Error::IllegalSuspend));
    assert!(!s.can_resume());
}

#[test]
fn only_one_script_waits_at_a_time() {
    let mut s = Scripts::new();
    let mut ctx = context();
    s.insert(1, script()).unwrap();
    s.insert(2, script()).unwrap();
    assert_eq!(s.execute_proc(1, 0, &mut ctx, 100, true), Ok(Flow::Suspend(Suspend::GsayEnd)));
    assert_eq!(s.execute_proc(2, 0, &mut ctx, 100, true), Err(Error::IllegalSuspend));
    assert_eq!(s.suspended.as_ref().unwrap().script, 0);
}

#[test]
fn host_instruction_interrupts_an_invocation_until_it_proceeds() {
    let mut s = Scripts::new();
    let mut ctx = context();
    s.insert(1, script()).unwrap();
    assert_eq!(
        s.execute_predefined_proc(1, PredefinedProc::Start, &mut ctx, 100, false),
        Ok(Flow::Host(Opcode::DudeObj))
    );
    s.scripts[0].state.push(Value::Object(Some(1)));
    assert_eq!(s.proceed(1, &mut ctx, 100, false), Ok(Flow::Returned));
    assert!(s.scripts[0].state.data_stack.is_empty());
}

#[test]
fn budget_interrupts_an_invocation_until_it_proceeds() {
    let mut s = Scripts::new();
    let mut ctx = context();
    s.insert(1, script()).unwrap();
    assert_eq!(s.execute_proc(1, 1, &mut ctx, 2, false), Ok(Flow::Continue));
    assert_eq!(ctx.global_vars.fetch(0), Ok(Value::Int(0)));
    assert_eq!(s.proceed(1, &mut ctx, 1, false), Ok(Flow::Continue));
    assert_eq!(ctx.global_vars.fetch(0), Ok(Value::Int(7)));
    assert_eq!(s.proceed(1, &mut ctx, 1, false), Ok(Flow::Returned));
}

#[test]
fn failure_abandons_the_invocation_and_nothing_else() {
    let mut code = Vec::new();
    op(&mut code, Opcode::Add);
    let program = Program {
        code,
        procs: vec![Procedure { name: Vec::new(), offset: 0, arg_count: 0, hook: None }],
        pool: Vec::new(),
    };
    let mut s = Scripts::new();
    let mut ctx = context();
    s.insert(1, script()).unwrap();
    s.insert(2, program).unwrap();
    assert_eq!(s.execute_proc(1, 0, &mut ctx, 100, true), Ok(Flow::Suspend(Suspend::GsayEnd)));
    assert_eq!(s.execute_proc(2, 0, &mut ctx, 100, true), Err(Error::StackUnderflow));
    assert_eq!(s.scripts[1].state.pc, 0);
    assert!(s.can_resume());
    assert_eq!(s.resume(&mut ctx, None, 100, true), Some(Ok(Flow::Returned)));
    assert_eq!(ctx.map_vars.fetch(0), Ok(Value::Int(2)));
}

#[test]
fn dialog_is_over_without_a_procedure_or_without_options() {
    assert!(dialog_finished(false, false));
    assert!(dialog_finished(false, true));
    assert!(dialog_finished(true, true));
    assert!(!dialog_finished(true, false));
}

#[test]
fn picked_option_runs_while_the_talk_procedure_waits() {
    let mut g = game();
    g.new_game(1, Scope::new(2), Scope::new(2));
    g.scripts.insert(10, script()).unwrap();
    let _ = g.handle_action(1, Action::Talk, Some(10), 100);
    assert!(g.scripts.can_resume());
    assert_eq!(g.pick_option(10, None, 100), None);
    assert_eq!(g.pick_option(10, Some(1), 100), Some(Ok(Flow::Returned)));
    assert_eq!(g.vars.global_vars.fetch(0), Ok(Value::Int(7)));
    assert!(g.scripts.can_resume());
    assert_eq!(g.end_dialog(100), Some(Ok(Flow::Returned)));
    assert!(!g.scripts.can_resume());
    assert_eq!(g.vars.map_vars.fetch(0), Ok(Value::Int(2)));
    assert_eq!(g.end_dialog(100), None);
}

#[test]
fn picked_option_may_not_suspend() {
    let mut g = game();
    g.new_game(1, Scope::new(2), Scope::new(2));
    g.scripts.insert(10, script()).unwrap();
    assert_eq!(g.pick_option(10, Some(0), 100), Some(Err(Error::IllegalSuspend)));
    assert!(!g.scripts.can_resume());
}
