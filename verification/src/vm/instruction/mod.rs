//! Instructions and their dispatch.
//!
//! An [`Instruction`] pairs a tag with the [`Handler`] that executes it.
//! [`instruction_map`] holds one instruction per tag, keyed by the tag's
//! numeric code, so that the gaps in the numbering leave no gaps in the
//! table.

use std::collections::HashMap;
use vstd::prelude::*;
use crate::sequence::chain::Chain;
use crate::vm::error::{Error, Suspend};
use crate::vm::machine::{BinaryOp, Env, Flow, Machine, Step, UnaryOp};
use crate::vm::program::Program;
use crate::vm::state::ProgramState;

pub mod impls;
pub mod opcode;

pub use opcode::Opcode;

verus! {

/// What scripts have set in motion and not yet handed over.
pub struct State<S> {
    /// The chains that scripts have put together, by subject, until they are
    /// started.
    pub sequences: HashMap<u64, Chain<S>>,
    /// Whether the running script has overridden the game's default
    /// behaviour. Cleared before every invocation of a procedure.
    pub script_overrides: bool,
}

impl<S> State<S> {
    /// A state with no chains and the flag cleared.
    pub fn new() -> (s: Self)
        ensures
            s.sequences@ == Map::<u64, Chain<S>>::empty(),
            !s.script_overrides,
    {
        State { sequences: HashMap::new(), script_overrides: false }
    }
}

/// What an instruction works on: the machine of the script that runs, and
/// what lies outside it.
pub struct Context<'a, S> {
    /// The machine.
    pub prg: &'a mut ProgramState,
    /// The variables that outlive the script, and the script's pending
    /// chains.
    pub ext: &'a mut crate::vm::state::Context<S>,
}

/// The ways of executing an instruction.
#[derive(Clone, Copy, Debug, PartialEq, Eq, Structural)]
pub enum Handler {
    /// Does nothing.
    Noop,
    /// Pushes the integer literal that follows the tag.
    ConstInt,
    /// Pushes the single-precision literal that follows the tag.
    ConstFloat,
    /// Pushes the string literal that follows the tag.
    ConstString,
    /// Removes the top of the data stack.
    Pop,
    /// Duplicates the top of the data stack.
    Dup,
    /// Exchanges the two topmost values.
    Swap,
    /// Combines the two topmost values.
    Binary(BinaryOp),
    /// Transforms the top value.
    Unary(UnaryOp),
    /// Jumps.
    Jmp,
    /// Jumps if a condition is zero.
    If,
    /// Calls a procedure.
    Call,
    /// Leaves a procedure: the one primitive behind the whole family of
    /// returning instructions.
    Return { has_value: bool, is_exit: bool, is_extern: bool },
    /// Ends the program.
    ExitProg,
    /// Reads a local variable.
    Fetch,
    /// Writes a local variable.
    Store,
    /// Reads an exported variable.
    FetchExternal,
    /// Writes an exported variable.
    StoreExternal,
    /// Reads a variable of the map.
    MapVar,
    /// Writes a variable of the map.
    SetMapVar,
    /// Reads a variable of the game.
    GlobalVar,
    /// Writes a variable of the game.
    SetGlobalVar,
    /// Raises the flag that the script overrides the default behaviour.
    ScriptOverrides,
    /// Ends a dialog node and suspends the script until the player has
    /// chosen.
    GsayEnd,
    /// Stands in for an instruction that nothing executes yet: fails.
    Unimplemented,
    /// Hands the instruction to the game.
    Host,
}

impl Handler {
    /// The handler of each tag.
    ///
    /// An instruction whose work lies outside this machine, in the game's
    /// world or in conventions of the compiled format that the machine does
    /// not keep itself, is handed to the game. A tag that nothing executes
    /// gets the failing stand-in, so that running into it is noticed.
    pub open spec fn of(op: Opcode) -> Handler {
        match op {
            Opcode::Noop8000 => Handler::Noop,
            Opcode::ConstShort => Handler::Unimplemented,
            Opcode::CriticalStart => Handler::Noop,
            Opcode::CriticalDone => Handler::Noop,
            Opcode::Jmp => Handler::Jmp,
            Opcode::Call => Handler::Call,
            Opcode::CallAt => Handler::Unimplemented,
            Opcode::CallCondition => Handler::Unimplemented,
            Opcode::Callstart => Handler::Unimplemented,
            Opcode::Exec => Handler::Unimplemented,
            Opcode::Spawn => Handler::Unimplemented,
            Opcode::Fork => Handler::Unimplemented,
            Opcode::AToD => Handler::Host,
            Opcode::DToA => Handler::Host,
            Opcode::Exit => Handler::Unimplemented,
            Opcode::Detach => Handler::Unimplemented,
            Opcode::ExitProg => Handler::ExitProg,
            Opcode::StopProg => Handler::Unimplemented,
            Opcode::FetchGlobal => Handler::Host,
            Opcode::StoreGlobal => Handler::Host,
            Opcode::FetchExternal => Handler::FetchExternal,
            Opcode::StoreExternal => Handler::StoreExternal,
            Opcode::ExportVar => Handler::Host,
            Opcode::ExportProc => Handler::Unimplemented,
            Opcode::Swap => Handler::Swap,
            Opcode::Swapa => Handler::Host,
            Opcode::Pop => Handler::Pop,
            Opcode::Dup => Handler::Dup,
            Opcode::PopReturn => Handler::Host,
            Opcode::PopExit => Handler::Unimplemented,
            Opcode::PopAddress => Handler::Unimplemented,
            Opcode::PopFlags => Handler::Host,
            Opcode::PopFlagsReturn => Handler::Return { has_value: false, is_exit: false, is_extern: false },
            Opcode::PopFlagsExit => Handler::Return { has_value: false, is_exit: true, is_extern: false },
            Opcode::PopFlagsReturnExtern => Handler::Return { has_value: false, is_exit: false, is_extern: true },
            Opcode::PopFlagsExitExtern => Handler::Return { has_value: false, is_exit: true, is_extern: true },
            Opcode::PopFlagsReturnValExtern => Handler::Return { has_value: true, is_exit: false, is_extern: true },
            Opcode::PopFlagsReturnValExit => Handler::Return { has_value: true, is_exit: true, is_extern: false },
            Opcode::PopFlagsReturnValExitExtern => Handler::Return { has_value: true, is_exit: true, is_extern: true },
            Opcode::CheckArgCount => Handler::Unimplemented,
            Opcode::LookupStringProc => Handler::Unimplemented,
            Opcode::PopBase => Handler::Host,
            Opcode::PopToBase => Handler::Host,
            Opcode::PushBase => Handler::Host,
            Opcode::SetGlobal => Handler::Host,
            Opcode::FetchProcAddress => Handler::Unimplemented,
            Opcode::Dump => Handler::Unimplemented,
            Opcode::If => Handler::If,
            Opcode::While => Handler::Host,
            Opcode::Store => Handler::Store,
            Opcode::Fetch => Handler::Fetch,
            Opcode::Equal => Handler::Binary(BinaryOp::Equal),
            Opcode::NotEqual => Handler::Binary(BinaryOp::NotEqual),
            Opcode::LessEqual => Handler::Binary(BinaryOp::LessEqual),
            Opcode::GreaterEqual => Handler::Binary(BinaryOp::GreaterEqual),
            Opcode::Less => Handler::Binary(BinaryOp::Less),
            Opcode::Greater => Handler::Binary(BinaryOp::Greater),
            Opcode::Add => Handler::Binary(BinaryOp::Add),
            Opcode::Sub => Handler::Binary(BinaryOp::Sub),
            Opcode::Mul => Handler::Binary(BinaryOp::Mul),
            Opcode::Div => Handler::Binary(BinaryOp::Div),
            Opcode::Mod => Handler::Binary(BinaryOp::Mod),
            Opcode::And => Handler::Binary(BinaryOp::And),
            Opcode::Or => Handler::Binary(BinaryOp::Or),
            Opcode::Bwand => Handler::Binary(BinaryOp::Bwand),
            Opcode::Bwor => Handler::Binary(BinaryOp::Bwor),
            Opcode::Bwxor => Handler::Binary(BinaryOp::Bwxor),
            Opcode::Bwnot => Handler::Unary(UnaryOp::Bwnot),
            Opcode::Floor => Handler::Unimplemented,
            Opcode::Not => Handler::Unary(UnaryOp::Not),
            Opcode::Negate => Handler::Unary(UnaryOp::Negate),
            Opcode::Wait => Handler::Unimplemented,
            Opcode::Cancel => Handler::Unimplemented,
            Opcode::Cancelall => Handler::Unimplemented,
            Opcode::CriticalStart804a => Handler::Noop,
            Opcode::CriticalDone804b => Handler::Noop,
            Opcode::Sayquit => Handler::Unimplemented,
            Opcode::Sayend => Handler::Unimplemented,
            Opcode::Saystart => Handler::Unimplemented,
            Opcode::Saystartpos => Handler::Unimplemented,
            Opcode::Sayreplytitle => Handler::Unimplemented,
            Opcode::Saygotoreply => Handler::Unimplemented,
            Opcode::Sayreply => Handler::Unimplemented,
            Opcode::Sayoption => Handler::Unimplemented,
            Opcode::Saymessage => Handler::Unimplemented,
            Opcode::Sayreplywindow => Handler::Unimplemented,
            Opcode::Sayoptionwindow => Handler::Unimplemented,
            Opcode::Sayborder => Handler::Unimplemented,
            Opcode::Sayscrollup => Handler::Unimplemented,
            Opcode::Sayscrolldown => Handler::Unimplemented,
            Opcode::Saysetspacing => Handler::Unimplemented,
            Opcode::Sayoptioncolor => Handler::Unimplemented,
            Opcode::Sayreplycolor => Handler::Unimplemented,
            Opcode::Sayrestart => Handler::Unimplemented,
            Opcode::Saygetlastpos => Handler::Unimplemented,
            Opcode::Sayreplyflags => Handler::Unimplemented,
            Opcode::Sayoptionflags => Handler::Unimplemented,
            Opcode::Saymessagetimeout => Handler::Unimplemented,
            Opcode::Createwin => Handler::Unimplemented,
            Opcode::Deletewin => Handler::Unimplemented,
            Opcode::Selectwin => Handler::Unimplemented,
            Opcode::Resizewin => Handler::Unimplemented,
            Opcode::Scalewin => Handler::Unimplemented,
            Opcode::Showwin => Handler::Unimplemented,
            Opcode::Fillwin => Handler::Unimplemented,
            Opcode::Fillrect => Handler::Unimplemented,
            Opcode::Fillwin3X3 => Handler::Unimplemented,
            Opcode::Display => Handler::Unimplemented,
            Opcode::Displaygfx => Handler::Unimplemented,
            Opcode::Displayraw => Handler::Unimplemented,
            Opcode::Loadpalettetable => Handler::Unimplemented,
            Opcode::Fadein => Handler::Unimplemented,
            Opcode::Fadeout => Handler::Unimplemented,
            Opcode::Gotoxy => Handler::Unimplemented,
            Opcode::Print => Handler::Unimplemented,
            Opcode::Format => Handler::Unimplemented,
            Opcode::Printrect => Handler::Unimplemented,
            Opcode::Setfont => Handler::Unimplemented,
            Opcode::Settextflags => Handler::Unimplemented,
            Opcode::Settextcolor => Handler::Unimplemented,
            Opcode::Sethighlightcolor => Handler::Unimplemented,
            Opcode::Stopmovie => Handler::Unimplemented,
            Opcode::Playmovie => Handler::Unimplemented,
            Opcode::Movieflags => Handler::Unimplemented,
            Opcode::Playmovierect => Handler::Unimplemented,
            Opcode::Addregion => Handler::Unimplemented,
            Opcode::Addregionflag => Handler::Unimplemented,
            Opcode::Addregionproc => Handler::Unimplemented,
            Opcode::Addregionrightproc => Handler::Unimplemented,
            Opcode::Deleteregion => Handler::Unimplemented,
            Opcode::Activateregion => Handler::Unimplemented,
            Opcode::Checkregion => Handler::Unimplemented,
            Opcode::Addbutton => Handler::Unimplemented,
            Opcode::Addbuttontext => Handler::Unimplemented,
            Opcode::Addbuttonflag => Handler::Unimplemented,
            Opcode::Addbuttongfx => Handler::Unimplemented,
            Opcode::Addbuttonproc => Handler::Unimplemented,
            Opcode::Addbuttonrightproc => Handler::Unimplemented,
            Opcode::Deletebutton => Handler::Unimplemented,
            Opcode::Hidemouse => Handler::Unimplemented,
            Opcode::Showmouse => Handler::Unimplemented,
            Opcode::Mouseshape => Handler::Unimplemented,
            Opcode::Refreshmouse => Handler::Unimplemented,
            Opcode::Setglobalmousefunc => Handler::Unimplemented,
            Opcode::Addnamedevent => Handler::Unimplemented,
            Opcode::Addnamedhandler => Handler::Unimplemented,
            Opcode::Clearnamed => Handler::Unimplemented,
            Opcode::Signalnamed => Handler::Unimplemented,
            Opcode::Addkey => Handler::Unimplemented,
            Opcode::Deletekey => Handler::Unimplemented,
            Opcode::Soundplay => Handler::Unimplemented,
            Opcode::Soundpause => Handler::Unimplemented,
            Opcode::Soundresume => Handler::Unimplemented,
            Opcode::Soundstop => Handler::Unimplemented,
            Opcode::Soundrewind => Handler::Unimplemented,
            Opcode::Sounddelete => Handler::Unimplemented,
            Opcode::Setoneoptpause => Handler::Unimplemented,
            Opcode::Selectfilelist => Handler::Unimplemented,
            Opcode::Tokenize => Handler::Unimplemented,
            Opcode::GiveExpPoints => Handler::Unimplemented,
            Opcode::ScrReturn => Handler::Unimplemented,
            Opcode::PlaySfx => Handler::Unimplemented,
            Opcode::ObjName => Handler::Host,
            Opcode::SfxBuildOpenName => Handler::Unimplemented,
            Opcode::GetPcStat => Handler::Unimplemented,
            Opcode::TileContainsPidObj => Handler::Host,
            Opcode::SetMapStart => Handler::Unimplemented,
            Opcode::OverrideMapStart => Handler::Host,
            Opcode::HasSkill => Handler::Host,
            Opcode::UsingSkill => Handler::Unimplemented,
            Opcode::RollVsSkill => Handler::Host,
            Opcode::SkillContest => Handler::Unimplemented,
            Opcode::DoCheck => Handler::Host,
            Opcode::IsSuccess => Handler::Unimplemented,
            Opcode::IsCritical => Handler::Unimplemented,
            Opcode::HowMuch => Handler::Unimplemented,
            Opcode::MarkAreaKnown => Handler::Unimplemented,
            Opcode::ReactionInfluence => Handler::Unimplemented,
            Opcode::Random => Handler::Host,
            Opcode::RollDice => Handler::Unimplemented,
            Opcode::MoveTo => Handler::Host,
            Opcode::CreateObjectSid => Handler::Host,
            Opcode::DisplayMsg => Handler::Host,
            Opcode::ScriptOverrides => Handler::ScriptOverrides,
            Opcode::ObjIsCarryingObjPid => Handler::Host,
            Opcode::TileContainsObjPid => Handler::Host,
            Opcode::SelfObj => Handler::Host,
            Opcode::SourceObj => Handler::Host,
            Opcode::TargetObj => Handler::Host,
            Opcode::DudeObj => Handler::Host,
            Opcode::ObjBeingUsedWith => Handler::Unimplemented,
            Opcode::LocalVar => Handler::Host,
            Opcode::SetLocalVar => Handler::Host,
            Opcode::MapVar => Handler::MapVar,
            Opcode::SetMapVar => Handler::SetMapVar,
            Opcode::GlobalVar => Handler::GlobalVar,
            Opcode::SetGlobalVar => Handler::SetGlobalVar,
            Opcode::ScriptAction => Handler::Unimplemented,
            Opcode::ObjType => Handler::Unimplemented,
            Opcode::ObjItemSubtype => Handler::Unimplemented,
            Opcode::GetCritterStat => Handler::Host,
            Opcode::SetCritterStat => Handler::Unimplemented,
            Opcode::AnimateStandObj => Handler::Unimplemented,
            Opcode::AnimateStandReverseObj => Handler::Unimplemented,
            Opcode::AnimateMoveObjToTile => Handler::Unimplemented,
            Opcode::TileInTileRect => Handler::Host,
            Opcode::Attack => Handler::Unimplemented,
            Opcode::Noop80d1 => Handler::Noop,
            Opcode::TileDistance => Handler::Host,
            Opcode::TileDistanceObjs => Handler::Host,
            Opcode::TileNum => Handler::Host,
            Opcode::TileNumInDirection => Handler::Host,
            Opcode::PickupObj => Handler::Unimplemented,
            Opcode::DropObj => Handler::Unimplemented,
            Opcode::AddObjToInven => Handler::Host,
            Opcode::RmObjFromInven => Handler::Unimplemented,
            Opcode::WieldObjCritter => Handler::Unimplemented,
            Opcode::UseObj => Handler::Unimplemented,
            Opcode::ObjCanSeeObj => Handler::Host,
            Opcode::Attack80dd => Handler::Unimplemented,
            Opcode::StartGdialog => Handler::Host,
            Opcode::EndDialogue => Handler::Host,
            Opcode::DialogueReaction => Handler::Unimplemented,
            Opcode::Metarule3 => Handler::Host,
            Opcode::SetMapMusic => Handler::Unimplemented,
            Opcode::SetObjVisibility => Handler::Host,
            Opcode::LoadMap => Handler::Unimplemented,
            Opcode::WmAreaSetPos => Handler::Unimplemented,
            Opcode::SetExitGrids => Handler::Unimplemented,
            Opcode::AnimBusy => Handler::Unimplemented,
            Opcode::CritterHeal => Handler::Unimplemented,
            Opcode::SetLightLevel => Handler::Host,
            Opcode::GameTime => Handler::Host,
            Opcode::GameTimeInSeconds => Handler::Host,
            Opcode::Elevation => Handler::Host,
            Opcode::KillCritter => Handler::Unimplemented,
            Opcode::KillCritterType => Handler::Unimplemented,
            Opcode::CritterDamage => Handler::Unimplemented,
            Opcode::AddTimerEvent => Handler::Host,
            Opcode::RmTimerEvent => Handler::Host,
            Opcode::GameTicks => Handler::Host,
            Opcode::HasTrait => Handler::Host,
            Opcode::DestroyObject => Handler::Host,
            Opcode::ObjCanHearObj => Handler::Unimplemented,
            Opcode::GameTimeHour => Handler::Host,
            Opcode::FixedParam => Handler::Unimplemented,
            Opcode::TileIsVisible => Handler::Unimplemented,
            Opcode::DialogueSystemEnter => Handler::Unimplemented,
            Opcode::ActionBeingUsed => Handler::Unimplemented,
            Opcode::CritterState => Handler::Unimplemented,
            Opcode::GameTimeAdvance => Handler::Unimplemented,
            Opcode::RadiationInc => Handler::Unimplemented,
            Opcode::RadiationDec => Handler::Unimplemented,
            Opcode::CritterAttemptPlacement => Handler::Host,
            Opcode::ObjPid => Handler::Host,
            Opcode::CurMapIndex => Handler::Host,
            Opcode::CritterAddTrait => Handler::Host,
            Opcode::CritterRmTrait => Handler::Unimplemented,
            Opcode::ProtoData => Handler::Unimplemented,
            Opcode::MessageStr => Handler::Host,
            Opcode::CritterInvenObj => Handler::Host,
            Opcode::ObjSetLightLevel => Handler::Unimplemented,
            Opcode::WorldMap => Handler::Unimplemented,
            Opcode::InvenCmds => Handler::Unimplemented,
            Opcode::FloatMsg => Handler::Host,
            Opcode::Metarule => Handler::Host,
            Opcode::Anim => Handler::Host,
            Opcode::ObjCarryingPidObj => Handler::Unimplemented,
            Opcode::RegAnimFunc => Handler::Host,
            Opcode::RegAnimAnimate => Handler::Unimplemented,
            Opcode::RegAnimAnimateReverse => Handler::Unimplemented,
            Opcode::RegAnimObjMoveToObj => Handler::Unimplemented,
            Opcode::RegAnimObjRunToObj => Handler::Unimplemented,
            Opcode::RegAnimObjMoveToTile => Handler::Unimplemented,
            Opcode::RegAnimObjRunToTile => Handler::Unimplemented,
            Opcode::PlayGmovie => Handler::Unimplemented,
            Opcode::AddMultObjsToInven => Handler::Host,
            Opcode::RmMultObjsFromInven => Handler::Unimplemented,
            Opcode::GetMonth => Handler::Host,
            Opcode::GetDay => Handler::Host,
            Opcode::Explosion => Handler::Unimplemented,
            Opcode::DaysSinceVisited => Handler::Unimplemented,
            Opcode::GsayStart => Handler::Host,
            Opcode::GsayEnd => Handler::GsayEnd,
            Opcode::GsayReply => Handler::Host,
            Opcode::GsayOption => Handler::Unimplemented,
            Opcode::GsayMessage => Handler::Host,
            Opcode::GiqOption => Handler::Host,
            Opcode::Poison => Handler::Unimplemented,
            Opcode::GetPoison => Handler::Unimplemented,
            Opcode::PartyAdd => Handler::Unimplemented,
            Opcode::PartyRemove => Handler::Unimplemented,
            Opcode::RegAnimAnimateForever => Handler::Host,
            Opcode::CritterInjure => Handler::Unimplemented,
            Opcode::CombatIsInitialized => Handler::Host,
            Opcode::GdialogBarter => Handler::Host,
            Opcode::DifficultyLevel => Handler::Unimplemented,
            Opcode::RunningBurningGuy => Handler::Unimplemented,
            Opcode::InvenUnwield => Handler::Unimplemented,
            Opcode::ObjIsLocked => Handler::Host,
            Opcode::ObjLock => Handler::Host,
            Opcode::ObjUnlock => Handler::Host,
            Opcode::ObjIsOpen => Handler::Host,
            Opcode::ObjOpen => Handler::Unimplemented,
            Opcode::ObjClose => Handler::Unimplemented,
            Opcode::GameUiDisable => Handler::Unimplemented,
            Opcode::GameUiEnable => Handler::Unimplemented,
            Opcode::GameUiIsDisabled => Handler::Unimplemented,
            Opcode::GfadeOut => Handler::Unimplemented,
            Opcode::GfadeIn => Handler::Unimplemented,
            Opcode::ItemCapsTotal => Handler::Host,
            Opcode::ItemCapsAdjust => Handler::Unimplemented,
            Opcode::AnimActionFrame => Handler::Unimplemented,
            Opcode::RegAnimPlaySfx => Handler::Unimplemented,
            Opcode::CritterModSkill => Handler::Unimplemented,
            Opcode::SfxBuildCharName => Handler::Unimplemented,
            Opcode::SfxBuildAmbientName => Handler::Unimplemented,
            Opcode::SfxBuildInterfaceName => Handler::Unimplemented,
            Opcode::SfxBuildItemName => Handler::Unimplemented,
            Opcode::SfxBuildWeaponName => Handler::Unimplemented,
            Opcode::SfxBuildSceneryName => Handler::Unimplemented,
            Opcode::AttackSetup => Handler::Unimplemented,
            Opcode::DestroyMultObjs => Handler::Unimplemented,
            Opcode::UseObjOnObj => Handler::Unimplemented,
            Opcode::EndgameSlideshow => Handler::Unimplemented,
            Opcode::MoveObjInvenToObj => Handler::Host,
            Opcode::EndgameMovie => Handler::Unimplemented,
            Opcode::ObjArtFid => Handler::Host,
            Opcode::ArtAnim => Handler::Unimplemented,
            Opcode::PartyMemberObj => Handler::Host,
            Opcode::RotationToTile => Handler::Host,
            Opcode::JamLock => Handler::Host,
            Opcode::GdialogSetBarterMod => Handler::Host,
            Opcode::CombatDifficulty => Handler::Unimplemented,
            Opcode::ObjOnScreen => Handler::Host,
            Opcode::CritterIsFleeing => Handler::Unimplemented,
            Opcode::CritterSetFleeState => Handler::Unimplemented,
            Opcode::TerminateCombat => Handler::Unimplemented,
            Opcode::DebugMsg => Handler::Host,
            Opcode::CritterStopAttacking => Handler::Unimplemented,
            Opcode::ConstString => Handler::ConstString,
            Opcode::ConstFloat => Handler::ConstFloat,
            Opcode::ConstLong => Handler::ConstInt,
        }
    }

    /// The handler of `op`.
    pub fn for_opcode(op: Opcode) -> (h: Handler)
        ensures
            h == Handler::of(op),
    {
        match op {
            Opcode::Noop8000 => Handler::Noop,
            Opcode::ConstShort => Handler::Unimplemented,
            Opcode::CriticalStart => Handler::Noop,
            Opcode::CriticalDone => Handler::Noop,
            Opcode::Jmp => Handler::Jmp,
            Opcode::Call => Handler::Call,
            Opcode::CallAt => Handler::Unimplemented,
            Opcode::CallCondition => Handler::Unimplemented,
            Opcode::Callstart => Handler::Unimplemented,
            Opcode::Exec => Handler::Unimplemented,
            Opcode::Spawn => Handler::Unimplemented,
            Opcode::Fork => Handler::Unimplemented,
            Opcode::AToD => Handler::Host,
            Opcode::DToA => Handler::Host,
            Opcode::Exit => Handler::Unimplemented,
            Opcode::Detach => Handler::Unimplemented,
            Opcode::ExitProg => Handler::ExitProg,
            Opcode::StopProg => Handler::Unimplemented,
            Opcode::FetchGlobal => Handler::Host,
            Opcode::StoreGlobal => Handler::Host,
            Opcode::FetchExternal => Handler::FetchExternal,
            Opcode::StoreExternal => Handler::StoreExternal,
            Opcode::ExportVar => Handler::Host,
            Opcode::ExportProc => Handler::Unimplemented,
            Opcode::Swap => Handler::Swap,
            Opcode::Swapa => Handler::Host,
            Opcode::Pop => Handler::Pop,
            Opcode::Dup => Handler::Dup,
            Opcode::PopReturn => Handler::Host,
            Opcode::PopExit => Handler::Unimplemented,
            Opcode::PopAddress => Handler::Unimplemented,
            Opcode::PopFlags => Handler::Host,
            Opcode::PopFlagsReturn => Handler::Return { has_value: false, is_exit: false, is_extern: false },
            Opcode::PopFlagsExit => Handler::Return { has_value: false, is_exit: true, is_extern: false },
            Opcode::PopFlagsReturnExtern => Handler::Return { has_value: false, is_exit: false, is_extern: true },
            Opcode::PopFlagsExitExtern => Handler::Return { has_value: false, is_exit: true, is_extern: true },
            Opcode::PopFlagsReturnValExtern => Handler::Return { has_value: true, is_exit: false, is_extern: true },
            Opcode::PopFlagsReturnValExit => Handler::Return { has_value: true, is_exit: true, is_extern: false },
            Opcode::PopFlagsReturnValExitExtern => Handler::Return { has_value: true, is_exit: true, is_extern: true },
            Opcode::CheckArgCount => Handler::Unimplemented,
            Opcode::LookupStringProc => Handler::Unimplemented,
            Opcode::PopBase => Handler::Host,
            Opcode::PopToBase => Handler::Host,
            Opcode::PushBase => Handler::Host,
            Opcode::SetGlobal => Handler::Host,
            Opcode::FetchProcAddress => Handler::Unimplemented,
            Opcode::Dump => Handler::Unimplemented,
            Opcode::If => Handler::If,
            Opcode::While => Handler::Host,
            Opcode::Store => Handler::Store,
            Opcode::Fetch => Handler::Fetch,
            Opcode::Equal => Handler::Binary(BinaryOp::Equal),
            Opcode::NotEqual => Handler::Binary(BinaryOp::NotEqual),
            Opcode::LessEqual => Handler::Binary(BinaryOp::LessEqual),
            Opcode::GreaterEqual => Handler::Binary(BinaryOp::GreaterEqual),
            Opcode::Less => Handler::Binary(BinaryOp::Less),
            Opcode::Greater => Handler::Binary(BinaryOp::Greater),
            Opcode::Add => Handler::Binary(BinaryOp::Add),
            Opcode::Sub => Handler::Binary(BinaryOp::Sub),
            Opcode::Mul => Handler::Binary(BinaryOp::Mul),
            Opcode::Div => Handler::Binary(BinaryOp::Div),
            Opcode::Mod => Handler::Binary(BinaryOp::Mod),
            Opcode::And => Handler::Binary(BinaryOp::And),
            Opcode::Or => Handler::Binary(BinaryOp::Or),
            Opcode::Bwand => Handler::Binary(BinaryOp::Bwand),
            Opcode::Bwor => Handler::Binary(BinaryOp::Bwor),
            Opcode::Bwxor => Handler::Binary(BinaryOp::Bwxor),
            Opcode::Bwnot => Handler::Unary(UnaryOp::Bwnot),
            Opcode::Floor => Handler::Unimplemented,
            Opcode::Not => Handler::Unary(UnaryOp::Not),
            Opcode::Negate => Handler::Unary(UnaryOp::Negate),
            Opcode::Wait => Handler::Unimplemented,
            Opcode::Cancel => Handler::Unimplemented,
            Opcode::Cancelall => Handler::Unimplemented,
            Opcode::CriticalStart804a => Handler::Noop,
            Opcode::CriticalDone804b => Handler::Noop,
            Opcode::Sayquit => Handler::Unimplemented,
            Opcode::Sayend => Handler::Unimplemented,
            Opcode::Saystart => Handler::Unimplemented,
            Opcode::Saystartpos => Handler::Unimplemented,
            Opcode::Sayreplytitle => Handler::Unimplemented,
            Opcode::Saygotoreply => Handler::Unimplemented,
            Opcode::Sayreply => Handler::Unimplemented,
            Opcode::Sayoption => Handler::Unimplemented,
            Opcode::Saymessage => Handler::Unimplemented,
            Opcode::Sayreplywindow => Handler::Unimplemented,
            Opcode::Sayoptionwindow => Handler::Unimplemented,
            Opcode::Sayborder => Handler::Unimplemented,
            Opcode::Sayscrollup => Handler::Unimplemented,
            Opcode::Sayscrolldown => Handler::Unimplemented,
            Opcode::Saysetspacing => Handler::Unimplemented,
            Opcode::Sayoptioncolor => Handler::Unimplemented,
            Opcode::Sayreplycolor => Handler::Unimplemented,
            Opcode::Sayrestart => Handler::Unimplemented,
            Opcode::Saygetlastpos => Handler::Unimplemented,
            Opcode::Sayreplyflags => Handler::Unimplemented,
            Opcode::Sayoptionflags => Handler::Unimplemented,
            Opcode::Saymessagetimeout => Handler::Unimplemented,
            Opcode::Createwin => Handler::Unimplemented,
            Opcode::Deletewin => Handler::Unimplemented,
            Opcode::Selectwin => Handler::Unimplemented,
            Opcode::Resizewin => Handler::Unimplemented,
            Opcode::Scalewin => Handler::Unimplemented,
            Opcode::Showwin => Handler::Unimplemented,
            Opcode::Fillwin => Handler::Unimplemented,
            Opcode::Fillrect => Handler::Unimplemented,
            Opcode::Fillwin3X3 => Handler::Unimplemented,
            Opcode::Display => Handler::Unimplemented,
            Opcode::Displaygfx => Handler::Unimplemented,
            Opcode::Displayraw => Handler::Unimplemented,
            Opcode::Loadpalettetable => Handler::Unimplemented,
            Opcode::Fadein => Handler::Unimplemented,
            Opcode::Fadeout => Handler::Unimplemented,
            Opcode::Gotoxy => Handler::Unimplemented,
            Opcode::Print => Handler::Unimplemented,
            Opcode::Format => Handler::Unimplemented,
            Opcode::Printrect => Handler::Unimplemented,
            Opcode::Setfont => Handler::Unimplemented,
            Opcode::Settextflags => Handler::Unimplemented,
            Opcode::Settextcolor => Handler::Unimplemented,
            Opcode::Sethighlightcolor => Handler::Unimplemented,
            Opcode::Stopmovie => Handler::Unimplemented,
            Opcode::Playmovie => Handler::Unimplemented,
            Opcode::Movieflags => Handler::Unimplemented,
            Opcode::Playmovierect => Handler::Unimplemented,
            Opcode::Addregion => Handler::Unimplemented,
            Opcode::Addregionflag => Handler::Unimplemented,
            Opcode::Addregionproc => Handler::Unimplemented,
            Opcode::Addregionrightproc => Handler::Unimplemented,
            Opcode::Deleteregion => Handler::Unimplemented,
            Opcode::Activateregion => Handler::Unimplemented,
            Opcode::Checkregion => Handler::Unimplemented,
            Opcode::Addbutton => Handler::Unimplemented,
            Opcode::Addbuttontext => Handler::Unimplemented,
            Opcode::Addbuttonflag => Handler::Unimplemented,
            Opcode::Addbuttongfx => Handler::Unimplemented,
            Opcode::Addbuttonproc => Handler::Unimplemented,
            Opcode::Addbuttonrightproc => Handler::Unimplemented,
            Opcode::Deletebutton => Handler::Unimplemented,
            Opcode::Hidemouse => Handler::Unimplemented,
            Opcode::Showmouse => Handler::Unimplemented,
            Opcode::Mouseshape => Handler::Unimplemented,
            Opcode::Refreshmouse => Handler::Unimplemented,
            Opcode::Setglobalmousefunc => Handler::Unimplemented,
            Opcode::Addnamedevent => Handler::Unimplemented,
            Opcode::Addnamedhandler => Handler::Unimplemented,
            Opcode::Clearnamed => Handler::Unimplemented,
            Opcode::Signalnamed => Handler::Unimplemented,
            Opcode::Addkey => Handler::Unimplemented,
            Opcode::Deletekey => Handler::Unimplemented,
            Opcode::Soundplay => Handler::Unimplemented,
            Opcode::Soundpause => Handler::Unimplemented,
            Opcode::Soundresume => Handler::Unimplemented,
            Opcode::Soundstop => Handler::Unimplemented,
            Opcode::Soundrewind => Handler::Unimplemented,
            Opcode::Sounddelete => Handler::Unimplemented,
            Opcode::Setoneoptpause => Handler::Unimplemented,
            Opcode::Selectfilelist => Handler::Unimplemented,
            Opcode::Tokenize => Handler::Unimplemented,
            Opcode::GiveExpPoints => Handler::Unimplemented,
            Opcode::ScrReturn => Handler::Unimplemented,
            Opcode::PlaySfx => Handler::Unimplemented,
            Opcode::ObjName => Handler::Host,
            Opcode::SfxBuildOpenName => Handler::Unimplemented,
            Opcode::GetPcStat => Handler::Unimplemented,
            Opcode::TileContainsPidObj => Handler::Host,
            Opcode::SetMapStart => Handler::Unimplemented,
            Opcode::OverrideMapStart => Handler::Host,
            Opcode::HasSkill => Handler::Host,
            Opcode::UsingSkill => Handler::Unimplemented,
            Opcode::RollVsSkill => Handler::Host,
            Opcode::SkillContest => Handler::Unimplemented,
            Opcode::DoCheck => Handler::Host,
            Opcode::IsSuccess => Handler::Unimplemented,
            Opcode::IsCritical => Handler::Unimplemented,
            Opcode::HowMuch => Handler::Unimplemented,
            Opcode::MarkAreaKnown => Handler::Unimplemented,
            Opcode::ReactionInfluence => Handler::Unimplemented,
            Opcode::Random => Handler::Host,
            Opcode::RollDice => Handler::Unimplemented,
            Opcode::MoveTo => Handler::Host,
            Opcode::CreateObjectSid => Handler::Host,
            Opcode::DisplayMsg => Handler::Host,
            Opcode::ScriptOverrides => Handler::ScriptOverrides,
            Opcode::ObjIsCarryingObjPid => Handler::Host,
            Opcode::TileContainsObjPid => Handler::Host,
            Opcode::SelfObj => Handler::Host,
            Opcode::SourceObj => Handler::Host,
            Opcode::TargetObj => Handler::Host,
            Opcode::DudeObj => Handler::Host,
            Opcode::ObjBeingUsedWith => Handler::Unimplemented,
            Opcode::LocalVar => Handler::Host,
            Opcode::SetLocalVar => Handler::Host,
            Opcode::MapVar => Handler::MapVar,
            Opcode::SetMapVar => Handler::SetMapVar,
            Opcode::GlobalVar => Handler::GlobalVar,
            Opcode::SetGlobalVar => Handler::SetGlobalVar,
            Opcode::ScriptAction => Handler::Unimplemented,
            Opcode::ObjType => Handler::Unimplemented,
            Opcode::ObjItemSubtype => Handler::Unimplemented,
            Opcode::GetCritterStat => Handler::Host,
            Opcode::SetCritterStat => Handler::Unimplemented,
            Opcode::AnimateStandObj => Handler::Unimplemented,
            Opcode::AnimateStandReverseObj => Handler::Unimplemented,
            Opcode::AnimateMoveObjToTile => Handler::Unimplemented,
            Opcode::TileInTileRect => Handler::Host,
            Opcode::Attack => Handler::Unimplemented,
            Opcode::Noop80d1 => Handler::Noop,
            Opcode::TileDistance => Handler::Host,
            Opcode::TileDistanceObjs => Handler::Host,
            Opcode::TileNum => Handler::Host,
            Opcode::TileNumInDirection => Handler::Host,
            Opcode::PickupObj => Handler::Unimplemented,
            Opcode::DropObj => Handler::Unimplemented,
            Opcode::AddObjToInven => Handler::Host,
            Opcode::RmObjFromInven => Handler::Unimplemented,
            Opcode::WieldObjCritter => Handler::Unimplemented,
            Opcode::UseObj => Handler::Unimplemented,
            Opcode::ObjCanSeeObj => Handler::Host,
            Opcode::Attack80dd => Handler::Unimplemented,
            Opcode::StartGdialog => Handler::Host,
            Opcode::EndDialogue => Handler::Host,
            Opcode::DialogueReaction => Handler::Unimplemented,
            Opcode::Metarule3 => Handler::Host,
            Opcode::SetMapMusic => Handler::Unimplemented,
            Opcode::SetObjVisibility => Handler::Host,
            Opcode::LoadMap => Handler::Unimplemented,
            Opcode::WmAreaSetPos => Handler::Unimplemented,
            Opcode::SetExitGrids => Handler::Unimplemented,
            Opcode::AnimBusy => Handler::Unimplemented,
            Opcode::CritterHeal => Handler::Unimplemented,
            Opcode::SetLightLevel => Handler::Host,
            Opcode::GameTime => Handler::Host,
            Opcode::GameTimeInSeconds => Handler::Host,
            Opcode::Elevation => Handler::Host,
            Opcode::KillCritter => Handler::Unimplemented,
            Opcode::KillCritterType => Handler::Unimplemented,
            Opcode::CritterDamage => Handler::Unimplemented,
            Opcode::AddTimerEvent => Handler::Host,
            Opcode::RmTimerEvent => Handler::Host,
            Opcode::GameTicks => Handler::Host,
            Opcode::HasTrait => Handler::Host,
            Opcode::DestroyObject => Handler::Host,
            Opcode::ObjCanHearObj => Handler::Unimplemented,
            Opcode::GameTimeHour => Handler::Host,
            Opcode::FixedParam => Handler::Unimplemented,
            Opcode::TileIsVisible => Handler::Unimplemented,
            Opcode::DialogueSystemEnter => Handler::Unimplemented,
            Opcode::ActionBeingUsed => Handler::Unimplemented,
            Opcode::CritterState => Handler::Unimplemented,
            Opcode::GameTimeAdvance => Handler::Unimplemented,
            Opcode::RadiationInc => Handler::Unimplemented,
            Opcode::RadiationDec => Handler::Unimplemented,
            Opcode::CritterAttemptPlacement => Handler::Host,
            Opcode::ObjPid => Handler::Host,
            Opcode::CurMapIndex => Handler::Host,
            Opcode::CritterAddTrait => Handler::Host,
            Opcode::CritterRmTrait => Handler::Unimplemented,
            Opcode::ProtoData => Handler::Unimplemented,
            Opcode::MessageStr => Handler::Host,
            Opcode::CritterInvenObj => Handler::Host,
            Opcode::ObjSetLightLevel => Handler::Unimplemented,
            Opcode::WorldMap => Handler::Unimplemented,
            Opcode::InvenCmds => Handler::Unimplemented,
            Opcode::FloatMsg => Handler::Host,
            Opcode::Metarule => Handler::Host,
            Opcode::Anim => Handler::Host,
            Opcode::ObjCarryingPidObj => Handler::Unimplemented,
            Opcode::RegAnimFunc => Handler::Host,
            Opcode::RegAnimAnimate => Handler::Unimplemented,
            Opcode::RegAnimAnimateReverse => Handler::Unimplemented,
            Opcode::RegAnimObjMoveToObj => Handler::Unimplemented,
            Opcode::RegAnimObjRunToObj => Handler::Unimplemented,
            Opcode::RegAnimObjMoveToTile => Handler::Unimplemented,
            Opcode::RegAnimObjRunToTile => Handler::Unimplemented,
            Opcode::PlayGmovie => Handler::Unimplemented,
            Opcode::AddMultObjsToInven => Handler::Host,
            Opcode::RmMultObjsFromInven => Handler::Unimplemented,
            Opcode::GetMonth => Handler::Host,
            Opcode::GetDay => Handler::Host,
            Opcode::Explosion => Handler::Unimplemented,
            Opcode::DaysSinceVisited => Handler::Unimplemented,
            Opcode::GsayStart => Handler::Host,
            Opcode::GsayEnd => Handler::GsayEnd,
            Opcode::GsayReply => Handler::Host,
            Opcode::GsayOption => Handler::Unimplemented,
            Opcode::GsayMessage => Handler::Host,
            Opcode::GiqOption => Handler::Host,
            Opcode::Poison => Handler::Unimplemented,
            Opcode::GetPoison => Handler::Unimplemented,
            Opcode::PartyAdd => Handler::Unimplemented,
            Opcode::PartyRemove => Handler::Unimplemented,
            Opcode::RegAnimAnimateForever => Handler::Host,
            Opcode::CritterInjure => Handler::Unimplemented,
            Opcode::CombatIsInitialized => Handler::Host,
            Opcode::GdialogBarter => Handler::Host,
            Opcode::DifficultyLevel => Handler::Unimplemented,
            Opcode::RunningBurningGuy => Handler::Unimplemented,
            Opcode::InvenUnwield => Handler::Unimplemented,
            Opcode::ObjIsLocked => Handler::Host,
            Opcode::ObjLock => Handler::Host,
            Opcode::ObjUnlock => Handler::Host,
            Opcode::ObjIsOpen => Handler::Host,
            Opcode::ObjOpen => Handler::Unimplemented,
            Opcode::ObjClose => Handler::Unimplemented,
            Opcode::GameUiDisable => Handler::Unimplemented,
            Opcode::GameUiEnable => Handler::Unimplemented,
            Opcode::GameUiIsDisabled => Handler::Unimplemented,
            Opcode::GfadeOut => Handler::Unimplemented,
            Opcode::GfadeIn => Handler::Unimplemented,
            Opcode::ItemCapsTotal => Handler::Host,
            Opcode::ItemCapsAdjust => Handler::Unimplemented,
            Opcode::AnimActionFrame => Handler::Unimplemented,
            Opcode::RegAnimPlaySfx => Handler::Unimplemented,
            Opcode::CritterModSkill => Handler::Unimplemented,
            Opcode::SfxBuildCharName => Handler::Unimplemented,
            Opcode::SfxBuildAmbientName => Handler::Unimplemented,
            Opcode::SfxBuildInterfaceName => Handler::Unimplemented,
            Opcode::SfxBuildItemName => Handler::Unimplemented,
            Opcode::SfxBuildWeaponName => Handler::Unimplemented,
            Opcode::SfxBuildSceneryName => Handler::Unimplemented,
            Opcode::AttackSetup => Handler::Unimplemented,
            Opcode::DestroyMultObjs => Handler::Unimplemented,
            Opcode::UseObjOnObj => Handler::Unimplemented,
            Opcode::EndgameSlideshow => Handler::Unimplemented,
            Opcode::MoveObjInvenToObj => Handler::Host,
            Opcode::EndgameMovie => Handler::Unimplemented,
            Opcode::ObjArtFid => Handler::Host,
            Opcode::ArtAnim => Handler::Unimplemented,
            Opcode::PartyMemberObj => Handler::Host,
            Opcode::RotationToTile => Handler::Host,
            Opcode::JamLock => Handler::Host,
            Opcode::GdialogSetBarterMod => Handler::Host,
            Opcode::CombatDifficulty => Handler::Unimplemented,
            Opcode::ObjOnScreen => Handler::Host,
            Opcode::CritterIsFleeing => Handler::Unimplemented,
            Opcode::CritterSetFleeState => Handler::Unimplemented,
            Opcode::TerminateCombat => Handler::Unimplemented,
            Opcode::DebugMsg => Handler::Host,
            Opcode::CritterStopAttacking => Handler::Unimplemented,
            Opcode::ConstString => Handler::ConstString,
            Opcode::ConstFloat => Handler::ConstFloat,
            Opcode::ConstLong => Handler::ConstInt,
        }
    }

    /// Whether the handler may ask for the script to be suspended.
    pub open spec fn may_suspend(self) -> bool {
        self == Handler::GsayEnd
    }

    /// What executing an instruction with tag `op` by this handler makes of
    /// a machine that stands just behind the tag, and of the environment.
    ///
    /// Whenever the result is a failure, machine and environment are left
    /// exactly as they were.
    pub open spec fn effect(self, op: Opcode, program: Program, m: Machine, env: Env) -> Step {
        match self {
            Handler::Noop => Step { machine: m, env, result: Ok(Flow::Continue) },
            Handler::ConstInt => on_machine(m.const_long_spec(program.code@, false), env),
            Handler::ConstFloat => on_machine(m.const_long_spec(program.code@, true), env),
            Handler::ConstString => on_machine(m.const_string_spec(program.code@), env),
            Handler::Pop => on_machine(m.pop_spec(), env),
            Handler::Dup => on_machine(m.dup_spec(), env),
            Handler::Swap => on_machine(m.swap_spec(), env),
            Handler::Binary(b) => on_machine(m.binary_spec(b), env),
            Handler::Unary(u) => on_machine(m.unary_spec(u), env),
            Handler::Jmp => on_machine(m.jmp_spec(), env),
            Handler::If => on_machine(m.if_spec(), env),
            Handler::Call => on_machine(m.call_spec(program.procs@), env),
            Handler::Return { has_value, is_exit, is_extern } => on_machine(
                m.return_spec(has_value, is_exit, is_extern),
                env,
            ),
            Handler::ExitProg => Step { machine: m, env, result: Ok(Flow::Exited) },
            Handler::Fetch => on_machine(m.fetch_spec(), env),
            Handler::Store => on_machine(m.store_spec(), env),
            Handler::FetchExternal => on_machine(m.fetch_var_spec(m.exported), env),
            Handler::StoreExternal => {
                let (m1, r, exported) = m.store_var_spec(m.exported);
                Step { machine: Machine { exported, ..m1 }, env, result: r }
            },
            Handler::MapVar => on_machine(m.fetch_var_spec(env.map_vars), env),
            Handler::SetMapVar => {
                let (m1, r, map_vars) = m.store_var_spec(env.map_vars);
                Step { machine: m1, env: Env { map_vars, ..env }, result: r }
            },
            Handler::GlobalVar => on_machine(m.fetch_var_spec(env.global_vars), env),
            Handler::SetGlobalVar => {
                let (m1, r, global_vars) = m.store_var_spec(env.global_vars);
                Step { machine: m1, env: Env { global_vars, ..env }, result: r }
            },
            Handler::ScriptOverrides => Step {
                machine: m,
                env: Env { script_overrides: true, ..env },
                result: Ok(Flow::Continue),
            },
            Handler::GsayEnd => Step { machine: m, env, result: Ok(Flow::Suspend(Suspend::GsayEnd)) },
            Handler::Unimplemented => Step {
                machine: m,
                env,
                result: Err(Error::UnimplementedOpcode),
            },
            Handler::Host => Step { machine: m, env, result: Ok(Flow::Host(op)) },
        }
    }
}

/// The step of an instruction that leaves the environment alone.
pub open spec fn on_machine(outcome: (Machine, Result<Flow, Error>), env: Env) -> Step {
    Step { machine: outcome.0, env, result: outcome.1 }
}

/// A tag together with the handler that executes it.
#[derive(Clone, Copy, Debug)]
pub struct Instruction {
    /// The tag.
    pub opcode: Opcode,
    /// How the instruction is executed.
    pub handler: Handler,
}

impl Instruction {
    /// The instruction of `op`: the tag with its own handler.
    pub open spec fn of(op: Opcode) -> Instruction {
        Instruction { opcode: op, handler: Handler::of(op) }
    }

    /// The instruction of `op`.
    pub fn for_opcode(op: Opcode) -> (i: Instruction)
        ensures
            i == Instruction::of(op),
    {
        Instruction { opcode: op, handler: Handler::for_opcode(op) }
    }

    /// The instruction's tag.
    pub fn opcode(&self) -> (op: Opcode)
        ensures
            op == self.opcode,
    {
        self.opcode
    }

    /// Executes the instruction on a machine that stands just behind the
    /// instruction's tag.
    ///
    /// Machine and environment become what [`Handler::effect`] says, and
    /// the result is the one it gives. The program and the pending chains
    /// are not touched.
    pub fn execute<S>(&self, ctx: Context<S>) -> (r: Result<Flow, Error>)
        requires
            old(ctx.prg)@.wf(),
        ensures
            (Step { machine: final(ctx.prg)@, env: final(ctx.ext).env(), result: r })
                == self.handler.effect(
                self.opcode,
                old(ctx.prg).program,
                old(ctx.prg)@,
                old(ctx.ext).env(),
            ),
            final(ctx.prg)@.wf(),
            final(ctx.prg).program == old(ctx.prg).program,
            final(ctx.ext).state.sequences == old(ctx.ext).state.sequences,
    {
        match self.handler {
            Handler::Noop => impls::noop(ctx),
            Handler::ConstInt => impls::const_long(ctx, false),
            Handler::ConstFloat => impls::const_long(ctx, true),
            Handler::ConstString => impls::const_string(ctx),
            Handler::Pop => impls::pop(ctx),
            Handler::Dup => impls::dup(ctx),
            Handler::Swap => impls::swap(ctx),
            Handler::Binary(b) => impls::binary(ctx, b),
            Handler::Unary(u) => impls::unary(ctx, u),
            Handler::Jmp => impls::jmp(ctx),
            Handler::If => impls::if_(ctx),
            Handler::Call => impls::call(ctx),
            Handler::Return { has_value, is_exit, is_extern } => impls::pop_flags_return(
                ctx,
                has_value,
                is_exit,
                is_extern,
            ),
            Handler::ExitProg => impls::exit_prog(ctx),
            Handler::Fetch => impls::fetch(ctx),
            Handler::Store => impls::store(ctx),
            Handler::FetchExternal => impls::fetch_external(ctx),
            Handler::StoreExternal => impls::store_external(ctx),
            Handler::MapVar => impls::map_var(ctx),
            Handler::SetMapVar => impls::set_map_var(ctx),
            Handler::GlobalVar => impls::global_var(ctx),
            Handler::SetGlobalVar => impls::set_global_var(ctx),
            Handler::ScriptOverrides => impls::script_overrides(ctx),
            Handler::GsayEnd => impls::gsay_end(ctx),
            Handler::Unimplemented => impls::unimplemented(ctx),
            Handler::Host => impls::host(ctx, self.opcode),
        }
    }
}

/// Whether `map` is the dispatch table: for every tag its instruction,
/// under the tag's code, and nothing under a number that is no tag's code.
pub open spec fn is_dispatch_table(map: Map<u16, Instruction>) -> bool {
    &&& forall|code: u16| map.contains_key(code) <==> Opcode::is_code(code)
    &&& forall|op: Opcode| #[trigger] map[op.code()] == Instruction::of(op)
}

/// The dispatch table: for every tag its instruction, keyed by the tag's
/// code. A number that is no tag's code has no entry.
pub fn instruction_map() -> (map: HashMap<u16, Instruction>)
    ensures
        is_dispatch_table(map@),
{
    let mut map: HashMap<u16, Instruction> = HashMap::new();
    let mut next: u32 = 0;
    while next <= 0xffff
        invariant
            next <= 0x1_0000,
            forall|code: u16| map@.contains_key(code) <==> Opcode::is_code(code) && code < next,
            forall|op: Opcode| op.code() < next ==> #[trigger] map@[op.code()] == Instruction::of(op),
        decreases 0x1_0000 - next,
    {
        let code = next as u16;
        match Opcode::from_u16(code) {
            Some(op) => {
                proof {
                    assert forall|other: Opcode| other.code() == code implies other == op by {
                        opcode::lemma_code_injective(other, op);
                    }
                }
                map.insert(code, Instruction::for_opcode(op));
            },
            None => {},
        }
        next = next + 1;
    }
    map
}

} // verus!
