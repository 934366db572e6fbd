//! The numeric instruction tags of the compiled script format.

use vstd::prelude::*;

verus! {

/// An instruction tag.
///
/// Every tag has a fixed 16-bit code, given by [`Opcode::to_u16`]. The codes
/// are those of the compiled script format and are not contiguous: `0x807d`
/// and `0x807e` name no instruction, and the three tags that carry a literal
/// have codes of their own.
#[derive(Clone, Copy, Debug, Hash, PartialEq, Eq, Structural)]
pub enum Opcode {
    Noop8000,
    ConstShort,
    CriticalStart,
    CriticalDone,
    Jmp,
    Call,
    CallAt,
    CallCondition,
    Callstart,
    Exec,
    Spawn,
    Fork,
    AToD,
    DToA,
    Exit,
    Detach,
    ExitProg,
    StopProg,
    FetchGlobal,
    StoreGlobal,
    FetchExternal,
    StoreExternal,
    ExportVar,
    ExportProc,
    Swap,
    Swapa,
    Pop,
    Dup,
    PopReturn,
    PopExit,
    PopAddress,
    PopFlags,
    PopFlagsReturn,
    PopFlagsExit,
    PopFlagsReturnExtern,
    PopFlagsExitExtern,
    PopFlagsReturnValExtern,
    PopFlagsReturnValExit,
    PopFlagsReturnValExitExtern,
    CheckArgCount,
    LookupStringProc,
    PopBase,
    PopToBase,
    PushBase,
    SetGlobal,
    FetchProcAddress,
    Dump,
    If,
    While,
    Store,
    Fetch,
    Equal,
    NotEqual,
    LessEqual,
    GreaterEqual,
    Less,
    Greater,
    Add,
    Sub,
    Mul,
    Div,
    Mod,
    And,
    Or,
    Bwand,
    Bwor,
    Bwxor,
    Bwnot,
    Floor,
    Not,
    Negate,
    Wait,
    Cancel,
    Cancelall,
    CriticalStart804a,
    CriticalDone804b,
    Sayquit,
    Sayend,
    Saystart,
    Saystartpos,
    Sayreplytitle,
    Saygotoreply,
    Sayreply,
    Sayoption,
    Saymessage,
    Sayreplywindow,
    Sayoptionwindow,
    Sayborder,
    Sayscrollup,
    Sayscrolldown,
    Saysetspacing,
    Sayoptioncolor,
    Sayreplycolor,
    Sayrestart,
    Saygetlastpos,
    Sayreplyflags,
    Sayoptionflags,
    Saymessagetimeout,
    Createwin,
    Deletewin,
    Selectwin,
    Resizewin,
    Scalewin,
    Showwin,
    Fillwin,
    Fillrect,
    Fillwin3X3,
    Display,
    Displaygfx,
    Displayraw,
    Loadpalettetable,
    Fadein,
    Fadeout,
    Gotoxy,
    Print,
    Format,
    Printrect,
    Setfont,
    Settextflags,
    Settextcolor,
    Sethighlightcolor,
    Stopmovie,
    Playmovie,
    Movieflags,
    Playmovierect,
    Addregion,
    Addregionflag,
    Addregionproc,
    Addregionrightproc,
    Deleteregion,
    Activateregion,
    Checkregion,
    Addbutton,
    Addbuttontext,
    Addbuttonflag,
    Addbuttongfx,
    Addbuttonproc,
    Addbuttonrightproc,
    Deletebutton,
    Hidemouse,
    Showmouse,
    Mouseshape,
    Refreshmouse,
    Setglobalmousefunc,
    Addnamedevent,
    Addnamedhandler,
    Clearnamed,
    Signalnamed,
    Addkey,
    Deletekey,
    Soundplay,
    Soundpause,
    Soundresume,
    Soundstop,
    Soundrewind,
    Sounddelete,
    Setoneoptpause,
    Selectfilelist,
    Tokenize,
    GiveExpPoints,
    ScrReturn,
    PlaySfx,
    ObjName,
    SfxBuildOpenName,
    GetPcStat,
    TileContainsPidObj,
    SetMapStart,
    OverrideMapStart,
    HasSkill,
    UsingSkill,
    RollVsSkill,
    SkillContest,
    DoCheck,
    IsSuccess,
    IsCritical,
    HowMuch,
    MarkAreaKnown,
    ReactionInfluence,
    Random,
    RollDice,
    MoveTo,
    CreateObjectSid,
    DisplayMsg,
    ScriptOverrides,
    ObjIsCarryingObjPid,
    TileContainsObjPid,
    SelfObj,
    SourceObj,
    TargetObj,
    DudeObj,
    ObjBeingUsedWith,
    LocalVar,
    SetLocalVar,
    MapVar,
    SetMapVar,
    GlobalVar,
    SetGlobalVar,
    ScriptAction,
    ObjType,
    ObjItemSubtype,
    GetCritterStat,
    SetCritterStat,
    AnimateStandObj,
    AnimateStandReverseObj,
    AnimateMoveObjToTile,
    TileInTileRect,
    Attack,
    Noop80d1,
    TileDistance,
    TileDistanceObjs,
    TileNum,
    TileNumInDirection,
    PickupObj,
    DropObj,
    AddObjToInven,
    RmObjFromInven,
    WieldObjCritter,
    UseObj,
    ObjCanSeeObj,
    Attack80dd,
    StartGdialog,
    EndDialogue,
    DialogueReaction,
    Metarule3,
    SetMapMusic,
    SetObjVisibility,
    LoadMap,
    WmAreaSetPos,
    SetExitGrids,
    AnimBusy,
    CritterHeal,
    SetLightLevel,
    GameTime,
    GameTimeInSeconds,
    Elevation,
    KillCritter,
    KillCritterType,
    CritterDamage,
    AddTimerEvent,
    RmTimerEvent,
    GameTicks,
    HasTrait,
    DestroyObject,
    ObjCanHearObj,
    GameTimeHour,
    FixedParam,
    TileIsVisible,
    DialogueSystemEnter,
    ActionBeingUsed,
    CritterState,
    GameTimeAdvance,
    RadiationInc,
    RadiationDec,
    CritterAttemptPlacement,
    ObjPid,
    CurMapIndex,
    CritterAddTrait,
    CritterRmTrait,
    ProtoData,
    MessageStr,
    CritterInvenObj,
    ObjSetLightLevel,
    WorldMap,
    InvenCmds,
    FloatMsg,
    Metarule,
    Anim,
    ObjCarryingPidObj,
    RegAnimFunc,
    RegAnimAnimate,
    RegAnimAnimateReverse,
    RegAnimObjMoveToObj,
    RegAnimObjRunToObj,
    RegAnimObjMoveToTile,
    RegAnimObjRunToTile,
    PlayGmovie,
    AddMultObjsToInven,
    RmMultObjsFromInven,
    GetMonth,
    GetDay,
    Explosion,
    DaysSinceVisited,
    GsayStart,
    GsayEnd,
    GsayReply,
    GsayOption,
    GsayMessage,
    GiqOption,
    Poison,
    GetPoison,
    PartyAdd,
    PartyRemove,
    RegAnimAnimateForever,
    CritterInjure,
    CombatIsInitialized,
    GdialogBarter,
    DifficultyLevel,
    RunningBurningGuy,
    InvenUnwield,
    ObjIsLocked,
    ObjLock,
    ObjUnlock,
    ObjIsOpen,
    ObjOpen,
    ObjClose,
    GameUiDisable,
    GameUiEnable,
    GameUiIsDisabled,
    GfadeOut,
    GfadeIn,
    ItemCapsTotal,
    ItemCapsAdjust,
    AnimActionFrame,
    RegAnimPlaySfx,
    CritterModSkill,
    SfxBuildCharName,
    SfxBuildAmbientName,
    SfxBuildInterfaceName,
    SfxBuildItemName,
    SfxBuildWeaponName,
    SfxBuildSceneryName,
    AttackSetup,
    DestroyMultObjs,
    UseObjOnObj,
    EndgameSlideshow,
    MoveObjInvenToObj,
    EndgameMovie,
    ObjArtFid,
    ArtAnim,
    PartyMemberObj,
    RotationToTile,
    JamLock,
    GdialogSetBarterMod,
    CombatDifficulty,
    ObjOnScreen,
    CritterIsFleeing,
    CritterSetFleeState,
    TerminateCombat,
    DebugMsg,
    CritterStopAttacking,
    ConstString,
    ConstFloat,
    ConstLong,
}

impl Opcode {
    /// The width in bytes of a tag in the code stream.
    pub const SIZE: usize = 2;

    /// The code of each tag.
    pub open spec fn code(self) -> u16 {
        match self {
            Opcode::Noop8000 => 0x8000,
            Opcode::ConstShort => 0x8001,
            Opcode::CriticalStart => 0x8002,
            Opcode::CriticalDone => 0x8003,
            Opcode::Jmp => 0x8004,
            Opcode::Call => 0x8005,
            Opcode::CallAt => 0x8006,
            Opcode::CallCondition => 0x8007,
            Opcode::Callstart => 0x8008,
            Opcode::Exec => 0x8009,
            Opcode::Spawn => 0x800a,
            Opcode::Fork => 0x800b,
            Opcode::AToD => 0x800c,
            Opcode::DToA => 0x800d,
            Opcode::Exit => 0x800e,
            Opcode::Detach => 0x800f,
            Opcode::ExitProg => 0x8010,
            Opcode::StopProg => 0x8011,
            Opcode::FetchGlobal => 0x8012,
            Opcode::StoreGlobal => 0x8013,
            Opcode::FetchExternal => 0x8014,
            Opcode::StoreExternal => 0x8015,
            Opcode::ExportVar => 0x8016,
            Opcode::ExportProc => 0x8017,
            Opcode::Swap => 0x8018,
            Opcode::Swapa => 0x8019,
            Opcode::Pop => 0x801a,
            Opcode::Dup => 0x801b,
            Opcode::PopReturn => 0x801c,
            Opcode::PopExit => 0x801d,
            Opcode::PopAddress => 0x801e,
            Opcode::PopFlags => 0x801f,
            Opcode::PopFlagsReturn => 0x8020,
            Opcode::PopFlagsExit => 0x8021,
            Opcode::PopFlagsReturnExtern => 0x8022,
            Opcode::PopFlagsExitExtern => 0x8023,
            Opcode::PopFlagsReturnValExtern => 0x8024,
            Opcode::PopFlagsReturnValExit => 0x8025,
            Opcode::PopFlagsReturnValExitExtern => 0x8026,
            Opcode::CheckArgCount => 0x8027,
            Opcode::LookupStringProc => 0x8028,
            Opcode::PopBase => 0x8029,
            Opcode::PopToBase => 0x802a,
            Opcode::PushBase => 0x802b,
            Opcode::SetGlobal => 0x802c,
            Opcode::FetchProcAddress => 0x802d,
            Opcode::Dump => 0x802e,
            Opcode::If => 0x802f,
            Opcode::While => 0x8030,
            Opcode::Store => 0x8031,
            Opcode::Fetch => 0x8032,
            Opcode::Equal => 0x8033,
            Opcode::NotEqual => 0x8034,
            Opcode::LessEqual => 0x8035,
            Opcode::GreaterEqual => 0x8036,
            Opcode::Less => 0x8037,
            Opcode::Greater => 0x8038,
            Opcode::Add => 0x8039,
            Opcode::Sub => 0x803a,
            Opcode::Mul => 0x803b,
            Opcode::Div => 0x803c,
            Opcode::Mod => 0x803d,
            Opcode::And => 0x803e,
            Opcode::Or => 0x803f,
            Opcode::Bwand => 0x8040,
            Opcode::Bwor => 0x8041,
            Opcode::Bwxor => 0x8042,
            Opcode::Bwnot => 0x8043,
            Opcode::Floor => 0x8044,
            Opcode::Not => 0x8045,
            Opcode::Negate => 0x8046,
            Opcode::Wait => 0x8047,
            Opcode::Cancel => 0x8048,
            Opcode::Cancelall => 0x8049,
            Opcode::CriticalStart804a => 0x804a,
            Opcode::CriticalDone804b => 0x804b,
            Opcode::Sayquit => 0x804c,
            Opcode::Sayend => 0x804d,
            Opcode::Saystart => 0x804e,
            Opcode::Saystartpos => 0x804f,
            Opcode::Sayreplytitle => 0x8050,
            Opcode::Saygotoreply => 0x8051,
            Opcode::Sayreply => 0x8052,
            Opcode::Sayoption => 0x8053,
            Opcode::Saymessage => 0x8054,
            Opcode::Sayreplywindow => 0x8055,
            Opcode::Sayoptionwindow => 0x8056,
            Opcode::Sayborder => 0x8057,
            Opcode::Sayscrollup => 0x8058,
            Opcode::Sayscrolldown => 0x8059,
            Opcode::Saysetspacing => 0x805a,
            Opcode::Sayoptioncolor => 0x805b,
            Opcode::Sayreplycolor => 0x805c,
            Opcode::Sayrestart => 0x805d,
            Opcode::Saygetlastpos => 0x805e,
            Opcode::Sayreplyflags => 0x805f,
            Opcode::Sayoptionflags => 0x8060,
            Opcode::Saymessagetimeout => 0x8061,
            Opcode::Createwin => 0x8062,
            Opcode::Deletewin => 0x8063,
            Opcode::Selectwin => 0x8064,
            Opcode::Resizewin => 0x8065,
            Opcode::Scalewin => 0x8066,
            Opcode::Showwin => 0x8067,
            Opcode::Fillwin => 0x8068,
            Opcode::Fillrect => 0x8069,
            Opcode::Fillwin3X3 => 0x806a,
            Opcode::Display => 0x806b,
            Opcode::Displaygfx => 0x806c,
            Opcode::Displayraw => 0x806d,
            Opcode::Loadpalettetable => 0x806e,
            Opcode::Fadein => 0x806f,
            Opcode::Fadeout => 0x8070,
            Opcode::Gotoxy => 0x8071,
            Opcode::Print => 0x8072,
            Opcode::Format => 0x8073,
            Opcode::Printrect => 0x8074,
            Opcode::Setfont => 0x8075,
            Opcode::Settextflags => 0x8076,
            Opcode::Settextcolor => 0x8077,
            Opcode::Sethighlightcolor => 0x8078,
            Opcode::Stopmovie => 0x8079,
            Opcode::Playmovie => 0x807a,
            Opcode::Movieflags => 0x807b,
            Opcode::Playmovierect => 0x807c,
            Opcode::Addregion => 0x807f,
            Opcode::Addregionflag => 0x8080,
            Opcode::Addregionproc => 0x8081,
            Opcode::Addregionrightproc => 0x8082,
            Opcode::Deleteregion => 0x8083,
            Opcode::Activateregion => 0x8084,
            Opcode::Checkregion => 0x8085,
            Opcode::Addbutton => 0x8086,
            Opcode::Addbuttontext => 0x8087,
            Opcode::Addbuttonflag => 0x8088,
            Opcode::Addbuttongfx => 0x8089,
            Opcode::Addbuttonproc => 0x808a,
            Opcode::Addbuttonrightproc => 0x808b,
            Opcode::Deletebutton => 0x808c,
            Opcode::Hidemouse => 0x808d,
            Opcode::Showmouse => 0x808e,
            Opcode::Mouseshape => 0x808f,
            Opcode::Refreshmouse => 0x8090,
            Opcode::Setglobalmousefunc => 0x8091,
            Opcode::Addnamedevent => 0x8092,
            Opcode::Addnamedhandler => 0x8093,
            Opcode::Clearnamed => 0x8094,
            Opcode::Signalnamed => 0x8095,
            Opcode::Addkey => 0x8096,
            Opcode::Deletekey => 0x8097,
            Opcode::Soundplay => 0x8098,
            Opcode::Soundpause => 0x8099,
            Opcode::Soundresume => 0x809a,
            Opcode::Soundstop => 0x809b,
            Opcode::Soundrewind => 0x809c,
            Opcode::Sounddelete => 0x809d,
            Opcode::Setoneoptpause => 0x809e,
            Opcode::Selectfilelist => 0x809f,
            Opcode::Tokenize => 0x80a0,
            Opcode::GiveExpPoints => 0x80a1,
            Opcode::ScrReturn => 0x80a2,
            Opcode::PlaySfx => 0x80a3,
            Opcode::ObjName => 0x80a4,
            Opcode::SfxBuildOpenName => 0x80a5,
            Opcode::GetPcStat => 0x80a6,
            Opcode::TileContainsPidObj => 0x80a7,
            Opcode::SetMapStart => 0x80a8,
            Opcode::OverrideMapStart => 0x80a9,
            Opcode::HasSkill => 0x80aa,
            Opcode::UsingSkill => 0x80ab,
            Opcode::RollVsSkill => 0x80ac,
            Opcode::SkillContest => 0x80ad,
            Opcode::DoCheck => 0x80ae,
            Opcode::IsSuccess => 0x80af,
            Opcode::IsCritical => 0x80b0,
            Opcode::HowMuch => 0x80b1,
            Opcode::MarkAreaKnown => 0x80b2,
            Opcode::ReactionInfluence => 0x80b3,
            Opcode::Random => 0x80b4,
            Opcode::RollDice => 0x80b5,
            Opcode::MoveTo => 0x80b6,
            Opcode::CreateObjectSid => 0x80b7,
            Opcode::DisplayMsg => 0x80b8,
            Opcode::ScriptOverrides => 0x80b9,
            Opcode::ObjIsCarryingObjPid => 0x80ba,
            Opcode::TileContainsObjPid => 0x80bb,
            Opcode::SelfObj => 0x80bc,
            Opcode::SourceObj => 0x80bd,
            Opcode::TargetObj => 0x80be,
            Opcode::DudeObj => 0x80bf,
            Opcode::ObjBeingUsedWith => 0x80c0,
            Opcode::LocalVar => 0x80c1,
            Opcode::SetLocalVar => 0x80c2,
            Opcode::MapVar => 0x80c3,
            Opcode::SetMapVar => 0x80c4,
            Opcode::GlobalVar => 0x80c5,
            Opcode::SetGlobalVar => 0x80c6,
            Opcode::ScriptAction => 0x80c7,
            Opcode::ObjType => 0x80c8,
            Opcode::ObjItemSubtype => 0x80c9,
            Opcode::GetCritterStat => 0x80ca,
            Opcode::SetCritterStat => 0x80cb,
            Opcode::AnimateStandObj => 0x80cc,
            Opcode::AnimateStandReverseObj => 0x80cd,
            Opcode::AnimateMoveObjToTile => 0x80ce,
            Opcode::TileInTileRect => 0x80cf,
            Opcode::Attack => 0x80d0,
            Opcode::Noop80d1 => 0x80d1,
            Opcode::TileDistance => 0x80d2,
            Opcode::TileDistanceObjs => 0x80d3,
            Opcode::TileNum => 0x80d4,
            Opcode::TileNumInDirection => 0x80d5,
            Opcode::PickupObj => 0x80d6,
            Opcode::DropObj => 0x80d7,
            Opcode::AddObjToInven => 0x80d8,
            Opcode::RmObjFromInven => 0x80d9,
            Opcode::WieldObjCritter => 0x80da,
            Opcode::UseObj => 0x80db,
            Opcode::ObjCanSeeObj => 0x80dc,
            Opcode::Attack80dd => 0x80dd,
            Opcode::StartGdialog => 0x80de,
            Opcode::EndDialogue => 0x80df,
            Opcode::DialogueReaction => 0x80e0,
            Opcode::Metarule3 => 0x80e1,
            Opcode::SetMapMusic => 0x80e2,
            Opcode::SetObjVisibility => 0x80e3,
            Opcode::LoadMap => 0x80e4,
            Opcode::WmAreaSetPos => 0x80e5,
            Opcode::SetExitGrids => 0x80e6,
            Opcode::AnimBusy => 0x80e7,
            Opcode::CritterHeal => 0x80e8,
            Opcode::SetLightLevel => 0x80e9,
            Opcode::GameTime => 0x80ea,
            Opcode::GameTimeInSeconds => 0x80eb,
            Opcode::Elevation => 0x80ec,
            Opcode::KillCritter => 0x80ed,
            Opcode::KillCritterType => 0x80ee,
            Opcode::CritterDamage => 0x80ef,
            Opcode::AddTimerEvent => 0x80f0,
            Opcode::RmTimerEvent => 0x80f1,
            Opcode::GameTicks => 0x80f2,
            Opcode::HasTrait => 0x80f3,
            Opcode::DestroyObject => 0x80f4,
            Opcode::ObjCanHearObj => 0x80f5,
            Opcode::GameTimeHour => 0x80f6,
            Opcode::FixedParam => 0x80f7,
            Opcode::TileIsVisible => 0x80f8,
            Opcode::DialogueSystemEnter => 0x80f9,
            Opcode::ActionBeingUsed => 0x80fa,
            Opcode::CritterState => 0x80fb,
            Opcode::GameTimeAdvance => 0x80fc,
            Opcode::RadiationInc => 0x80fd,
            Opcode::RadiationDec => 0x80fe,
            Opcode::CritterAttemptPlacement => 0x80ff,
            Opcode::ObjPid => 0x8100,
            Opcode::CurMapIndex => 0x8101,
            Opcode::CritterAddTrait => 0x8102,
            Opcode::CritterRmTrait => 0x8103,
            Opcode::ProtoData => 0x8104,
            Opcode::MessageStr => 0x8105,
            Opcode::CritterInvenObj => 0x8106,
            Opcode::ObjSetLightLevel => 0x8107,
            Opcode::WorldMap => 0x8108,
            Opcode::InvenCmds => 0x8109,
            Opcode::FloatMsg => 0x810a,
            Opcode::Metarule => 0x810b,
            Opcode::Anim => 0x810c,
            Opcode::ObjCarryingPidObj => 0x810d,
            Opcode::RegAnimFunc => 0x810e,
            Opcode::RegAnimAnimate => 0x810f,
            Opcode::RegAnimAnimateReverse => 0x8110,
            Opcode::RegAnimObjMoveToObj => 0x8111,
            Opcode::RegAnimObjRunToObj => 0x8112,
            Opcode::RegAnimObjMoveToTile => 0x8113,
            Opcode::RegAnimObjRunToTile => 0x8114,
            Opcode::PlayGmovie => 0x8115,
            Opcode::AddMultObjsToInven => 0x8116,
            Opcode::RmMultObjsFromInven => 0x8117,
            Opcode::GetMonth => 0x8118,
            Opcode::GetDay => 0x8119,
            Opcode::Explosion => 0x811a,
            Opcode::DaysSinceVisited => 0x811b,
            Opcode::GsayStart => 0x811c,
            Opcode::GsayEnd => 0x811d,
            Opcode::GsayReply => 0x811e,
            Opcode::GsayOption => 0x811f,
            Opcode::GsayMessage => 0x8120,
            Opcode::GiqOption => 0x8121,
            Opcode::Poison => 0x8122,
            Opcode::GetPoison => 0x8123,
            Opcode::PartyAdd => 0x8124,
            Opcode::PartyRemove => 0x8125,
            Opcode::RegAnimAnimateForever => 0x8126,
            Opcode::CritterInjure => 0x8127,
            Opcode::CombatIsInitialized => 0x8128,
            Opcode::GdialogBarter => 0x8129,
            Opcode::DifficultyLevel => 0x812a,
            Opcode::RunningBurningGuy => 0x812b,
            Opcode::InvenUnwield => 0x812c,
            Opcode::ObjIsLocked => 0x812d,
            Opcode::ObjLock => 0x812e,
            Opcode::ObjUnlock => 0x812f,
            Opcode::ObjIsOpen => 0x8130,
            Opcode::ObjOpen => 0x8131,
            Opcode::ObjClose => 0x8132,
            Opcode::GameUiDisable => 0x8133,
            Opcode::GameUiEnable => 0x8134,
            Opcode::GameUiIsDisabled => 0x8135,
            Opcode::GfadeOut => 0x8136,
            Opcode::GfadeIn => 0x8137,
            Opcode::ItemCapsTotal => 0x8138,
            Opcode::ItemCapsAdjust => 0x8139,
            Opcode::AnimActionFrame => 0x813a,
            Opcode::RegAnimPlaySfx => 0x813b,
            Opcode::CritterModSkill => 0x813c,
            Opcode::SfxBuildCharName => 0x813d,
            Opcode::SfxBuildAmbientName => 0x813e,
            Opcode::SfxBuildInterfaceName => 0x813f,
            Opcode::SfxBuildItemName => 0x8140,
            Opcode::SfxBuildWeaponName => 0x8141,
            Opcode::SfxBuildSceneryName => 0x8142,
            Opcode::AttackSetup => 0x8143,
            Opcode::DestroyMultObjs => 0x8144,
            Opcode::UseObjOnObj => 0x8145,
            Opcode::EndgameSlideshow => 0x8146,
            Opcode::MoveObjInvenToObj => 0x8147,
            Opcode::EndgameMovie => 0x8148,
            Opcode::ObjArtFid => 0x8149,
            Opcode::ArtAnim => 0x814a,
            Opcode::PartyMemberObj => 0x814b,
            Opcode::RotationToTile => 0x814c,
            Opcode::JamLock => 0x814d,
            Opcode::GdialogSetBarterMod => 0x814e,
            Opcode::CombatDifficulty => 0x814f,
            Opcode::ObjOnScreen => 0x8150,
            Opcode::CritterIsFleeing => 0x8151,
            Opcode::CritterSetFleeState => 0x8152,
            Opcode::TerminateCombat => 0x8153,
            Opcode::DebugMsg => 0x8154,
            Opcode::CritterStopAttacking => 0x8155,
            Opcode::ConstString => 0x9001,
            Opcode::ConstFloat => 0xa001,
            Opcode::ConstLong => 0xc001,
        }
    }

    /// Whether `code` is the code of some tag.
    pub open spec fn is_code(code: u16) -> bool {
        exists|op: Opcode| op.code() == code
    }

    /// Whether a literal follows the tag in the code stream. All other tags
    /// take what they work on from the data stack.
    pub open spec fn carries_literal(self) -> bool {
        self == Opcode::ConstString || self == Opcode::ConstFloat || self == Opcode::ConstLong
    }

    /// The tag's code.
    pub fn to_u16(self) -> (code: u16)
        ensures
            code == self.code(),
    {
        match self {
            Opcode::Noop8000 => 0x8000,
            Opcode::ConstShort => 0x8001,
            Opcode::CriticalStart => 0x8002,
            Opcode::CriticalDone => 0x8003,
            Opcode::Jmp => 0x8004,
            Opcode::Call => 0x8005,
            Opcode::CallAt => 0x8006,
            Opcode::CallCondition => 0x8007,
            Opcode::Callstart => 0x8008,
            Opcode::Exec => 0x8009,
            Opcode::Spawn => 0x800a,
            Opcode::Fork => 0x800b,
            Opcode::AToD => 0x800c,
            Opcode::DToA => 0x800d,
            Opcode::Exit => 0x800e,
            Opcode::Detach => 0x800f,
            Opcode::ExitProg => 0x8010,
            Opcode::StopProg => 0x8011,
            Opcode::FetchGlobal => 0x8012,
            Opcode::StoreGlobal => 0x8013,
            Opcode::FetchExternal => 0x8014,
            Opcode::StoreExternal => 0x8015,
            Opcode::ExportVar => 0x8016,
            Opcode::ExportProc => 0x8017,
            Opcode::Swap => 0x8018,
            Opcode::Swapa => 0x8019,
            Opcode::Pop => 0x801a,
            Opcode::Dup => 0x801b,
            Opcode::PopReturn => 0x801c,
            Opcode::PopExit => 0x801d,
            Opcode::PopAddress => 0x801e,
            Opcode::PopFlags => 0x801f,
            Opcode::PopFlagsReturn => 0x8020,
            Opcode::PopFlagsExit => 0x8021,
            Opcode::PopFlagsReturnExtern => 0x8022,
            Opcode::PopFlagsExitExtern => 0x8023,
            Opcode::PopFlagsReturnValExtern => 0x8024,
            Opcode::PopFlagsReturnValExit => 0x8025,
            Opcode::PopFlagsReturnValExitExtern => 0x8026,
            Opcode::CheckArgCount => 0x8027,
            Opcode::LookupStringProc => 0x8028,
            Opcode::PopBase => 0x8029,
            Opcode::PopToBase => 0x802a,
            Opcode::PushBase => 0x802b,
            Opcode::SetGlobal => 0x802c,
            Opcode::FetchProcAddress => 0x802d,
            Opcode::Dump => 0x802e,
            Opcode::If => 0x802f,
            Opcode::While => 0x8030,
            Opcode::Store => 0x8031,
            Opcode::Fetch => 0x8032,
            Opcode::Equal => 0x8033,
            Opcode::NotEqual => 0x8034,
            Opcode::LessEqual => 0x8035,
            Opcode::GreaterEqual => 0x8036,
            Opcode::Less => 0x8037,
            Opcode::Greater => 0x8038,
            Opcode::Add => 0x8039,
            Opcode::Sub => 0x803a,
            Opcode::Mul => 0x803b,
            Opcode::Div => 0x803c,
            Opcode::Mod => 0x803d,
            Opcode::And => 0x803e,
            Opcode::Or => 0x803f,
            Opcode::Bwand => 0x8040,
            Opcode::Bwor => 0x8041,
            Opcode::Bwxor => 0x8042,
            Opcode::Bwnot => 0x8043,
            Opcode::Floor => 0x8044,
            Opcode::Not => 0x8045,
            Opcode::Negate => 0x8046,
            Opcode::Wait => 0x8047,
            Opcode::Cancel => 0x8048,
            Opcode::Cancelall => 0x8049,
            Opcode::CriticalStart804a => 0x804a,
            Opcode::CriticalDone804b => 0x804b,
            Opcode::Sayquit => 0x804c,
            Opcode::Sayend => 0x804d,
            Opcode::Saystart => 0x804e,
            Opcode::Saystartpos => 0x804f,
            Opcode::Sayreplytitle => 0x8050,
            Opcode::Saygotoreply => 0x8051,
            Opcode::Sayreply => 0x8052,
            Opcode::Sayoption => 0x8053,
            Opcode::Saymessage => 0x8054,
            Opcode::Sayreplywindow => 0x8055,
            Opcode::Sayoptionwindow => 0x8056,
            Opcode::Sayborder => 0x8057,
            Opcode::Sayscrollup => 0x8058,
            Opcode::Sayscrolldown => 0x8059,
            Opcode::Saysetspacing => 0x805a,
            Opcode::Sayoptioncolor => 0x805b,
            Opcode::Sayreplycolor => 0x805c,
            Opcode::Sayrestart => 0x805d,
            Opcode::Saygetlastpos => 0x805e,
            Opcode::Sayreplyflags => 0x805f,
            Opcode::Sayoptionflags => 0x8060,
            Opcode::Saymessagetimeout => 0x8061,
            Opcode::Createwin => 0x8062,
            Opcode::Deletewin => 0x8063,
            Opcode::Selectwin => 0x8064,
            Opcode::Resizewin => 0x8065,
            Opcode::Scalewin => 0x8066,
            Opcode::Showwin => 0x8067,
            Opcode::Fillwin => 0x8068,
            Opcode::Fillrect => 0x8069,
            Opcode::Fillwin3X3 => 0x806a,
            Opcode::Display => 0x806b,
            Opcode::Displaygfx => 0x806c,
            Opcode::Displayraw => 0x806d,
            Opcode::Loadpalettetable => 0x806e,
            Opcode::Fadein => 0x806f,
            Opcode::Fadeout => 0x8070,
            Opcode::Gotoxy => 0x8071,
            Opcode::Print => 0x8072,
            Opcode::Format => 0x8073,
            Opcode::Printrect => 0x8074,
            Opcode::Setfont => 0x8075,
            Opcode::Settextflags => 0x8076,
            Opcode::Settextcolor => 0x8077,
            Opcode::Sethighlightcolor => 0x8078,
            Opcode::Stopmovie => 0x8079,
            Opcode::Playmovie => 0x807a,
            Opcode::Movieflags => 0x807b,
            Opcode::Playmovierect => 0x807c,
            Opcode::Addregion => 0x807f,
            Opcode::Addregionflag => 0x8080,
            Opcode::Addregionproc => 0x8081,
            Opcode::Addregionrightproc => 0x8082,
            Opcode::Deleteregion => 0x8083,
            Opcode::Activateregion => 0x8084,
            Opcode::Checkregion => 0x8085,
            Opcode::Addbutton => 0x8086,
            Opcode::Addbuttontext => 0x8087,
            Opcode::Addbuttonflag => 0x8088,
            Opcode::Addbuttongfx => 0x8089,
            Opcode::Addbuttonproc => 0x808a,
            Opcode::Addbuttonrightproc => 0x808b,
            Opcode::Deletebutton => 0x808c,
            Opcode::Hidemouse => 0x808d,
            Opcode::Showmouse => 0x808e,
            Opcode::Mouseshape => 0x808f,
            Opcode::Refreshmouse => 0x8090,
            Opcode::Setglobalmousefunc => 0x8091,
            Opcode::Addnamedevent => 0x8092,
            Opcode::Addnamedhandler => 0x8093,
            Opcode::Clearnamed => 0x8094,
            Opcode::Signalnamed => 0x8095,
            Opcode::Addkey => 0x8096,
            Opcode::Deletekey => 0x8097,
            Opcode::Soundplay => 0x8098,
            Opcode::Soundpause => 0x8099,
            Opcode::Soundresume => 0x809a,
            Opcode::Soundstop => 0x809b,
            Opcode::Soundrewind => 0x809c,
            Opcode::Sounddelete => 0x809d,
            Opcode::Setoneoptpause => 0x809e,
            Opcode::Selectfilelist => 0x809f,
            Opcode::Tokenize => 0x80a0,
            Opcode::GiveExpPoints => 0x80a1,
            Opcode::ScrReturn => 0x80a2,
            Opcode::PlaySfx => 0x80a3,
            Opcode::ObjName => 0x80a4,
            Opcode::SfxBuildOpenName => 0x80a5,
            Opcode::GetPcStat => 0x80a6,
            Opcode::TileContainsPidObj => 0x80a7,
            Opcode::SetMapStart => 0x80a8,
            Opcode::OverrideMapStart => 0x80a9,
            Opcode::HasSkill => 0x80aa,
            Opcode::UsingSkill => 0x80ab,
            Opcode::RollVsSkill => 0x80ac,
            Opcode::SkillContest => 0x80ad,
            Opcode::DoCheck => 0x80ae,
            Opcode::IsSuccess => 0x80af,
            Opcode::IsCritical => 0x80b0,
            Opcode::HowMuch => 0x80b1,
            Opcode::MarkAreaKnown => 0x80b2,
            Opcode::ReactionInfluence => 0x80b3,
            Opcode::Random => 0x80b4,
            Opcode::RollDice => 0x80b5,
            Opcode::MoveTo => 0x80b6,
            Opcode::CreateObjectSid => 0x80b7,
            Opcode::DisplayMsg => 0x80b8,
            Opcode::ScriptOverrides => 0x80b9,
            Opcode::ObjIsCarryingObjPid => 0x80ba,
            Opcode::TileContainsObjPid => 0x80bb,
            Opcode::SelfObj => 0x80bc,
            Opcode::SourceObj => 0x80bd,
            Opcode::TargetObj => 0x80be,
            Opcode::DudeObj => 0x80bf,
            Opcode::ObjBeingUsedWith => 0x80c0,
            Opcode::LocalVar => 0x80c1,
            Opcode::SetLocalVar => 0x80c2,
            Opcode::MapVar => 0x80c3,
            Opcode::SetMapVar => 0x80c4,
            Opcode::GlobalVar => 0x80c5,
            Opcode::SetGlobalVar => 0x80c6,
            Opcode::ScriptAction => 0x80c7,
            Opcode::ObjType => 0x80c8,
            Opcode::ObjItemSubtype => 0x80c9,
            Opcode::GetCritterStat => 0x80ca,
            Opcode::SetCritterStat => 0x80cb,
            Opcode::AnimateStandObj => 0x80cc,
            Opcode::AnimateStandReverseObj => 0x80cd,
            Opcode::AnimateMoveObjToTile => 0x80ce,
            Opcode::TileInTileRect => 0x80cf,
            Opcode::Attack => 0x80d0,
            Opcode::Noop80d1 => 0x80d1,
            Opcode::TileDistance => 0x80d2,
            Opcode::TileDistanceObjs => 0x80d3,
            Opcode::TileNum => 0x80d4,
            Opcode::TileNumInDirection => 0x80d5,
            Opcode::PickupObj => 0x80d6,
            Opcode::DropObj => 0x80d7,
            Opcode::AddObjToInven => 0x80d8,
            Opcode::RmObjFromInven => 0x80d9,
            Opcode::WieldObjCritter => 0x80da,
            Opcode::UseObj => 0x80db,
            Opcode::ObjCanSeeObj => 0x80dc,
            Opcode::Attack80dd => 0x80dd,
            Opcode::StartGdialog => 0x80de,
            Opcode::EndDialogue => 0x80df,
            Opcode::DialogueReaction => 0x80e0,
            Opcode::Metarule3 => 0x80e1,
            Opcode::SetMapMusic => 0x80e2,
            Opcode::SetObjVisibility => 0x80e3,
            Opcode::LoadMap => 0x80e4,
            Opcode::WmAreaSetPos => 0x80e5,
            Opcode::SetExitGrids => 0x80e6,
            Opcode::AnimBusy => 0x80e7,
            Opcode::CritterHeal => 0x80e8,
            Opcode::SetLightLevel => 0x80e9,
            Opcode::GameTime => 0x80ea,
            Opcode::GameTimeInSeconds => 0x80eb,
            Opcode::Elevation => 0x80ec,
            Opcode::KillCritter => 0x80ed,
            Opcode::KillCritterType => 0x80ee,
            Opcode::CritterDamage => 0x80ef,
            Opcode::AddTimerEvent => 0x80f0,
            Opcode::RmTimerEvent => 0x80f1,
            Opcode::GameTicks => 0x80f2,
            Opcode::HasTrait => 0x80f3,
            Opcode::DestroyObject => 0x80f4,
            Opcode::ObjCanHearObj => 0x80f5,
            Opcode::GameTimeHour => 0x80f6,
            Opcode::FixedParam => 0x80f7,
            Opcode::TileIsVisible => 0x80f8,
            Opcode::DialogueSystemEnter => 0x80f9,
            Opcode::ActionBeingUsed => 0x80fa,
            Opcode::CritterState => 0x80fb,
            Opcode::GameTimeAdvance => 0x80fc,
            Opcode::RadiationInc => 0x80fd,
            Opcode::RadiationDec => 0x80fe,
            Opcode::CritterAttemptPlacement => 0x80ff,
            Opcode::ObjPid => 0x8100,
            Opcode::CurMapIndex => 0x8101,
            Opcode::CritterAddTrait => 0x8102,
            Opcode::CritterRmTrait => 0x8103,
            Opcode::ProtoData => 0x8104,
            Opcode::MessageStr => 0x8105,
            Opcode::CritterInvenObj => 0x8106,
            Opcode::ObjSetLightLevel => 0x8107,
            Opcode::WorldMap => 0x8108,
            Opcode::InvenCmds => 0x8109,
            Opcode::FloatMsg => 0x810a,
            Opcode::Metarule => 0x810b,
            Opcode::Anim => 0x810c,
            Opcode::ObjCarryingPidObj => 0x810d,
            Opcode::RegAnimFunc => 0x810e,
            Opcode::RegAnimAnimate => 0x810f,
            Opcode::RegAnimAnimateReverse => 0x8110,
            Opcode::RegAnimObjMoveToObj => 0x8111,
            Opcode::RegAnimObjRunToObj => 0x8112,
            Opcode::RegAnimObjMoveToTile => 0x8113,
            Opcode::RegAnimObjRunToTile => 0x8114,
            Opcode::PlayGmovie => 0x8115,
            Opcode::AddMultObjsToInven => 0x8116,
            Opcode::RmMultObjsFromInven => 0x8117,
            Opcode::GetMonth => 0x8118,
            Opcode::GetDay => 0x8119,
            Opcode::Explosion => 0x811a,
            Opcode::DaysSinceVisited => 0x811b,
            Opcode::GsayStart => 0x811c,
            Opcode::GsayEnd => 0x811d,
            Opcode::GsayReply => 0x811e,
            Opcode::GsayOption => 0x811f,
            Opcode::GsayMessage => 0x8120,
            Opcode::GiqOption => 0x8121,
            Opcode::Poison => 0x8122,
            Opcode::GetPoison => 0x8123,
            Opcode::PartyAdd => 0x8124,
            Opcode::PartyRemove => 0x8125,
            Opcode::RegAnimAnimateForever => 0x8126,
            Opcode::CritterInjure => 0x8127,
            Opcode::CombatIsInitialized => 0x8128,
            Opcode::GdialogBarter => 0x8129,
            Opcode::DifficultyLevel => 0x812a,
            Opcode::RunningBurningGuy => 0x812b,
            Opcode::InvenUnwield => 0x812c,
            Opcode::ObjIsLocked => 0x812d,
            Opcode::ObjLock => 0x812e,
            Opcode::ObjUnlock => 0x812f,
            Opcode::ObjIsOpen => 0x8130,
            Opcode::ObjOpen => 0x8131,
            Opcode::ObjClose => 0x8132,
            Opcode::GameUiDisable => 0x8133,
            Opcode::GameUiEnable => 0x8134,
            Opcode::GameUiIsDisabled => 0x8135,
            Opcode::GfadeOut => 0x8136,
            Opcode::GfadeIn => 0x8137,
            Opcode::ItemCapsTotal => 0x8138,
            Opcode::ItemCapsAdjust => 0x8139,
            Opcode::AnimActionFrame => 0x813a,
            Opcode::RegAnimPlaySfx => 0x813b,
            Opcode::CritterModSkill => 0x813c,
            Opcode::SfxBuildCharName => 0x813d,
            Opcode::SfxBuildAmbientName => 0x813e,
            Opcode::SfxBuildInterfaceName => 0x813f,
            Opcode::SfxBuildItemName => 0x8140,
            Opcode::SfxBuildWeaponName => 0x8141,
            Opcode::SfxBuildSceneryName => 0x8142,
            Opcode::AttackSetup => 0x8143,
            Opcode::DestroyMultObjs => 0x8144,
            Opcode::UseObjOnObj => 0x8145,
            Opcode::EndgameSlideshow => 0x8146,
            Opcode::MoveObjInvenToObj => 0x8147,
            Opcode::EndgameMovie => 0x8148,
            Opcode::ObjArtFid => 0x8149,
            Opcode::ArtAnim => 0x814a,
            Opcode::PartyMemberObj => 0x814b,
            Opcode::RotationToTile => 0x814c,
            Opcode::JamLock => 0x814d,
            Opcode::GdialogSetBarterMod => 0x814e,
            Opcode::CombatDifficulty => 0x814f,
            Opcode::ObjOnScreen => 0x8150,
            Opcode::CritterIsFleeing => 0x8151,
            Opcode::CritterSetFleeState => 0x8152,
            Opcode::TerminateCombat => 0x8153,
            Opcode::DebugMsg => 0x8154,
            Opcode::CritterStopAttacking => 0x8155,
            Opcode::ConstString => 0x9001,
            Opcode::ConstFloat => 0xa001,
            Opcode::ConstLong => 0xc001,
        }
    }

    /// The tag with the given code, if there is one.
    pub fn from_u16(code: u16) -> (r: Option<Opcode>)
        ensures
            match r {
                Some(op) => op.code() == code,
                None => !Self::is_code(code),
            },
    {
        if code < 0x8000 {
            proof {
                lemma_free_code(code);
            }
            None
        }
        else if code <= 0x801f {
            decode_block_0(code)
        }
        else if code <= 0x803f {
            decode_block_1(code)
        }
        else if code <= 0x805f {
            decode_block_2(code)
        }
        else if code <= 0x807f {
            decode_block_3(code)
        }
        else if code <= 0x809f {
            decode_block_4(code)
        }
        else if code <= 0x80bf {
            decode_block_5(code)
        }
        else if code <= 0x80df {
            decode_block_6(code)
        }
        else if code <= 0x80ff {
            decode_block_7(code)
        }
        else if code <= 0x811f {
            decode_block_8(code)
        }
        else if code <= 0x813f {
            decode_block_9(code)
        }
        else if code <= 0x815f {
            decode_block_10(code)
        }
        else {
            match code {
                0x9001 => Some(Opcode::ConstString),
                0xa001 => Some(Opcode::ConstFloat),
                0xc001 => Some(Opcode::ConstLong),
                _ => {
                    proof {
                        lemma_free_code(code);
                    }
                    None
                },
            }
        }
    }

    /// Whether a literal follows the tag in the code stream.
    pub fn has_literal(self) -> (b: bool)
        ensures
            b == self.carries_literal(),
    {
        match self {
            Opcode::ConstString | Opcode::ConstFloat | Opcode::ConstLong => true,
            _ => false,
        }
    }
}

/// Decodes the codes `0x8000..=0x801f`.
fn decode_block_0(code: u16) -> (r: Option<Opcode>)
    requires
        0x8000 <= code <= 0x801f,
    ensures
        match r {
            Some(op) => op.code() == code,
            None => !Opcode::is_code(code),
        },
{
    match code {
        0x8000 => Some(Opcode::Noop8000),
        0x8001 => Some(Opcode::ConstShort),
        0x8002 => Some(Opcode::CriticalStart),
        0x8003 => Some(Opcode::CriticalDone),
        0x8004 => Some(Opcode::Jmp),
        0x8005 => Some(Opcode::Call),
        0x8006 => Some(Opcode::CallAt),
        0x8007 => Some(Opcode::CallCondition),
        0x8008 => Some(Opcode::Callstart),
        0x8009 => Some(Opcode::Exec),
        0x800a => Some(Opcode::Spawn),
        0x800b => Some(Opcode::Fork),
        0x800c => Some(Opcode::AToD),
        0x800d => Some(Opcode::DToA),
        0x800e => Some(Opcode::Exit),
        0x800f => Some(Opcode::Detach),
        0x8010 => Some(Opcode::ExitProg),
        0x8011 => Some(Opcode::StopProg),
        0x8012 => Some(Opcode::FetchGlobal),
        0x8013 => Some(Opcode::StoreGlobal),
        0x8014 => Some(Opcode::FetchExternal),
        0x8015 => Some(Opcode::StoreExternal),
        0x8016 => Some(Opcode::ExportVar),
        0x8017 => Some(Opcode::ExportProc),
        0x8018 => Some(Opcode::Swap),
        0x8019 => Some(Opcode::Swapa),
        0x801a => Some(Opcode::Pop),
        0x801b => Some(Opcode::Dup),
        0x801c => Some(Opcode::PopReturn),
        0x801d => Some(Opcode::PopExit),
        0x801e => Some(Opcode::PopAddress),
        0x801f => Some(Opcode::PopFlags),
        _ => {
            proof {
                lemma_free_code(code);
            }
            None
        },
    }
}

/// Decodes the codes `0x8020..=0x803f`.
fn decode_block_1(code: u16) -> (r: Option<Opcode>)
    requires
        0x8020 <= code <= 0x803f,
    ensures
        match r {
            Some(op) => op.code() == code,
            None => !Opcode::is_code(code),
        },
{
    match code {
        0x8020 => Some(Opcode::PopFlagsReturn),
        0x8021 => Some(Opcode::PopFlagsExit),
        0x8022 => Some(Opcode::PopFlagsReturnExtern),
        0x8023 => Some(Opcode::PopFlagsExitExtern),
        0x8024 => Some(Opcode::PopFlagsReturnValExtern),
        0x8025 => Some(Opcode::PopFlagsReturnValExit),
        0x8026 => Some(Opcode::PopFlagsReturnValExitExtern),
        0x8027 => Some(Opcode::CheckArgCount),
        0x8028 => Some(Opcode::LookupStringProc),
        0x8029 => Some(Opcode::PopBase),
        0x802a => Some(Opcode::PopToBase),
        0x802b => Some(Opcode::PushBase),
        0x802c => Some(Opcode::SetGlobal),
        0x802d => Some(Opcode::FetchProcAddress),
        0x802e => Some(Opcode::Dump),
        0x802f => Some(Opcode::If),
        0x8030 => Some(Opcode::While),
        0x8031 => Some(Opcode::Store),
        0x8032 => Some(Opcode::Fetch),
        0x8033 => Some(Opcode::Equal),
        0x8034 => Some(Opcode::NotEqual),
        0x8035 => Some(Opcode::LessEqual),
        0x8036 => Some(Opcode::GreaterEqual),
        0x8037 => Some(Opcode::Less),
        0x8038 => Some(Opcode::Greater),
        0x8039 => Some(Opcode::Add),
        0x803a => Some(Opcode::Sub),
        0x803b => Some(Opcode::Mul),
        0x803c => Some(Opcode::Div),
        0x803d => Some(Opcode::Mod),
        0x803e => Some(Opcode::And),
        0x803f => Some(Opcode::Or),
        _ => {
            proof {
                lemma_free_code(code);
            }
            None
        },
    }
}

/// Decodes the codes `0x8040..=0x805f`.
fn decode_block_2(code: u16) -> (r: Option<Opcode>)
    requires
        0x8040 <= code <= 0x805f,
    ensures
        match r {
            Some(op) => op.code() == code,
            None => !Opcode::is_code(code),
        },
{
    match code {
        0x8040 => Some(Opcode::Bwand),
        0x8041 => Some(Opcode::Bwor),
        0x8042 => Some(Opcode::Bwxor),
        0x8043 => Some(Opcode::Bwnot),
        0x8044 => Some(Opcode::Floor),
        0x8045 => Some(Opcode::Not),
        0x8046 => Some(Opcode::Negate),
        0x8047 => Some(Opcode::Wait),
        0x8048 => Some(Opcode::Cancel),
        0x8049 => Some(Opcode::Cancelall),
        0x804a => Some(Opcode::CriticalStart804a),
        0x804b => Some(Opcode::CriticalDone804b),
        0x804c => Some(Opcode::Sayquit),
        0x804d => Some(Opcode::Sayend),
        0x804e => Some(Opcode::Saystart),
        0x804f => Some(Opcode::Saystartpos),
        0x8050 => Some(Opcode::Sayreplytitle),
        0x8051 => Some(Opcode::Saygotoreply),
        0x8052 => Some(Opcode::Sayreply),
        0x8053 => Some(Opcode::Sayoption),
        0x8054 => Some(Opcode::Saymessage),
        0x8055 => Some(Opcode::Sayreplywindow),
        0x8056 => Some(Opcode::Sayoptionwindow),
        0x8057 => Some(Opcode::Sayborder),
        0x8058 => Some(Opcode::Sayscrollup),
        0x8059 => Some(Opcode::Sayscrolldown),
        0x805a => Some(Opcode::Saysetspacing),
        0x805b => Some(Opcode::Sayoptioncolor),
        0x805c => Some(Opcode::Sayreplycolor),
        0x805d => Some(Opcode::Sayrestart),
        0x805e => Some(Opcode::Saygetlastpos),
        0x805f => Some(Opcode::Sayreplyflags),
        _ => {
            proof {
                lemma_free_code(code);
            }
            None
        },
    }
}

/// Decodes the codes `0x8060..=0x807f`.
fn decode_block_3(code: u16) -> (r: Option<Opcode>)
    requires
        0x8060 <= code <= 0x807f,
    ensures
        match r {
            Some(op) => op.code() == code,
            None => !Opcode::is_code(code),
        },
{
    match code {
        0x8060 => Some(Opcode::Sayoptionflags),
        0x8061 => Some(Opcode::Saymessagetimeout),
        0x8062 => Some(Opcode::Createwin),
        0x8063 => Some(Opcode::Deletewin),
        0x8064 => Some(Opcode::Selectwin),
        0x8065 => Some(Opcode::Resizewin),
        0x8066 => Some(Opcode::Scalewin),
        0x8067 => Some(Opcode::Showwin),
        0x8068 => Some(Opcode::Fillwin),
        0x8069 => Some(Opcode::Fillrect),
        0x806a => Some(Opcode::Fillwin3X3),
        0x806b => Some(Opcode::Display),
        0x806c => Some(Opcode::Displaygfx),
        0x806d => Some(Opcode::Displayraw),
        0x806e => Some(Opcode::Loadpalettetable),
        0x806f => Some(Opcode::Fadein),
        0x8070 => Some(Opcode::Fadeout),
        0x8071 => Some(Opcode::Gotoxy),
        0x8072 => Some(Opcode::Print),
        0x8073 => Some(Opcode::Format),
        0x8074 => Some(Opcode::Printrect),
        0x8075 => Some(Opcode::Setfont),
        0x8076 => Some(Opcode::Settextflags),
        0x8077 => Some(Opcode::Settextcolor),
        0x8078 => Some(Opcode::Sethighlightcolor),
        0x8079 => Some(Opcode::Stopmovie),
        0x807a => Some(Opcode::Playmovie),
        0x807b => Some(Opcode::Movieflags),
        0x807c => Some(Opcode::Playmovierect),
        0x807f => Some(Opcode::Addregion),
        _ => {
            proof {
                lemma_free_code(code);
            }
            None
        },
    }
}

/// Decodes the codes `0x8080..=0x809f`.
fn decode_block_4(code: u16) -> (r: Option<Opcode>)
    requires
        0x8080 <= code <= 0x809f,
    ensures
        match r {
            Some(op) => op.code() == code,
            None => !Opcode::is_code(code),
        },
{
    match code {
        0x8080 => Some(Opcode::Addregionflag),
        0x8081 => Some(Opcode::Addregionproc),
        0x8082 => Some(Opcode::Addregionrightproc),
        0x8083 => Some(Opcode::Deleteregion),
        0x8084 => Some(Opcode::Activateregion),
        0x8085 => Some(Opcode::Checkregion),
        0x8086 => Some(Opcode::Addbutton),
        0x8087 => Some(Opcode::Addbuttontext),
        0x8088 => Some(Opcode::Addbuttonflag),
        0x8089 => Some(Opcode::Addbuttongfx),
        0x808a => Some(Opcode::Addbuttonproc),
        0x808b => Some(Opcode::Addbuttonrightproc),
        0x808c => Some(Opcode::Deletebutton),
        0x808d => Some(Opcode::Hidemouse),
        0x808e => Some(Opcode::Showmouse),
        0x808f => Some(Opcode::Mouseshape),
        0x8090 => Some(Opcode::Refreshmouse),
        0x8091 => Some(Opcode::Setglobalmousefunc),
        0x8092 => Some(Opcode::Addnamedevent),
        0x8093 => Some(Opcode::Addnamedhandler),
        0x8094 => Some(Opcode::Clearnamed),
        0x8095 => Some(Opcode::Signalnamed),
        0x8096 => Some(Opcode::Addkey),
        0x8097 => Some(Opcode::Deletekey),
        0x8098 => Some(Opcode::Soundplay),
        0x8099 => Some(Opcode::Soundpause),
        0x809a => Some(Opcode::Soundresume),
        0x809b => Some(Opcode::Soundstop),
        0x809c => Some(Opcode::Soundrewind),
        0x809d => Some(Opcode::Sounddelete),
        0x809e => Some(Opcode::Setoneoptpause),
        0x809f => Some(Opcode::Selectfilelist),
        _ => {
            proof {
                lemma_free_code(code);
            }
            None
        },
    }
}

/// Decodes the codes `0x80a0..=0x80bf`.
fn decode_block_5(code: u16) -> (r: Option<Opcode>)
    requires
        0x80a0 <= code <= 0x80bf,
    ensures
        match r {
            Some(op) => op.code() == code,
            None => !Opcode::is_code(code),
        },
{
    match code {
        0x80a0 => Some(Opcode::Tokenize),
        0x80a1 => Some(Opcode::GiveExpPoints),
        0x80a2 => Some(Opcode::ScrReturn),
        0x80a3 => Some(Opcode::PlaySfx),
        0x80a4 => Some(Opcode::ObjName),
        0x80a5 => Some(Opcode::SfxBuildOpenName),
        0x80a6 => Some(Opcode::GetPcStat),
        0x80a7 => Some(Opcode::TileContainsPidObj),
        0x80a8 => Some(Opcode::SetMapStart),
        0x80a9 => Some(Opcode::OverrideMapStart),
        0x80aa => Some(Opcode::HasSkill),
        0x80ab => Some(Opcode::UsingSkill),
        0x80ac => Some(Opcode::RollVsSkill),
        0x80ad => Some(Opcode::SkillContest),
        0x80ae => Some(Opcode::DoCheck),
        0x80af => Some(Opcode::IsSuccess),
        0x80b0 => Some(Opcode::IsCritical),
        0x80b1 => Some(Opcode::HowMuch),
        0x80b2 => Some(Opcode::MarkAreaKnown),
        0x80b3 => Some(Opcode::ReactionInfluence),
        0x80b4 => Some(Opcode::Random),
        0x80b5 => Some(Opcode::RollDice),
        0x80b6 => Some(Opcode::MoveTo),
        0x80b7 => Some(Opcode::CreateObjectSid),
        0x80b8 => Some(Opcode::DisplayMsg),
        0x80b9 => Some(Opcode::ScriptOverrides),
        0x80ba => Some(Opcode::ObjIsCarryingObjPid),
        0x80bb => Some(Opcode::TileContainsObjPid),
        0x80bc => Some(Opcode::SelfObj),
        0x80bd => Some(Opcode::SourceObj),
        0x80be => Some(Opcode::TargetObj),
        0x80bf => Some(Opcode::DudeObj),
        _ => {
            proof {
                lemma_free_code(code);
            }
            None
        },
    }
}

/// Decodes the codes `0x80c0..=0x80df`.
fn decode_block_6(code: u16) -> (r: Option<Opcode>)
    requires
        0x80c0 <= code <= 0x80df,
    ensures
        match r {
            Some(op) => op.code() == code,
            None => !Opcode::is_code(code),
        },
{
    match code {
        0x80c0 => Some(Opcode::ObjBeingUsedWith),
        0x80c1 => Some(Opcode::LocalVar),
        0x80c2 => Some(Opcode::SetLocalVar),
        0x80c3 => Some(Opcode::MapVar),
        0x80c4 => Some(Opcode::SetMapVar),
        0x80c5 => Some(Opcode::GlobalVar),
        0x80c6 => Some(Opcode::SetGlobalVar),
        0x80c7 => Some(Opcode::ScriptAction),
        0x80c8 => Some(Opcode::ObjType),
        0x80c9 => Some(Opcode::ObjItemSubtype),
        0x80ca => Some(Opcode::GetCritterStat),
        0x80cb => Some(Opcode::SetCritterStat),
        0x80cc => Some(Opcode::AnimateStandObj),
        0x80cd => Some(Opcode::AnimateStandReverseObj),
        0x80ce => Some(Opcode::AnimateMoveObjToTile),
        0x80cf => Some(Opcode::TileInTileRect),
        0x80d0 => Some(Opcode::Attack),
        0x80d1 => Some(Opcode::Noop80d1),
        0x80d2 => Some(Opcode::TileDistance),
        0x80d3 => Some(Opcode::TileDistanceObjs),
        0x80d4 => Some(Opcode::TileNum),
        0x80d5 => Some(Opcode::TileNumInDirection),
        0x80d6 => Some(Opcode::PickupObj),
        0x80d7 => Some(Opcode::DropObj),
        0x80d8 => Some(Opcode::AddObjToInven),
        0x80d9 => Some(Opcode::RmObjFromInven),
        0x80da => Some(Opcode::WieldObjCritter),
        0x80db => Some(Opcode::UseObj),
        0x80dc => Some(Opcode::ObjCanSeeObj),
        0x80dd => Some(Opcode::Attack80dd),
        0x80de => Some(Opcode::StartGdialog),
        0x80df => Some(Opcode::EndDialogue),
        _ => {
            proof {
                lemma_free_code(code);
            }
            None
        },
    }
}

/// Decodes the codes `0x80e0..=0x80ff`.
fn decode_block_7(code: u16) -> (r: Option<Opcode>)
    requires
        0x80e0 <= code <= 0x80ff,
    ensures
        match r {
            Some(op) => op.code() == code,
            None => !Opcode::is_code(code),
        },
{
    match code {
        0x80e0 => Some(Opcode::DialogueReaction),
        0x80e1 => Some(Opcode::Metarule3),
        0x80e2 => Some(Opcode::SetMapMusic),
        0x80e3 => Some(Opcode::SetObjVisibility),
        0x80e4 => Some(Opcode::LoadMap),
        0x80e5 => Some(Opcode::WmAreaSetPos),
        0x80e6 => Some(Opcode::SetExitGrids),
        0x80e7 => Some(Opcode::AnimBusy),
        0x80e8 => Some(Opcode::CritterHeal),
        0x80e9 => Some(Opcode::SetLightLevel),
        0x80ea => Some(Opcode::GameTime),
        0x80eb => Some(Opcode::GameTimeInSeconds),
        0x80ec => Some(Opcode::Elevation),
        0x80ed => Some(Opcode::KillCritter),
        0x80ee => Some(Opcode::KillCritterType),
        0x80ef => Some(Opcode::CritterDamage),
        0x80f0 => Some(Opcode::AddTimerEvent),
        0x80f1 => Some(Opcode::RmTimerEvent),
        0x80f2 => Some(Opcode::GameTicks),
        0x80f3 => Some(Opcode::HasTrait),
        0x80f4 => Some(Opcode::DestroyObject),
        0x80f5 => Some(Opcode::ObjCanHearObj),
        0x80f6 => Some(Opcode::GameTimeHour),
        0x80f7 => Some(Opcode::FixedParam),
        0x80f8 => Some(Opcode::TileIsVisible),
        0x80f9 => Some(Opcode::DialogueSystemEnter),
        0x80fa => Some(Opcode::ActionBeingUsed),
        0x80fb => Some(Opcode::CritterState),
        0x80fc => Some(Opcode::GameTimeAdvance),
        0x80fd => Some(Opcode::RadiationInc),
        0x80fe => Some(Opcode::RadiationDec),
        0x80ff => Some(Opcode::CritterAttemptPlacement),
        _ => {
            proof {
                lemma_free_code(code);
            }
            None
        },
    }
}

/// Decodes the codes `0x8100..=0x811f`.
fn decode_block_8(code: u16) -> (r: Option<Opcode>)
    requires
        0x8100 <= code <= 0x811f,
    ensures
        match r {
            Some(op) => op.code() == code,
            None => !Opcode::is_code(code),
        },
{
    match code {
        0x8100 => Some(Opcode::ObjPid),
        0x8101 => Some(Opcode::CurMapIndex),
        0x8102 => Some(Opcode::CritterAddTrait),
        0x8103 => Some(Opcode::CritterRmTrait),
        0x8104 => Some(Opcode::ProtoData),
        0x8105 => Some(Opcode::MessageStr),
        0x8106 => Some(Opcode::CritterInvenObj),
        0x8107 => Some(Opcode::ObjSetLightLevel),
        0x8108 => Some(Opcode::WorldMap),
        0x8109 => Some(Opcode::InvenCmds),
        0x810a => Some(Opcode::FloatMsg),
        0x810b => Some(Opcode::Metarule),
        0x810c => Some(Opcode::Anim),
        0x810d => Some(Opcode::ObjCarryingPidObj),
        0x810e => Some(Opcode::RegAnimFunc),
        0x810f => Some(Opcode::RegAnimAnimate),
        0x8110 => Some(Opcode::RegAnimAnimateReverse),
        0x8111 => Some(Opcode::RegAnimObjMoveToObj),
        0x8112 => Some(Opcode::RegAnimObjRunToObj),
        0x8113 => Some(Opcode::RegAnimObjMoveToTile),
        0x8114 => Some(Opcode::RegAnimObjRunToTile),
        0x8115 => Some(Opcode::PlayGmovie),
        0x8116 => Some(Opcode::AddMultObjsToInven),
        0x8117 => Some(Opcode::RmMultObjsFromInven),
        0x8118 => Some(Opcode::GetMonth),
        0x8119 => Some(Opcode::GetDay),
        0x811a => Some(Opcode::Explosion),
        0x811b => Some(Opcode::DaysSinceVisited),
        0x811c => Some(Opcode::GsayStart),
        0x811d => Some(Opcode::GsayEnd),
        0x811e => Some(Opcode::GsayReply),
        0x811f => Some(Opcode::GsayOption),
        _ => {
            proof {
                lemma_free_code(code);
            }
            None
        },
    }
}

/// Decodes the codes `0x8120..=0x813f`.
fn decode_block_9(code: u16) -> (r: Option<Opcode>)
    requires
        0x8120 <= code <= 0x813f,
    ensures
        match r {
            Some(op) => op.code() == code,
            None => !Opcode::is_code(code),
        },
{
    match code {
        0x8120 => Some(Opcode::GsayMessage),
        0x8121 => Some(Opcode::GiqOption),
        0x8122 => Some(Opcode::Poison),
        0x8123 => Some(Opcode::GetPoison),
        0x8124 => Some(Opcode::PartyAdd),
        0x8125 => Some(Opcode::PartyRemove),
        0x8126 => Some(Opcode::RegAnimAnimateForever),
        0x8127 => Some(Opcode::CritterInjure),
        0x8128 => Some(Opcode::CombatIsInitialized),
        0x8129 => Some(Opcode::GdialogBarter),
        0x812a => Some(Opcode::DifficultyLevel),
        0x812b => Some(Opcode::RunningBurningGuy),
        0x812c => Some(Opcode::InvenUnwield),
        0x812d => Some(Opcode::ObjIsLocked),
        0x812e => Some(Opcode::ObjLock),
        0x812f => Some(Opcode::ObjUnlock),
        0x8130 => Some(Opcode::ObjIsOpen),
        0x8131 => Some(Opcode::ObjOpen),
        0x8132 => Some(Opcode::ObjClose),
        0x8133 => Some(Opcode::GameUiDisable),
        0x8134 => Some(Opcode::GameUiEnable),
        0x8135 => Some(Opcode::GameUiIsDisabled),
        0x8136 => Some(Opcode::GfadeOut),
        0x8137 => Some(Opcode::GfadeIn),
        0x8138 => Some(Opcode::ItemCapsTotal),
        0x8139 => Some(Opcode::ItemCapsAdjust),
        0x813a => Some(Opcode::AnimActionFrame),
        0x813b => Some(Opcode::RegAnimPlaySfx),
        0x813c => Some(Opcode::CritterModSkill),
        0x813d => Some(Opcode::SfxBuildCharName),
        0x813e => Some(Opcode::SfxBuildAmbientName),
        0x813f => Some(Opcode::SfxBuildInterfaceName),
        _ => {
            proof {
                lemma_free_code(code);
            }
            None
        },
    }
}

/// Decodes the codes `0x8140..=0x815f`.
fn decode_block_10(code: u16) -> (r: Option<Opcode>)
    requires
        0x8140 <= code <= 0x815f,
    ensures
        match r {
            Some(op) => op.code() == code,
            None => !Opcode::is_code(code),
        },
{
    match code {
        0x8140 => Some(Opcode::SfxBuildItemName),
        0x8141 => Some(Opcode::SfxBuildWeaponName),
        0x8142 => Some(Opcode::SfxBuildSceneryName),
        0x8143 => Some(Opcode::AttackSetup),
        0x8144 => Some(Opcode::DestroyMultObjs),
        0x8145 => Some(Opcode::UseObjOnObj),
        0x8146 => Some(Opcode::EndgameSlideshow),
        0x8147 => Some(Opcode::MoveObjInvenToObj),
        0x8148 => Some(Opcode::EndgameMovie),
        0x8149 => Some(Opcode::ObjArtFid),
        0x814a => Some(Opcode::ArtAnim),
        0x814b => Some(Opcode::PartyMemberObj),
        0x814c => Some(Opcode::RotationToTile),
        0x814d => Some(Opcode::JamLock),
        0x814e => Some(Opcode::GdialogSetBarterMod),
        0x814f => Some(Opcode::CombatDifficulty),
        0x8150 => Some(Opcode::ObjOnScreen),
        0x8151 => Some(Opcode::CritterIsFleeing),
        0x8152 => Some(Opcode::CritterSetFleeState),
        0x8153 => Some(Opcode::TerminateCombat),
        0x8154 => Some(Opcode::DebugMsg),
        0x8155 => Some(Opcode::CritterStopAttacking),
        _ => {
            proof {
                lemma_free_code(code);
            }
            None
        },
    }
}

/// The codes fill `0x8000..=0x8155` but for the two free codes `0x807d` and
/// `0x807e`; beyond that range lie only the codes of the three tags that
/// carry a literal.
pub proof fn lemma_code_range(op: Opcode)
    ensures
        0x8000 <= op.code() <= 0x807c || 0x807f <= op.code() <= 0x8155 || op.code() == 0x9001
            || op.code() == 0xa001 || op.code() == 0xc001,
        op.carries_literal() <==> op.code() > 0x8155,
{
}

/// A number outside the ranges that the codes fill is no tag's code.
pub proof fn lemma_free_code(code: u16)
    requires
        !(0x8000 <= code <= 0x807c || 0x807f <= code <= 0x8155 || code == 0x9001 || code == 0xa001
            || code == 0xc001),
    ensures
        !Opcode::is_code(code),
{
    assert forall|op: Opcode| op.code() != code by {
        lemma_code_range(op);
    }
}

/// No two tags share a code.
pub proof fn lemma_code_injective(a: Opcode, b: Opcode)
    requires
        a.code() == b.code(),
    ensures
        a == b,
{
}

/// Decoding a tag's code gives the tag back, and nothing else decodes to it.
pub proof fn lemma_code_round_trip(op: Opcode, decoded: Option<Opcode>)
    requires
        match decoded {
            Some(d) => d.code() == op.code(),
            None => !Opcode::is_code(op.code()),
        },
    ensures
        decoded == Some(op),
{
    if let Some(d) = decoded {
        lemma_code_injective(d, op);
    }
}

} // verus!
