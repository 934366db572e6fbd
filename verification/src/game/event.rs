//! Keyboard events and what they do to the view of the world.

use vstd::prelude::*;

verus! {

/// How far one key press moves the camera.
pub const SCROLL_STEP: i32 = 10;

/// The number of levels that a map can have.
pub const ELEVATION_COUNT: usize = 3;

/// How much one key press changes the ambient light.
pub const LIGHT_STEP: u32 = 1000;

/// The brightest ambient light.
pub const MAX_LIGHT: u32 = 0x10000;

/// The keys that the game listens to.
#[derive(Clone, Copy, Debug, PartialEq, Eq, Structural)]
pub enum Key {
    Right,
    Left,
    Up,
    Down,
    A,
    Z,
    LeftBracket,
    RightBracket,
    R,
    P,
    LShift,
    RShift,
    /// Any other key.
    Other,
}

/// An input event.
#[derive(Clone, Copy, Debug, PartialEq, Eq, Structural)]
pub enum Event {
    /// A key went down.
    KeyDown(Key),
    /// A key came up.
    KeyUp(Key),
    /// Anything else.
    Other,
}

/// What keyboard events read and change of the world.
#[derive(Clone, Copy, Debug, PartialEq, Eq)]
pub struct WorldView {
    /// The horizontal origin of the camera.
    pub camera_x: i32,
    /// The vertical origin of the camera.
    pub camera_y: i32,
    /// The level that the player's character stands on.
    pub dude_elevation: usize,
    /// Which levels the map has.
    pub elevations: [bool; 3],
    /// The ambient light.
    pub ambient_light: u32,
}

/// The lowest level above `from` that the map has, or [`ELEVATION_COUNT`]
/// if it has none.
pub open spec fn level_above(levels: Seq<bool>, from: int) -> int
    decreases ELEVATION_COUNT - from,
{
    if from + 1 >= ELEVATION_COUNT {
        ELEVATION_COUNT as int
    } else if levels[from + 1] {
        from + 1
    } else {
        level_above(levels, from + 1)
    }
}

/// The highest level below `from` that the map has; level 0, whether the
/// map has it or not, if it has none; `from` itself for level 0.
pub open spec fn level_below(levels: Seq<bool>, from: int) -> int
    decreases from,
{
    if from <= 0 {
        0
    } else if from - 1 == 0 || levels[from - 1] {
        from - 1
    } else {
        level_below(levels, from - 1)
    }
}

/// The level that the character is on after a step up: the lowest level
/// above that the map has, and the same level if there is none.
pub open spec fn step_up(levels: Seq<bool>, from: int) -> int {
    if level_above(levels, from) < ELEVATION_COUNT {
        level_above(levels, from)
    } else {
        from
    }
}

/// The level that the character is on after a step down: the highest level
/// below that the map has, and the same level if there is none.
pub open spec fn step_down(levels: Seq<bool>, from: int) -> int {
    if levels[level_below(levels, from)] {
        level_below(levels, from)
    } else {
        from
    }
}

/// The ambient light one step dimmer, but not below darkness.
pub open spec fn dimmer(light: u32) -> u32 {
    if light > i32::MAX {
        0
    } else if light >= LIGHT_STEP {
        (light - LIGHT_STEP) as u32
    } else {
        0
    }
}

/// The ambient light one step brighter, but not above [`MAX_LIGHT`].
pub open spec fn brighter(light: u32) -> u32 {
    if light + LIGHT_STEP <= MAX_LIGHT {
        (light + LIGHT_STEP) as u32
    } else {
        MAX_LIGHT
    }
}

/// What `level_above` finds is the lowest level above `from` that the map
/// has.
pub proof fn lemma_level_above(levels: Seq<bool>, from: int)
    requires
        0 <= from < ELEVATION_COUNT,
    ensures
        from < level_above(levels, from) <= ELEVATION_COUNT,
        level_above(levels, from) < ELEVATION_COUNT ==> levels[level_above(levels, from)],
        forall|k: int| from < k < level_above(levels, from) ==> !levels[k],
    decreases ELEVATION_COUNT - from,
{
    if from + 1 < ELEVATION_COUNT && !levels[from + 1] {
        lemma_level_above(levels, from + 1);
    }
}

/// What `level_below` finds is the highest level below `from` that the map
/// has, or level 0.
pub proof fn lemma_level_below(levels: Seq<bool>, from: int)
    requires
        0 < from,
    ensures
        0 <= level_below(levels, from) < from,
        level_below(levels, from) > 0 ==> levels[level_below(levels, from)],
        forall|k: int| level_below(levels, from) < k < from ==> !levels[k],
    decreases from,
{
    if from - 1 > 0 && !levels[from - 1] {
        lemma_level_below(levels, from - 1);
    }
}

impl WorldView {
    /// Whether the view is one of a real map: the character stands on one of
    /// the levels that maps can have.
    pub open spec fn wf(&self) -> bool {
        self.dude_elevation < ELEVATION_COUNT
    }

    /// Moves the character one level up, to the lowest level above that the
    /// map has. Nothing changes if there is none.
    pub fn ascend(&mut self)
        requires
            old(self).wf(),
        ensures
            final(self).wf(),
            final(self).dude_elevation == step_up(
                old(self).elevations@,
                old(self).dude_elevation as int,
            ),
            *final(self) == (WorldView { dude_elevation: final(self).dude_elevation, ..*old(self) }),
    {
        let mut level = self.dude_elevation + 1;
        while level < ELEVATION_COUNT && !self.elevations[level]
            invariant
                self.dude_elevation < level <= ELEVATION_COUNT,
                *self == *old(self),
                level_above(self.elevations@, self.dude_elevation as int) == level_above(
                    self.elevations@,
                    level - 1,
                ),
            decreases ELEVATION_COUNT - level,
        {
            level = level + 1;
        }
        if level < ELEVATION_COUNT && self.elevations[level] {
            self.dude_elevation = level;
        }
    }

    /// Moves the character one level down, to the highest level below that
    /// the map has. Nothing changes if there is none.
    pub fn descend(&mut self)
        requires
            old(self).wf(),
        ensures
            final(self).wf(),
            final(self).dude_elevation == step_down(
                old(self).elevations@,
                old(self).dude_elevation as int,
            ),
            *final(self) == (WorldView { dude_elevation: final(self).dude_elevation, ..*old(self) }),
    {
        let mut level = self.dude_elevation;
        if level > 0 {
            level = level - 1;
            while level > 0 && !self.elevations[level]
                invariant
                    level < self.dude_elevation < ELEVATION_COUNT,
                    *self == *old(self),
                    level_below(self.elevations@, self.dude_elevation as int) == level_below(
                        self.elevations@,
                        level + 1,
                    ),
                decreases level,
            {
                level = level - 1;
            }
        }
        if self.elevations[level] {
            self.dude_elevation = level;
        }
    }

    /// Dims the ambient light by one step, but not below darkness.
    pub fn dim(&mut self)
        ensures
            final(self).ambient_light == dimmer(old(self).ambient_light),
            *final(self) == (WorldView { ambient_light: final(self).ambient_light, ..*old(self) }),
    {
        self.ambient_light = if self.ambient_light > 0x7fff_ffff {
            0
        } else if self.ambient_light >= LIGHT_STEP {
            self.ambient_light - LIGHT_STEP
        } else {
            0
        };
    }

    /// Brightens the ambient light by one step, but not above [`MAX_LIGHT`].
    pub fn brighten(&mut self)
        ensures
            final(self).ambient_light == brighter(old(self).ambient_light),
            *final(self) == (WorldView { ambient_light: final(self).ambient_light, ..*old(self) }),
    {
        self.ambient_light = if self.ambient_light <= MAX_LIGHT - LIGHT_STEP {
            self.ambient_light + LIGHT_STEP
        } else {
            MAX_LIGHT
        };
    }
}

} // verus!
