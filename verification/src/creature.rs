use crate::utils::random;
use vstd::prelude::*;

verus! {

/// A creature category, naming a family of image assets
/// (`bobcat_1.png`, ...) inside the creature image folder.
#[derive(Clone, Copy, PartialEq, Eq, Structural, Debug)]
pub enum CreatureKind {
    Bobcat,
    Pelican,
    Skeleton,
    Slime,
    Wolf,
    AlienCreeper,
    RoboticProbe,
}

impl CreatureKind {
    /// The file-name prefix of this category inside the creature image folder.
    pub open spec fn name_spec(self) -> Seq<char> {
        match self {
            CreatureKind::Bobcat => "bobcat_"@,
            CreatureKind::Pelican => "pelican_"@,
            CreatureKind::Skeleton => "skeleton_"@,
            CreatureKind::Slime => "slime_"@,
            CreatureKind::Wolf => "wolf_"@,
            CreatureKind::AlienCreeper => "alien_creeper_"@,
            CreatureKind::RoboticProbe => "robotic_probe_"@,
        }
    }

    pub fn name(self) -> (r: &'static str)
        ensures
            r@ == self.name_spec(),
    {
        match self {
            CreatureKind::Bobcat => "bobcat_",
            CreatureKind::Pelican => "pelican_",
            CreatureKind::Skeleton => "skeleton_",
            CreatureKind::Slime => "slime_",
            CreatureKind::Wolf => "wolf_",
            CreatureKind::AlienCreeper => "alien_creeper_",
            CreatureKind::RoboticProbe => "robotic_probe_",
        }
    }
}

/// The number of image variants available for a creature category. Every
/// category currently ships a single variant.
pub open spec fn creature_kind_max(k: CreatureKind) -> u32 {
    1
}

/// A coordinate one step down, on the wrapping unsigned number line.
pub open spec fn wrap_dec(c: u32) -> u32 {
    if c == 0 {
        u32::MAX
    } else {
        (c - 1) as u32
    }
}

/// A coordinate one step up, on the wrapping unsigned number line.
pub open spec fn wrap_inc(c: u32) -> u32 {
    if c == u32::MAX {
        0
    } else {
        (c + 1) as u32
    }
}

/// The eight neighbours of a cell, in reading order (three above, the two
/// beside, three below), computed with wrapping arithmetic.
pub open spec fn neighbor_cell(x: u32, y: u32, k: int) -> (u32, u32) {
    if k == 0 {
        (wrap_dec(x), wrap_dec(y))
    } else if k == 1 {
        (x, wrap_dec(y))
    } else if k == 2 {
        (wrap_inc(x), wrap_dec(y))
    } else if k == 3 {
        (wrap_dec(x), y)
    } else if k == 4 {
        (wrap_inc(x), y)
    } else if k == 5 {
        (wrap_dec(x), wrap_inc(y))
    } else if k == 6 {
        (x, wrap_inc(y))
    } else {
        (wrap_inc(x), wrap_inc(y))
    }
}

/// The move a creature at `(x, y)` proposes for neighbour choice `k`: the
/// chosen neighbour, unless one of its coordinates wrapped to the largest
/// unsigned value (a grid-edge underflow), in which case the creature
/// proposes to stay where it is.
pub open spec fn proposed_cell(x: u32, y: u32, k: int) -> (u32, u32) {
    let (nx, ny) = neighbor_cell(x, y, k);
    if nx == u32::MAX || ny == u32::MAX {
        (x, y)
    } else {
        (nx, ny)
    }
}

/// A mobile scatter object: placed like a decal, but proposing a random walk
/// step each turn. `entity` is an opaque render handle owned by the
/// embedding renderer.
pub struct Creature {
    pub x: u32,
    pub y: u32,
    pub img: String,
    pub initialized: bool,
    pub entity: u64,
}

impl Creature {
    pub fn new(x: u32, y: u32, img: String) -> (c: Creature)
        ensures
            c.x == x,
            c.y == y,
            c.img == img,
            !c.initialized,
            c.entity == 0,
    {
        Creature { x, y, img, initialized: false, entity: 0 }
    }

    /// Proposes the creature's next cell: one of its eight neighbours, chosen
    /// uniformly at random, except that a neighbour whose coordinate
    /// underflowed the unsigned grid is rejected in favour of the current
    /// cell. The creature itself is not moved; the caller decides whether the
    /// proposal is accepted.
    pub fn next_turn(&self) -> (r: (u32, u32))
        ensures
            exists|k: int| 0 <= k < 8 && r == #[trigger] proposed_cell(self.x, self.y, k),
    {
        let k = random(0, 8);
        let nx: u32;
        let ny: u32;
        if k == 0 {
            nx = self.x.wrapping_sub(1);
            ny = self.y.wrapping_sub(1);
        } else if k == 1 {
            nx = self.x;
            ny = self.y.wrapping_sub(1);
        } else if k == 2 {
            nx = self.x.wrapping_add(1);
            ny = self.y.wrapping_sub(1);
        } else if k == 3 {
            nx = self.x.wrapping_sub(1);
            ny = self.y;
        } else if k == 4 {
            nx = self.x.wrapping_add(1);
            ny = self.y;
        } else if k == 5 {
            nx = self.x.wrapping_sub(1);
            ny = self.y.wrapping_add(1);
        } else if k == 6 {
            nx = self.x;
            ny = self.y.wrapping_add(1);
        } else {
            nx = self.x.wrapping_add(1);
            ny = self.y.wrapping_add(1);
        }
        let r: (u32, u32) = if nx == u32::MAX || ny == u32::MAX {
            (self.x, self.y)
        } else {
            (nx, ny)
        };
        proof {
            assert((nx, ny) == neighbor_cell(self.x, self.y, k as int));
            assert(r == proposed_cell(self.x, self.y, k as int));
        }
        r
    }

    pub fn get_entity(&self) -> (r: u64)
        ensures
            r == self.entity,
    {
        self.entity
    }

    pub fn set_entity(&mut self, entity: u64)
        ensures
            *final(self) == (Creature { entity, ..*old(self) }),
    {
        self.entity = entity;
    }

    pub fn get_initialized(&self) -> (r: bool)
        ensures
            r == self.initialized,
    {
        self.initialized
    }

    pub fn set_image(&mut self, img: String)
        ensures
            *final(self) == (Creature { img, ..*old(self) }),
    {
        self.img = img;
    }

    pub fn set_initialized(&mut self, initialized: bool)
        ensures
            *final(self) == (Creature { initialized, ..*old(self) }),
    {
        self.initialized = initialized;
    }

    pub fn get_x(&self) -> (r: u32)
        ensures
            r == self.x,
    {
        self.x
    }

    pub fn get_y(&self) -> (r: u32)
        ensures
            r == self.y,
    {
        self.y
    }

    pub fn set_x(&mut self, x: u32)
        ensures
            *final(self) == (Creature { x, ..*old(self) }),
    {
        self.x = x;
    }

    pub fn set_y(&mut self, y: u32)
        ensures
            *final(self) == (Creature { y, ..*old(self) }),
    {
        self.y = y;
    }

    pub fn get_creature_type_max(kind: CreatureKind) -> (r: u32)
        ensures
            r == creature_kind_max(kind),
            r >= 1,
    {
        match kind {
            _ => 1,
        }
    }
}

} // verus!
