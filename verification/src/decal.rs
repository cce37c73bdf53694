use vstd::prelude::*;

verus! {

/// A decal category. Each category names a family of image assets
/// (`rock_1.png`, `rock_2.png`, ...) scattered over the level grid.
#[derive(Clone, Copy, PartialEq, Eq, Structural, Debug)]
pub enum DecalKind {
    Asteroid,
    Bones,
    Cactus,
    DeadVegetation,
    Egg,
    Flower,
    Leaves,
    Mushroom,
    Planet,
    Plant,
    Rock,
}

impl DecalKind {
    /// The file-name prefix of this category inside the decal image folder.
    pub open spec fn name_spec(self) -> Seq<char> {
        match self {
            DecalKind::Asteroid => "asteroid_"@,
            DecalKind::Bones => "bones_"@,
            DecalKind::Cactus => "cactus_"@,
            DecalKind::DeadVegetation => "dead_vegetation_"@,
            DecalKind::Egg => "egg_"@,
            DecalKind::Flower => "flower_"@,
            DecalKind::Leaves => "leaves_"@,
            DecalKind::Mushroom => "mushroom_"@,
            DecalKind::Planet => "planet_"@,
            DecalKind::Plant => "plant_"@,
            DecalKind::Rock => "rock_"@,
        }
    }

    pub fn name(self) -> (r: &'static str)
        ensures
            r@ == self.name_spec(),
    {
        match self {
            DecalKind::Asteroid => "asteroid_",
            DecalKind::Bones => "bones_",
            DecalKind::Cactus => "cactus_",
            DecalKind::DeadVegetation => "dead_vegetation_",
            DecalKind::Egg => "egg_",
            DecalKind::Flower => "flower_",
            DecalKind::Leaves => "leaves_",
            DecalKind::Mushroom => "mushroom_",
            DecalKind::Planet => "planet_",
            DecalKind::Plant => "plant_",
            DecalKind::Rock => "rock_",
        }
    }
}

/// The number of image variants available for a decal category. A category
/// with exactly one variant always uses variant number 1.
pub open spec fn decal_kind_max(k: DecalKind) -> u32 {
    match k {
        DecalKind::Asteroid => 6,
        DecalKind::Bones => 3,
        DecalKind::Cactus => 5,
        DecalKind::DeadVegetation => 1,
        DecalKind::Egg => 1,
        DecalKind::Flower => 2,
        DecalKind::Leaves => 1,
        DecalKind::Mushroom => 5,
        DecalKind::Planet => 14,
        DecalKind::Plant => 14,
        DecalKind::Rock => 4,
    }
}

/// A static non-interactive scatter object placed on one cell of the grid.
/// `entity` is an opaque render handle owned by the embedding renderer.
pub struct Decal {
    pub x: u32,
    pub y: u32,
    pub img: String,
    pub initialized: bool,
    pub entity: u64,
}

impl Decal {
    pub fn new(x: u32, y: u32, img: String) -> (d: Decal)
        ensures
            d.x == x,
            d.y == y,
            d.img == img,
            !d.initialized,
            d.entity == 0,
    {
        Decal { x, y, img, initialized: false, entity: 0 }
    }

    pub fn get_entity(&self) -> (r: u64)
        ensures
            r == self.entity,
    {
        self.entity
    }

    pub fn set_entity(&mut self, entity: u64)
        ensures
            *final(self) == (Decal { entity, ..*old(self) }),
    {
        self.entity = entity;
    }

    pub fn get_initialized(&self) -> (r: bool)
        ensures
            r == self.initialized,
    {
        self.initialized
    }

    pub fn set_image(&mut self, img: String)
        ensures
            *final(self) == (Decal { img, ..*old(self) }),
    {
        self.img = img;
    }

    pub fn set_initialized(&mut self, initialized: bool)
        ensures
            *final(self) == (Decal { initialized, ..*old(self) }),
    {
        self.initialized = initialized;
    }

    pub fn get_x(&self) -> (r: u32)
        ensures
            r == self.x,
    {
        self.x
    }

    pub fn get_y(&self) -> (r: u32)
        ensures
            r == self.y,
    {
        self.y
    }

    pub fn get_decal_type_max(kind: DecalKind) -> (r: u32)
        ensures
            r == decal_kind_max(kind),
            r >= 1,
    {
        match kind {
            DecalKind::Asteroid => 6,
            DecalKind::Bones => 3,
            DecalKind::Cactus => 5,
            DecalKind::DeadVegetation => 1,
            DecalKind::Egg => 1,
            DecalKind::Flower => 2,
            DecalKind::Leaves => 1,
            DecalKind::Mushroom => 5,
            DecalKind::Planet => 14,
            DecalKind::Plant => 14,
            DecalKind::Rock => 4,
        }
    }
}

} // verus!
