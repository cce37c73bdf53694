use vstd::prelude::*;

verus! {

/// One cell of the level's terrain grid. The grid position is fixed at
/// creation; only the image (and the presentation bookkeeping) changes later.
/// `entity` is an opaque render handle owned by the embedding renderer; the
/// core stores it and hands it back, never inspecting it.
pub struct Tile {
    pub x: u32,
    pub y: u32,
    pub img: String,
    pub initialized: bool,
    pub entity: u64,
}

impl Tile {
    pub fn new(x: u32, y: u32, img: String) -> (t: Tile)
        ensures
            t.x == x,
            t.y == y,
            t.img == img,
            !t.initialized,
            t.entity == 0,
    {
        Tile { x, y, img, initialized: false, entity: 0 }
    }

    pub fn get_entity(&self) -> (r: u64)
        ensures
            r == self.entity,
    {
        self.entity
    }

    pub fn set_entity(&mut self, entity: u64)
        ensures
            *final(self) == (Tile { entity, ..*old(self) }),
    {
        self.entity = entity;
    }

    pub fn get_initialized(&self) -> (r: bool)
        ensures
            r == self.initialized,
    {
        self.initialized
    }

    pub fn set_image(&mut self, img: String)
        ensures
            *final(self) == (Tile { img, ..*old(self) }),
    {
        self.img = img;
    }

    pub fn set_initialized(&mut self, initialized: bool)
        ensures
            *final(self) == (Tile { initialized, ..*old(self) }),
    {
        self.initialized = initialized;
    }

    pub fn get_x(&self) -> (r: u32)
        ensures
            r == self.x,
    {
        self.x
    }

    pub fn get_y(&self) -> (r: u32)
        ensures
            r == self.y,
    {
        self.y
    }
}

} // verus!
