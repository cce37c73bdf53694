use crate::constants::{MOUSE_GFX_HEIGHT, MOUSE_GFX_WIDTH};
use vstd::prelude::*;

verus! {

/// Whether the cursor at `(x, y)` hovers the element: the far corner of the
/// cursor graphic (its width and height past the pointer) must lie inside
/// the element's box, which is anchored at the element's rendered position
/// and extends by its configured width and height. The horizontal offset of
/// the element's artwork plays no part in the test.
pub open spec fn ui_hit(u: UI, x: int, y: int) -> bool {
    &&& x + MOUSE_GFX_WIDTH >= u.x
    &&& x + MOUSE_GFX_WIDTH <= u.x + u.width
    &&& y + MOUSE_GFX_HEIGHT >= u.y
    &&& y + MOUSE_GFX_HEIGHT <= u.y + u.height
}

/// The element as `free` leaves it: presentation state released if it was
/// held, untouched otherwise.
pub open spec fn ui_freed(u: UI) -> UI {
    if u.initialized {
        UI { initialized: false, hovered: false, x: 0, y: 0, z: 0, ..u }
    } else {
        u
    }
}

/// One interactive element of a menu: a named clickable box with a default
/// and a hover image. `entity` and `entity_hover` are opaque render handles
/// owned by the embedding renderer. Geometry is in half-pixel units.
pub struct UI {
    pub name: String,
    pub img: String,
    pub img_hover: String,
    pub initialized: bool,
    pub hovered: bool,
    pub entity: u64,
    pub entity_hover: u64,
    pub height: i32,
    pub width: i32,
    pub x: i32,
    pub y: i32,
    pub z: i32,
    pub xoffset: i32,
}

impl UI {
    pub fn new(name: String, img: String, img_hover: String, height: i32, width: i32) -> (u: UI)
        ensures
            u == (UI {
                name,
                img,
                img_hover,
                initialized: false,
                hovered: false,
                entity: 0,
                entity_hover: 0,
                height,
                width,
                x: 0,
                y: 0,
                z: 0,
                xoffset: 0,
            }),
    {
        UI {
            name,
            img,
            img_hover,
            initialized: false,
            hovered: false,
            entity: 0,
            entity_hover: 0,
            height,
            width,
            x: 0,
            y: 0,
            z: 0,
            xoffset: 0,
        }
    }

    /// Places the element at a position and clears its hover highlight; the
    /// embedding renderer spawns the artwork from this state.
    pub fn render(&mut self, x: i32, y: i32, z: i32)
        ensures
            *final(self) == (UI { initialized: true, hovered: false, x, y, z, ..*old(self) }),
    {
        if !self.initialized {
            self.initialized = true;
        }
        self.hovered = false;
        self.x = x;
        self.y = y;
        self.z = z;
    }

    /// Places the element with its hover highlight shown. An element without
    /// a hover image ignores the call entirely.
    pub fn render_hover(&mut self, x: i32, y: i32, z: i32)
        ensures
            old(self).img_hover@.len() == 0 ==> *final(self) == *old(self),
            old(self).img_hover@.len() > 0 ==> *final(self) == (UI {
                hovered: true,
                x,
                y,
                z,
                ..*old(self)
            }),
    {
        if self.img_hover.as_str().is_empty() {
            return ;
        }
        self.hovered = true;
        self.x = x;
        self.y = y;
        self.z = z;
    }

    /// Releases the element's presentation state. A never-rendered element is
    /// left untouched.
    pub fn free(&mut self)
        ensures
            *final(self) == ui_freed(*old(self)),
    {
        if !self.initialized {
            return ;
        }
        self.initialized = false;
        self.hovered = false;
        self.x = 0;
        self.y = 0;
        self.z = 0;
    }

    pub fn get_name(&self) -> (r: &str)
        ensures
            r@ == self.name@,
    {
        self.name.as_str()
    }

    pub fn get_x(&self) -> (r: i32)
        ensures
            r == self.x,
    {
        self.x
    }

    pub fn get_y(&self) -> (r: i32)
        ensures
            r == self.y,
    {
        self.y
    }

    pub fn get_z(&self) -> (r: i32)
        ensures
            r == self.z,
    {
        self.z
    }

    pub fn set_xoffset(&mut self, x: i32)
        ensures
            *final(self) == (UI { xoffset: x, ..*old(self) }),
    {
        self.xoffset = x;
    }

    pub fn mouse_is_hovering(&self, x: i32, y: i32) -> (r: bool)
        ensures
            r == ui_hit(*self, x as int, y as int),
    {
        let mx: i64 = x as i64 + MOUSE_GFX_WIDTH as i64;
        let my: i64 = y as i64 + MOUSE_GFX_HEIGHT as i64;
        mx >= self.x as i64 && mx <= self.x as i64 + self.width as i64 && my >= self.y as i64
            && my <= self.y as i64 + self.height as i64
    }
}

} // verus!
