use crate::constants::{
    DIALOG_CHOICE_HEIGHT, DIALOG_CHOICE_WIDTH, MOUSE_GFX_HEIGHT, MOUSE_GFX_WIDTH,
};
use vstd::prelude::*;
use vstd::string::StrSliceExecFns;

verus! {

/// The palette a text block can use: the dark main dialog text, the muted
/// colour of a dialog choice, and the brighter colour of a hovered choice.
/// The embedding renderer maps each style to concrete colour values.
#[derive(Clone, Copy, PartialEq, Eq, Structural, Debug)]
pub enum TextStyle {
    MainText,
    Choice,
    ChoiceHover,
}

/// The number of newline characters in the string.
pub open spec fn count_newlines(s: Seq<char>) -> nat
    decreases s.len(),
{
    if s.len() == 0 {
        0
    } else {
        count_newlines(s.drop_last()) + if s.last() == '\n' {
            1nat
        } else {
            0nat
        }
    }
}

/// Whether the cursor at `(x, y)` hovers the text block: only hoverable,
/// currently rendered text reacts, and the cursor's far corner, pushed a
/// further 24 pixels to the right, must lie inside the fixed-size band of a
/// dialog choice row anchored at the text's position.
pub open spec fn text_hit(t: Text, x: int, y: int) -> bool {
    &&& t.hoverable
    &&& t.initialized
    &&& x + 48 + MOUSE_GFX_WIDTH >= t.x
    &&& x + 48 + MOUSE_GFX_WIDTH <= t.x + DIALOG_CHOICE_WIDTH
    &&& y + MOUSE_GFX_HEIGHT >= t.y
    &&& y + MOUSE_GFX_HEIGHT <= t.y + DIALOG_CHOICE_HEIGHT
}

/// A block of rendered text. `entity` is an opaque render handle owned by
/// the embedding renderer; geometry is in half-pixel units.
pub struct Text {
    pub initialized: bool,
    pub entity: u64,
    pub size: i32,
    pub color: TextStyle,
    pub content: String,
    pub hoverable: bool,
    pub hovered: bool,
    pub x: i32,
    pub y: i32,
    pub z: i32,
}

impl Text {
    pub fn new(size: i32, color: TextStyle, content: &str, hoverable: bool) -> (t: Text)
        ensures
            t.initialized == false,
            t.entity == 0,
            t.size == size,
            t.color == color,
            t.content@ == content@,
            t.hoverable == hoverable,
            t.hovered == false,
            t.x == 0 && t.y == 0 && t.z == 0,
    {
        Text {
            initialized: false,
            entity: 0,
            size,
            color,
            content: String::from_str(content),
            hoverable,
            hovered: false,
            x: 0,
            y: 0,
            z: 0,
        }
    }

    /// Places the text at a position; the embedding renderer draws the
    /// content from this state.
    pub fn render(&mut self, x: i32, y: i32, z: i32)
        ensures
            *final(self) == (Text { initialized: true, x, y, z, ..*old(self) }),
    {
        self.initialized = true;
        self.x = x;
        self.y = y;
        self.z = z;
    }

    pub fn set_content(&mut self, content: String)
        ensures
            *final(self) == (Text { content, ..*old(self) }),
    {
        self.content = content;
    }

    /// The number of lines the content renders as: newlines plus one,
    /// saturating at the largest representable count.
    pub fn lines(&self) -> (r: u32)
        ensures
            count_newlines(self.content@) < 4294967294 ==> r == count_newlines(self.content@) + 1,
            count_newlines(self.content@) >= 4294967294 ==> r == 4294967295,
    {
        let s = self.content.as_str();
        let n = s.unicode_len();
        let mut count: usize = 0;
        let mut i: usize = 0;
        while i < n
            invariant
                i <= n,
                n == s@.len(),
                count == count_newlines(s@.take(i as int)),
                count <= i,
            decreases n - i,
        {
            let c = s.get_char(i);
            proof {
                assert(s@.take(i + 1).drop_last() =~= s@.take(i as int));
                assert(s@.take(i + 1).last() == s@[i as int]);
            }
            if c == '\n' {
                count += 1;
            }
            i += 1;
        }
        proof {
            assert(s@.take(n as int) =~= s@);
        }
        if count >= 4294967294 {
            4294967295
        } else {
            (count + 1) as u32
        }
    }

    /// Releases the text's presentation state.
    pub fn free(&mut self)
        ensures
            *final(self) == (Text { initialized: false, ..*old(self) }),
    {
        if !self.initialized {
            return ;
        }
        self.initialized = false;
    }

    pub fn get_hover(&self) -> (r: bool)
        ensures
            r == self.hovered,
    {
        self.hovered
    }

    /// Records the hover state and switches the choice colour with it; a
    /// visual update is only worthwhile on a transition, which the caller
    /// detects by comparing with `get_hover` beforehand.
    pub fn set_hover(&mut self, hovered: bool)
        ensures
            *final(self) == (Text {
                hovered,
                color: if hovered {
                    TextStyle::ChoiceHover
                } else {
                    TextStyle::Choice
                },
                ..*old(self)
            }),
    {
        self.hovered = hovered;
        if self.hovered {
            self.color = TextStyle::ChoiceHover;
        } else {
            self.color = TextStyle::Choice;
        }
    }

    pub fn get_x(&self) -> (r: i32)
        ensures
            r == self.x,
    {
        self.x
    }

    pub fn get_y(&self) -> (r: i32)
        ensures
            r == self.y,
    {
        self.y
    }

    pub fn mouse_is_hovering(&self, x: i32, y: i32) -> (r: bool)
        ensures
            r == text_hit(*self, x as int, y as int),
    {
        if !self.hoverable || !self.initialized {
            return false;
        }
        let mx: i64 = x as i64 + 48 + MOUSE_GFX_WIDTH as i64;
        let my: i64 = y as i64 + MOUSE_GFX_HEIGHT as i64;
        mx >= self.x as i64 && mx <= self.x as i64 + DIALOG_CHOICE_WIDTH as i64 && my >= self.y
            as i64 && my <= self.y as i64 + DIALOG_CHOICE_HEIGHT as i64
    }
}

} // verus!
