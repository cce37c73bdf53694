use vstd::prelude::*;

verus! {

/// Which interaction layer owns the next input event: free play, the modal
/// menu, or an open dialog.
#[derive(Clone, Copy, PartialEq, Eq, Structural, Debug)]
pub enum Status {
    Playing,
    MenuOpen,
    DialogOpen,
}

/// The status the escape key asks for: with the menu already up it hands the
/// stage to the dialog layer, otherwise it opens the menu.
pub fn escape_status(menu_visible: bool) -> (r: Status)
    ensures
        menu_visible ==> r == Status::DialogOpen,
        !menu_visible ==> r == Status::MenuOpen,
{
    if menu_visible {
        Status::DialogOpen
    } else {
        Status::MenuOpen
    }
}

/// The coordinator's handle on the interaction layer: the current status and
/// a dirty flag that tells the presentation pass a transition happened.
pub struct Gamestate {
    pub status: Status,
    pub changed: bool,
}

impl Gamestate {
    pub fn new() -> (g: Gamestate)
        ensures
            g.status == Status::MenuOpen,
            !g.changed,
    {
        Gamestate { status: Status::MenuOpen, changed: false }
    }

    pub fn get_status(&self) -> (r: Status)
        ensures
            r == self.status,
    {
        self.status
    }

    pub fn set_status(&mut self, status: Status)
        ensures
            *final(self) == (Gamestate { status, changed: true }),
    {
        self.status = status;
        self.changed = true;
    }

    pub fn get_changed(&self) -> (r: bool)
        ensures
            r == self.changed,
    {
        self.changed
    }

    /// Clears the dirty flag once the presentation pass has caught up.
    pub fn acknowledge(&mut self)
        ensures
            *final(self) == (Gamestate { changed: false, ..*old(self) }),
    {
        self.changed = false;
    }
}

} // verus!
