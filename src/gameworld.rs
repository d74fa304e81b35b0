use vstd::prelude::*;

verus! {

/// Whether a context menu entry was clicked since the menus were last closed.
#[derive(Debug)]
pub struct ClickedState {
    pub clicked: bool,
}

impl ClickedState {
    /// Reports a pending click and forgets it: the menus close once per click.
    pub fn take_click(&mut self) -> (r: bool)
        ensures
            r == old(self).clicked,
            !final(self).clicked,
    {
        let was = self.clicked;
        self.clicked = false;
        was
    }
}

} // verus!
