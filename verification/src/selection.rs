//! Chat text selection: a right-click over a live selection copies it silently
//! and opens a small Copy menu; the last copied text is kept for that menu.
use vstd::prelude::*;

verus! {

/// What the input hook does to the frame's events.
#[derive(Clone, Copy, PartialEq, Eq, Structural, Debug)]
pub struct InputAction {
    /// Remove the secondary-button events, so no other context menu opens.
    pub swallow_secondary: bool,
    /// Add a copy event, so the selection's text is captured.
    pub push_copy: bool,
}

/// What the output hook does to the frame's output.
#[derive(Clone, Copy, PartialEq, Eq, Structural, Debug)]
pub struct OutputAction {
    /// Remove the copy-text commands, so a silent capture does not reach the
    /// clipboard.
    pub drop_copy: bool,
    /// Show the default cursor in place of the text cursor.
    pub reset_cursor: bool,
}

/// Last-wins cursor and right-click handling for chat labels.
pub struct PointerState {
    /// A right-click over a live selection was swallowed in this frame.
    pub menu: bool,
    /// The copy in flight was added by the input hook, not asked for.
    pub silent: bool,
    /// The text of the last copy.
    pub cached: String,
}

impl PointerState {
    /// No menu, no silent copy, nothing cached.
    pub fn new() -> (r: Self)
        ensures
            !r.menu,
            !r.silent,
            r.cached@ == Seq::<char>::empty(),
    {
        PointerState { menu: false, silent: false, cached: String::new() }
    }

    /// Handles a frame's input: with a live selection and a secondary press,
    /// the secondary events are swallowed, a copy is added unless one is
    /// already there (then silently), and the menu is to open.
    pub fn input_hook(&mut self, selecting: bool, secondary_pressed: bool, has_copy: bool) -> (r: InputAction)
        ensures
            final(self).menu == (selecting && secondary_pressed),
            r.swallow_secondary == (selecting && secondary_pressed),
            r.push_copy == (selecting && secondary_pressed && !has_copy),
            final(self).silent == (old(self).silent || r.push_copy),
            final(self).cached == old(self).cached,
    {
        if selecting && secondary_pressed {
            let push_copy = !has_copy;
            if push_copy {
                self.silent = true;
            }
            self.menu = true;
            InputAction { swallow_secondary: true, push_copy }
        } else {
            self.menu = false;
            InputAction { swallow_secondary: false, push_copy: false }
        }
    }

    /// Whether the Copy menu opens at the end of the pass.
    pub fn show_menu(&self, popup_open: bool) -> (r: bool)
        ensures
            r == (self.menu && !popup_open),
    {
        self.menu && !popup_open
    }

    /// Handles a frame's output, where `copied` is the text of its first copy
    /// command: the text is cached, and dropped from the output when the copy
    /// was silent; the text cursor shows only over a text field being edited.
    pub fn output_hook(&mut self, copied: Option<String>, cursor_is_text: bool, hovering_edit: bool) -> (r: OutputAction)
        ensures
            match copied {
                Some(t) => final(self).cached@ == t@,
                None => final(self).cached@ == old(self).cached@,
            },
            r.drop_copy == (copied is Some && old(self).silent),
            r.reset_cursor == (cursor_is_text && !hovering_edit),
            !final(self).silent,
            final(self).menu == old(self).menu,
    {
        let mut drop_copy = false;
        if let Some(text) = copied {
            self.cached = text;
            drop_copy = self.silent;
        }
        self.silent = false;
        OutputAction { drop_copy, reset_cursor: cursor_is_text && !hovering_edit }
    }

    /// The text the Copy menu puts on the clipboard: the cached text, unless
    /// empty.
    pub fn copy_request(&self) -> (r: Option<String>)
        ensures
            self.cached@.len() == 0 ==> r is None,
            self.cached@.len() > 0 ==> (r matches Some(t) && t@ == self.cached@),
    {
        if self.cached.as_str().unicode_len() == 0 {
            None
        } else {
            Some(self.cached.clone())
        }
    }
}

} // verus!
