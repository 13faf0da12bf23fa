//! The event model: the vocabulary of types that every other component
//! produces or consumes.
//!
//! Coordinates in `MouseEvent` and in the cursor-position variants are
//! zero-based, even though every wire encoding is one-based; the decoder
//! subtracts one uniformly.

use vstd::prelude::*;

verus! {

/// A key press, or a combination of keys.
#[derive(Debug, PartialEq, Eq, Structural, Clone, Copy, Hash)]
pub enum KeyEvent {
    /// Backspace key.
    Backspace,
    /// Enter key.
    Enter,
    /// Left arrow key.
    Left,
    /// Right arrow key.
    Right,
    /// Up arrow key.
    Up,
    /// Down arrow key.
    Down,
    /// Home key.
    Home,
    /// End key.
    End,
    /// Page up key.
    PageUp,
    /// Page down key.
    PageDown,
    /// Tab key.
    Tab,
    /// Shift + Tab key.
    BackTab,
    /// Delete key.
    Delete,
    /// Insert key.
    Insert,
    /// A function key: `F(1)` is F1, and so on up to F12.
    F(u8),
    /// A character key.
    Char(char),
    /// Alt key + character.
    Alt(char),
    /// Ctrl key + character (a lowercase letter or a digit-derived character).
    Ctrl(char),
    /// The NUL byte.
    Null,
    /// Escape key.
    Esc,
    /// Ctrl + up arrow key.
    CtrlUp,
    /// Ctrl + down arrow key.
    CtrlDown,
    /// Ctrl + right arrow key.
    CtrlRight,
    /// Ctrl + left arrow key.
    CtrlLeft,
    /// Shift + up arrow key.
    ShiftUp,
    /// Shift + down arrow key.
    ShiftDown,
    /// Shift + right arrow key.
    ShiftRight,
    /// Shift + left arrow key.
    ShiftLeft,
}

/// A mouse button or wheel direction.
#[derive(Debug, PartialEq, Eq, Structural, Clone, Copy, Hash)]
pub enum MouseButton {
    /// Left mouse button.
    Left,
    /// Right mouse button.
    Right,
    /// Middle mouse button.
    Middle,
    /// Wheel scrolled up.
    WheelUp,
    /// Wheel scrolled down.
    WheelDown,
}

/// A mouse action at a zero-based (column, row) location.
#[derive(Debug, PartialEq, Eq, Structural, Clone, Copy, Hash)]
pub enum MouseEvent {
    /// A mouse button was pressed at (column, row).
    Press(MouseButton, u16, u16),
    /// A mouse button was released at (column, row).
    Release(u16, u16),
    /// The mouse moved to (column, row) while a button was held down.
    Hold(u16, u16),
    /// A mouse event that could not be classified further.
    Unknown,
}

/// An input event, as observed by the consumers of the public stream.
#[derive(Debug, Hash)]
pub enum InputEvent {
    /// A single key or a combination of keys.
    Keyboard(KeyEvent),
    /// A mouse event.
    Mouse(MouseEvent),
    /// An unsupported raw sequence, kept for completeness; the decoder
    /// never produces it.
    Unsupported(Vec<u8>),
    /// A recognized but unclassifiable sequence.
    Unknown,
    /// A cursor position report (column, row), zero-based.  It never reaches
    /// the public consumer-facing stream: the translation between internal
    /// and public events filters it out.
    CursorPosition(u16, u16),
}

/// An event as produced by the decoder and carried through the broadcast
/// channel; it covers the public events and the internal cursor-position
/// report.
#[derive(Debug, Hash)]
pub enum InternalEvent {
    /// An input event.
    Input(InputEvent),
    /// A cursor position report (column, row), zero-based.
    CursorPosition(u16, u16),
}

/// The mathematical shape of an `InputEvent`: the same variants, with the
/// raw-byte payload abstracted to a sequence.
pub ghost enum InputEventView {
    Keyboard(KeyEvent),
    Mouse(MouseEvent),
    Unsupported(Seq<u8>),
    Unknown,
    CursorPosition(u16, u16),
}

/// The mathematical shape of an `InternalEvent`.
pub ghost enum InternalEventView {
    Input(InputEventView),
    CursorPosition(u16, u16),
}

impl DeepView for InputEvent {
    type V = InputEventView;

    open spec fn deep_view(&self) -> InputEventView {
        match self {
            InputEvent::Keyboard(k) => InputEventView::Keyboard(*k),
            InputEvent::Mouse(m) => InputEventView::Mouse(*m),
            InputEvent::Unsupported(v) => InputEventView::Unsupported(v@),
            InputEvent::Unknown => InputEventView::Unknown,
            InputEvent::CursorPosition(x, y) => InputEventView::CursorPosition(*x, *y),
        }
    }
}

impl DeepView for InternalEvent {
    type V = InternalEventView;

    open spec fn deep_view(&self) -> InternalEventView {
        match self {
            InternalEvent::Input(e) => InternalEventView::Input(e.deep_view()),
            InternalEvent::CursorPosition(x, y) => InternalEventView::CursorPosition(*x, *y),
        }
    }
}

/// Compares two byte vectors by contents.
fn bytes_eq(a: &Vec<u8>, b: &Vec<u8>) -> (r: bool)
    ensures
        r <==> a@ == b@,
{
    if a.len() != b.len() {
        return false;
    }
    let mut i: usize = 0;
    while i < a.len()
        invariant
            i <= a.len(),
            a.len() == b.len(),
            forall|j: int| 0 <= j < i ==> a@[j] == b@[j],
        decreases a.len() - i,
    {
        if a[i] != b[i] {
            return false;
        }
        i += 1;
    }
    proof {
        assert(a@ =~= b@);
    }
    true
}

impl PartialEq for InputEvent {
    fn eq(&self, other: &Self) -> (r: bool) {
        match (self, other) {
            (InputEvent::Keyboard(a), InputEvent::Keyboard(b)) => a == b,
            (InputEvent::Mouse(a), InputEvent::Mouse(b)) => a == b,
            (InputEvent::Unsupported(a), InputEvent::Unsupported(b)) => bytes_eq(a, b),
            (InputEvent::Unknown, InputEvent::Unknown) => true,
            (InputEvent::CursorPosition(x1, y1), InputEvent::CursorPosition(x2, y2)) => (
            x1 == x2 && y1 == y2),
            _ => false,
        }
    }
}

impl vstd::std_specs::cmp::PartialEqSpecImpl for InputEvent {
    open spec fn obeys_eq_spec() -> bool {
        true
    }

    open spec fn eq_spec(&self, other: &InputEvent) -> bool {
        self.deep_view() == other.deep_view()
    }
}

impl PartialEq for InternalEvent {
    fn eq(&self, other: &Self) -> (r: bool) {
        match (self, other) {
            (InternalEvent::Input(a), InternalEvent::Input(b)) => a == b,
            (InternalEvent::CursorPosition(x1, y1), InternalEvent::CursorPosition(x2, y2)) => (
            x1 == x2 && y1 == y2),
            _ => false,
        }
    }
}

impl vstd::std_specs::cmp::PartialEqSpecImpl for InternalEvent {
    open spec fn obeys_eq_spec() -> bool {
        true
    }

    open spec fn eq_spec(&self, other: &InternalEvent) -> bool {
        self.deep_view() == other.deep_view()
    }
}

/// Copies a byte vector.
fn clone_bytes(v: &Vec<u8>) -> (r: Vec<u8>)
    ensures
        r@ == v@,
{
    let mut r: Vec<u8> = Vec::new();
    let mut i: usize = 0;
    while i < v.len()
        invariant
            i <= v.len(),
            r@ == v@.subrange(0, i as int),
        decreases v.len() - i,
    {
        r.push(v[i]);
        i += 1;
        proof {
            assert(r@ =~= v@.subrange(0, i as int));
        }
    }
    proof {
        assert(r@ =~= v@);
    }
    r
}

impl Clone for InputEvent {
    fn clone(&self) -> (r: Self)
        ensures
            r.deep_view() == self.deep_view(),
    {
        match self {
            InputEvent::Keyboard(k) => InputEvent::Keyboard(*k),
            InputEvent::Mouse(m) => InputEvent::Mouse(*m),
            InputEvent::Unsupported(v) => InputEvent::Unsupported(clone_bytes(v)),
            InputEvent::Unknown => InputEvent::Unknown,
            InputEvent::CursorPosition(x, y) => InputEvent::CursorPosition(*x, *y),
        }
    }
}

impl Clone for InternalEvent {
    fn clone(&self) -> (r: Self)
        ensures
            r.deep_view() == self.deep_view(),
    {
        match self {
            InternalEvent::Input(e) => InternalEvent::Input(e.clone()),
            InternalEvent::CursorPosition(x, y) => InternalEvent::CursorPosition(*x, *y),
        }
    }
}

/// What an internal event looks like on the public stream: an input event
/// passes through unchanged, a cursor-position report is withheld.
pub open spec fn spec_public_event(e: InternalEventView) -> Option<InputEventView> {
    match e {
        InternalEventView::Input(ev) => Some(ev),
        InternalEventView::CursorPosition(_, _) => None,
    }
}

impl InternalEvent {
    /// Translates an internal event into its public form; a cursor-position
    /// report never reaches the public stream.
    pub fn into_input_event(self) -> (r: Option<InputEvent>)
        ensures
            r.deep_view() == spec_public_event(self.deep_view()),
    {
        match self {
            InternalEvent::Input(e) => Some(e),
            InternalEvent::CursorPosition(_, _) => None,
        }
    }
}

} // verus!
