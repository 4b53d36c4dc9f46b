//! Window-level decisions shared by the windowed and DRM backends: when a
//! window closes, and which DRM devices a window tries in turn.

use vstd::prelude::*;

verus! {

/// State of a key or button.
#[derive(Clone, Copy, Debug, PartialEq, Eq, Structural)]
pub enum Action {
    Release,
    Press,
}

/// What a window event is, as far as closing the window is concerned.
#[derive(Clone, Copy, Debug, PartialEq, Eq, Structural)]
pub enum WindowEventKind {
    /// A keyboard key changed state; `escape` tells whether it is the
    /// Escape key.
    Key { escape: bool, action: Action },
    /// The window was asked to close.
    Close,
    /// Any other event.
    Other,
}

/// Releasing Escape and a close request both close the window.
pub open spec fn requests_close(event: WindowEventKind) -> bool {
    match event {
        WindowEventKind::Key { escape, action } => escape && action == Action::Release,
        WindowEventKind::Close => true,
        WindowEventKind::Other => false,
    }
}

/// Among key events only the release of Escape asks to close: pressing any
/// key, or releasing any key but Escape, does not; a close request always
/// does and no other event ever does.
pub proof fn lemma_only_escape_release_or_close_request_closes(event: WindowEventKind)
    ensures
        event matches WindowEventKind::Key { escape, action } ==> (requests_close(event) <==> (escape
            && action == Action::Release)),
        event matches WindowEventKind::Key { escape: false, action: _ } ==> !requests_close(event),
        event matches WindowEventKind::Key { escape: _, action: Action::Press } ==> !requests_close(event),
        event is Close ==> requests_close(event),
        event is Other ==> !requests_close(event),
{
}

/// Whether a window should close.
pub struct CloseState {
    should_close: bool,
}

impl CloseState {
    /// Whether the window should close.
    pub closed spec fn closing(self) -> bool {
        self.should_close
    }

    /// A window that is open.
    pub fn new() -> (state: Self)
        ensures
            !state.closing(),
    {
        CloseState { should_close: false }
    }

    /// Indicates whether the window should be closed.
    pub fn should_close(&self) -> (closing: bool)
        ensures
            closing == self.closing(),
    {
        self.should_close
    }

    /// Closes the window.
    pub fn close(&mut self)
        ensures
            final(self).closing(),
    {
        self.should_close = true;
    }

    /// Takes one event into account: the window closes on an Escape
    /// release or a close request, and once closing it stays closing.
    pub fn handle_event(&mut self, event: WindowEventKind)
        ensures
            final(self).closing() == (old(self).closing() || requests_close(event)),
            event matches WindowEventKind::Key { escape, action } ==> final(self).closing() == (old(
                self,
            ).closing() || (escape && action == Action::Release)),
            event is Close ==> final(self).closing(),
            event is Other ==> final(self).closing() == old(self).closing(),
    {
        let closes = match event {
            WindowEventKind::Key { escape, action } => escape && action == Action::Release,
            WindowEventKind::Close => true,
            WindowEventKind::Other => false,
        };
        if closes {
            self.close();
        }
    }
}

/// The DRM device a window tries at position `index` of its fallback
/// order, or `None` once every candidate has been tried.
pub fn drm_device_candidate(index: usize) -> (path: Option<&'static str>)
    ensures
        index == 0 ==> path == Some("/dev/dri/card0"),
        index == 1 ==> path == Some("/dev/dri/card1"),
        index == 2 ==> path == Some("/dev/dri/card2"),
        index == 3 ==> path == Some("/dev/dri/renderD128"),
        index == 4 ==> path == Some("/dev/dri/renderD129"),
        index >= 5 ==> path is None,
{
    if index == 0 {
        Some("/dev/dri/card0")
    } else if index == 1 {
        Some("/dev/dri/card1")
    } else if index == 2 {
        Some("/dev/dri/card2")
    } else if index == 3 {
        Some("/dev/dri/renderD128")
    } else if index == 4 {
        Some("/dev/dri/renderD129")
    } else {
        None
    }
}

} // verus!
