use vstd::prelude::*;

verus! {

/// The top-level game mode. Exactly one mode is active at any time.
#[derive(Clone, Copy, Debug, PartialEq, Eq, Structural)]
pub enum Mode {
    Start,
    Credits,
    Conversation,
    Fight,
    LevelChange,
}

/// The one failure the mode controller reports: the requested mode is
/// already the active one. Callers recover locally; it is never fatal.
#[derive(Clone, Copy, Debug, PartialEq, Eq, Structural)]
pub struct AlreadyInMode;

/// Holds the single current mode. The mode graph is complete: a transition
/// is legal exactly when its target differs from the current mode.
pub struct ModeController {
    mode: Mode,
}

impl ModeController {
    /// The mode currently active.
    pub closed spec fn mode(self) -> Mode {
        self.mode
    }

    /// A fresh controller starts in `Start`.
    pub fn new() -> (c: ModeController)
        ensures
            c.mode() == Mode::Start,
    {
        ModeController { mode: Mode::Start }
    }

    /// The current mode.
    pub fn current(&self) -> (m: Mode)
        ensures
            m == self.mode(),
    {
        self.mode
    }

    /// Applies a transition: the mode becomes `target` unless `target` is
    /// already current, in which case nothing changes and `AlreadyInMode`
    /// is reported.
    pub fn set_mode(&mut self, target: Mode) -> (r: Result<(), AlreadyInMode>)
        ensures
            final(self).mode() == (if target == old(self).mode() {
                old(self).mode()
            } else {
                target
            }),
            r is Ok <==> target != old(self).mode(),
    {
        if target == self.mode {
            Err(AlreadyInMode)
        } else {
            self.mode = target;
            Ok(())
        }
    }
}

} // verus!
