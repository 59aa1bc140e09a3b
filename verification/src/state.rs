//! The two phases of the application around the mesher: waiting for the
//! texture, then running.

use vstd::prelude::*;

verus! {

/// The phase the application is in.
#[derive(Clone, Copy, Debug, PartialEq, Eq, Hash, Structural)]
pub enum AppState {
    /// The texture has been requested and is not known to be loaded.
    Loading,
    /// The texture is loaded; the scene is built and shown.
    Run,
}

impl AppState {
    /// The phase after one poll of the texture's readiness.
    pub open spec fn after_poll(self, loaded: bool) -> AppState {
        if self is Loading && loaded {
            AppState::Run
        } else {
            self
        }
    }

    /// Advances the phase by one poll of the texture's readiness: loading
    /// ends once the texture is reported loaded, and running never ends.
    pub fn poll(self, loaded: bool) -> (next: AppState)
        ensures
            next == self.after_poll(loaded),
    {
        match self {
            AppState::Loading => if loaded {
                AppState::Run
            } else {
                AppState::Loading
            },
            AppState::Run => AppState::Run,
        }
    }
}

} // verus!
