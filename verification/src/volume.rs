//! The two volume actions and a model of the output they act on.

use vstd::prelude::*;

verus! {

/// An action on the local audio output.
#[derive(Clone, Copy, Debug, PartialEq, Eq, Structural)]
pub enum VolumeAction {
    /// Silence the output.
    Mute,
    /// Bring the output back to its audible level.
    Restore,
}

/// What can be observed of the local audio output.
#[derive(Clone, Copy, Debug, PartialEq, Eq, Structural)]
pub enum VolumeState {
    Muted,
    Audible,
}

impl VolumeAction {
    /// The output after this action, whatever it was before.
    pub open spec fn spec_target(self) -> VolumeState {
        match self {
            VolumeAction::Mute => VolumeState::Muted,
            VolumeAction::Restore => VolumeState::Audible,
        }
    }

    /// The state that this action leaves the output in.
    pub fn target(self) -> (state: VolumeState)
        ensures
            state == self.spec_target(),
    {
        match self {
            VolumeAction::Mute => VolumeState::Muted,
            VolumeAction::Restore => VolumeState::Audible,
        }
    }
}

impl VolumeState {
    /// The output after `action` was carried out on it.
    pub open spec fn spec_apply(self, action: VolumeAction) -> VolumeState {
        action.spec_target()
    }

    /// The output after an optional action: unchanged where there is none.
    pub open spec fn spec_apply_opt(self, action: Option<VolumeAction>) -> VolumeState {
        match action {
            Some(a) => self.spec_apply(a),
            None => self,
        }
    }

    /// Carries out `action` on the modelled output.
    pub fn apply(self, action: VolumeAction) -> (state: VolumeState)
        ensures
            state == self.spec_apply(action),
            self == action.spec_target() ==> state == self,
    {
        action.target()
    }
}

} // verus!
