//! The records handed to the undocumented window composition attribute call.
use vstd::prelude::*;

verus! {

/// Composition attribute id of the accent policy.
pub const ACCENT_POLICY_ATTRIBUTE: u32 = 0x13;

/// Accent flag: draw with the gradient color given in the policy.
pub const ACCENT_FLAG_GRADIENT_COLOR: u32 = 2;

/// The gradient color of every accent this library sets: red, green and blue
/// at 0x1F each, alpha 0 (packed as 0xAABBGGRR).
pub const ACCENT_GRADIENT_COLOR: u32 = 0x001F_1F1F;

/// Size in bytes of an accent policy record: four 32-bit fields.
pub const ACCENT_POLICY_SIZE: usize = 16;

/// The accent state that the composition attribute call selects.
#[derive(Clone, Copy, Debug, PartialEq, Eq, Structural)]
pub enum AccentState {
    /// Plain blur behind the window (state code 3).
    EnableBlurBehind,
    /// Acrylic blur behind the window (state code 4).
    EnableAcrylicBlurBehind,
}

impl AccentState {
    pub open spec fn spec_code(self) -> u32 {
        match self {
            AccentState::EnableBlurBehind => 3,
            AccentState::EnableAcrylicBlurBehind => 4,
        }
    }

    /// The state code that the system expects for this accent.
    pub fn code(&self) -> (r: u32)
        ensures
            r == self.spec_code(),
    {
        match self {
            AccentState::EnableBlurBehind => 3,
            AccentState::EnableAcrylicBlurBehind => 4,
        }
    }
}

/// The accent policy record, field for field as the system lays it out.
#[derive(Clone, Copy, Debug, PartialEq, Eq, Structural)]
pub struct AccentPolicy {
    pub accent_state: u32,
    pub accent_flags: u32,
    pub gradient_color: u32,
    pub animation_id: u32,
}

/// The composition attribute record: an attribute id and the accent policy
/// that it points to, with that policy's size in bytes. The caller keeps the
/// policy alive for the one call that the record is handed to.
#[derive(Clone, Copy, Debug, PartialEq, Eq, Structural)]
pub struct CompositionAttribData {
    pub attrib: u32,
    pub policy: AccentPolicy,
    pub size: usize,
}

/// The policy for an accent: its state code, the gradient color flag, the
/// library's gradient color and no animation.
pub open spec fn policy_of(state: AccentState) -> AccentPolicy {
    AccentPolicy {
        accent_state: state.spec_code(),
        accent_flags: ACCENT_FLAG_GRADIENT_COLOR,
        gradient_color: ACCENT_GRADIENT_COLOR,
        animation_id: 0,
    }
}

/// The composition attribute record that sets the policy for an accent.
pub open spec fn attrib_data_of(state: AccentState) -> CompositionAttribData {
    CompositionAttribData {
        attrib: ACCENT_POLICY_ATTRIBUTE,
        policy: policy_of(state),
        size: ACCENT_POLICY_SIZE,
    }
}

/// Builds the accent policy for an accent state.
pub fn accent_policy(state: AccentState) -> (r: AccentPolicy)
    ensures
        r == policy_of(state),
{
    AccentPolicy {
        accent_state: state.code(),
        accent_flags: ACCENT_FLAG_GRADIENT_COLOR,
        gradient_color: ACCENT_GRADIENT_COLOR,
        animation_id: 0,
    }
}

/// Builds the composition attribute record that sets the accent policy.
pub fn composition_attrib_data(state: AccentState) -> (r: CompositionAttribData)
    ensures
        r == attrib_data_of(state),
{
    CompositionAttribData {
        attrib: ACCENT_POLICY_ATTRIBUTE,
        policy: accent_policy(state),
        size: ACCENT_POLICY_SIZE,
    }
}

/// What to hand to the window composition attribute function, given whether
/// that function could be resolved in the system library: the record for the
/// accent when it was, and nothing to call when it was not. Either way this
/// returns normally; a missing function is an expected outcome, not an error.
pub fn set_window_composition_attribute(resolved: bool, accent_state: AccentState) -> (r: Option<
    CompositionAttribData,
>)
    ensures
        resolved ==> r == Some(attrib_data_of(accent_state)),
        !resolved ==> r is None,
{
    if resolved {
        Some(composition_attrib_data(accent_state))
    } else {
        None
    }
}

} // verus!
