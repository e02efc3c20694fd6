//! Deciding how a requested window visual effect is applied.
//!
//! Only one platform supports the effect; there the existing effect is
//! always cleared first and the mica backdrop is re-applied on request.
//! The host performs the actual window calls.

use vstd::prelude::*;
use crate::launcher::Platform;

verus! {

/// What the host does to the window for a requested effect.
#[derive(Clone, Copy, Debug, PartialEq, Eq)]
pub enum EffectPlan {
    /// Clear any existing effect, then apply the mica backdrop with the
    /// given theme.
    ApplyMica { dark: bool },
    /// Clear any existing effect and leave the window plain.
    ClearOnly,
    /// The platform supports no window effect; nothing is to be done.
    Unsupported,
}

/// Decides the effect plan: `"mica"` applies the backdrop, anything else
/// only clears, and platforms without support do nothing.
pub fn window_effect_plan(effect: &String, is_dark: bool, platform: Platform) -> (p: EffectPlan)
    ensures
        platform is Other ==> p is Unsupported,
        platform is Windows && effect@ == "mica"@ ==> p == (EffectPlan::ApplyMica { dark: is_dark }),
        platform is Windows && effect@ != "mica"@ ==> p is ClearOnly,
{
    match platform {
        Platform::Other => EffectPlan::Unsupported,
        Platform::Windows => {
            if *effect == String::from_str("mica") {
                EffectPlan::ApplyMica { dark: is_dark }
            } else {
                EffectPlan::ClearOnly
            }
        },
    }
}

} // verus!
