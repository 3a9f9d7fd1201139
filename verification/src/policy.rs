//! Activation Policy Setter: on the platform that distinguishes regular
//! applications from accessory (no dock presence, no application menu)
//! ones, the process's presentation policy is switched to accessory exactly
//! once at startup. The platform demands that this happen on its main
//! thread; the caller establishes that before startup runs and treats a
//! violation as a fatal startup-sequencing defect, so the switch itself is
//! total here. On platforms without the distinction the component is absent
//! altogether.

use vstd::prelude::*;

verus! {

/// The process's presentation policy, as the platform distinguishes it.
#[derive(Clone, Copy, PartialEq, Eq, Structural, Debug)]
pub enum ActivationPolicy {
    /// An ordinary application, present in the dock with an application
    /// menu.
    Regular,
    /// A background utility: no dock presence, no application menu.
    Accessory,
    /// An application forbidden any foreground presentation.
    Prohibited,
}

/// Switches the process's presentation to accessory mode.
pub fn set_accessory_policy(p: &mut ActivationPolicy)
    ensures
        *final(p) == ActivationPolicy::Accessory,
{
    *p = ActivationPolicy::Accessory;
}

} // verus!
