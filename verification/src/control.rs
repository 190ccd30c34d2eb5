//! The volume surface: every volume or mute change takes effect either in the
//! software gain of the playback pipeline or on the hardware mirror,
//! whichever is active.

use vstd::prelude::*;
use crate::volume_control::VolumeController;

verus! {

/// Where volume changes take effect.
#[derive(Clone, Copy, Debug, PartialEq, Eq, Structural)]
pub enum VolumeRoute {
    /// Gain applied to the samples.
    Software,
    /// The operating system's output volume.
    Hardware,
}

/// The active route: hardware where it is configured and a mirror exists
/// whose backend is usable, software in every other case.
pub open spec fn route_for(hardware_preferred: bool, mirror: Option<VolumeController>) -> VolumeRoute {
    match mirror {
        Some(controller) => if hardware_preferred && controller.available {
            VolumeRoute::Hardware
        } else {
            VolumeRoute::Software
        },
        None => VolumeRoute::Software,
    }
}

/// The route that is active.
pub fn active_route(hardware_preferred: bool, mirror: &Option<VolumeController>) -> (route: VolumeRoute)
    ensures
        route == route_for(hardware_preferred, *mirror),
{
    match mirror {
        Some(controller) => {
            if hardware_preferred && controller.is_available() {
                VolumeRoute::Hardware
            } else {
                VolumeRoute::Software
            }
        },
        None => VolumeRoute::Software,
    }
}

/// Without a usable hardware mirror every change goes to the software gain,
/// whatever the configuration prefers.
pub proof fn lemma_degrades_to_software(hardware_preferred: bool, mirror: Option<VolumeController>)
    requires
        mirror is None || !mirror.unwrap().available,
    ensures
        route_for(hardware_preferred, mirror) == VolumeRoute::Software,
{
}

} // verus!
