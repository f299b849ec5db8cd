//! Bookkeeping of the lights that cast shadows.
use vstd::prelude::*;

verus! {

/// The shadow map's side, in texels.
pub const SHADOW_RES: u32 = 2048;

/// How many lights the shaders hold.
pub const MAX_LIGHTS: usize = 5;

/// Reserves the shadow-map layer of a new light: the layer after the lights counted so
/// far, one past their count; the count grows by one.
pub fn reserve_light_layer(light_count: &mut usize) -> (layer: u32)
    requires
        *old(light_count) < usize::MAX,
    ensures
        *final(light_count) == *old(light_count) + 1,
        layer == (*old(light_count) + 1) as u32,
{
    let layer = (*light_count + 1) as u32;
    *light_count = *light_count + 1;
    layer
}

} // verus!
