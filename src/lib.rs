//! Point-cloud splat rendering: the pipeline configuration, the per-pixel
//! compositing rules, the per-view decisions and the caches that glue the
//! depth pre-pass, the weighted accumulation pass and the normalize pass.
use vstd::prelude::*;

pub mod cache;
pub mod composite;
pub mod edl;
pub mod loader;
pub mod passes;
pub mod pipeline;
pub mod point_cloud;
pub mod textures;

verus! {

} // verus!
