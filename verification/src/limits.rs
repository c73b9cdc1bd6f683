//! Resource limits of one deployment.

use vstd::prelude::*;

verus! {

/// Size, in bytes, that a bundled function must stay below.
pub const MAX_FUNCTION_SIZE_MB: usize = 10485760;

/// Size, in bytes, that every single asset must stay below.
pub const MAX_ASSET_SIZE_MB: u64 = 10485760;

/// Number of entries that a public directory must stay below.
pub const MAX_ASSETS_PER_FUNCTION: usize = 100;

/// The three maxima that a deployment is held to. Each is exclusive: a
/// value equal to the maximum is already refused.
#[derive(Clone, Copy, Debug, PartialEq, Eq)]
pub struct Limits {
    pub max_function_size: usize,
    pub max_asset_size: u64,
    pub max_assets: usize,
}

impl Limits {
    /// The limits that the control plane enforces.
    pub fn standard() -> (limits: Limits)
        ensures
            limits.max_function_size == MAX_FUNCTION_SIZE_MB,
            limits.max_asset_size == MAX_ASSET_SIZE_MB,
            limits.max_assets == MAX_ASSETS_PER_FUNCTION,
    {
        Limits {
            max_function_size: MAX_FUNCTION_SIZE_MB,
            max_asset_size: MAX_ASSET_SIZE_MB,
            max_assets: MAX_ASSETS_PER_FUNCTION,
        }
    }
}

} // verus!
