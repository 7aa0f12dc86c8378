//! Backstore device management: classifies block devices by ownership,
//! resolves user-supplied paths to canonical device identities, and builds
//! the invocations of the privileged maintenance tools the pool manager runs.

pub mod cmd;
pub mod device;
pub mod errors;
pub mod ownership;
pub mod udev_helpers;
