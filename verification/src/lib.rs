//! Resolution of the effective sender of a cross-consensus message, and the
//! canonical description of a location from which an account is derived.

pub mod barrier;
pub mod codec;
pub mod describe;
pub mod junction;
pub mod location;

pub use barrier::{
    resolve_origin, universal_origin, Get, Instruction, NewWithComputedOrigin,
    ProcessMessageError, Properties, ShouldExecute, Weight,
};
pub use describe::{DescribeFamily, DescribeLocation, DescribeTerminus, Layer, NewDescribeFamily};
pub use junction::{BodyId, BodyPart, Junction, NetworkId};
pub use location::{Junctions, Location, MAX_JUNCTIONS};
