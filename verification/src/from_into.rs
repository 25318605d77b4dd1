//! Conversions between the values of this crate and their wire-level
//! counterparts.

use vstd::prelude::*;

verus! {

/// A value that can always be built from its wire-level counterpart `T`.
pub trait FromProto<T>: Sized {
    fn from_proto(p_val: T) -> Self;
}

/// A value that can be built from its wire-level counterpart `T`, unless the
/// counterpart is malformed.
pub trait TryFromProto<T>: Sized {
    type Error;

    fn try_from_proto(p_val: T) -> Result<Self, Self::Error>;
}

/// A value that can be turned into its wire-level counterpart `T`, unless it
/// does not fit.
pub trait TryIntoProto<T>: Sized {
    type Error;

    fn try_into_proto(self) -> Result<T, Self::Error>;
}

} // verus!
