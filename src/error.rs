use vstd::prelude::*;

use crate::height::Height;

verus! {

/// Errors of heights and of the light-client update rules.
#[derive(Clone, Copy, PartialEq, Eq, Structural, Debug)]
pub enum ClientError {
    /// A height with a zero block counter.
    InvalidHeight,
    /// Height arithmetic would reach a zero block counter.
    InvalidHeightResult,
    /// The client is frozen and accepts no update.
    ClientFrozen,
    /// The header is not above the trusted height.
    NonMonotonicHeight,
    /// The trusted consensus state is older than the trusting period.
    ExpiredTrustedState,
    /// The header is dated too far into the future.
    HeaderTimestampOutsideTrustingPeriod,
    /// The header is not later than the trusted consensus state.
    NonMonotonicTimestamp,
    /// The header's validators are not those the trusted state announced.
    MismatchedValidatorHash,
    /// The header's commit lacks two thirds of its own validators' power.
    InsufficientVotingPower,
    /// Too little of the trusted validators' power signs the header.
    InsufficientTrustedVotingPower,
    /// Two different headers claim one height; the client froze at `height`.
    MisbehaviourDetected { height: Height },
    /// Two headers that do not claim one height, or that agree.
    InvalidMisbehaviour,
    /// The client configuration breaks its invariants.
    InvalidClientState,
    /// The header claims a trusted height that is not stored.
    MissingConsensusState,
}

} // verus!
