use vstd::prelude::*;

use crate::error::ClientError;
use crate::height::{height_le, height_lt, Height};
use crate::validator::{
    bytes_eq, exceeds_one_third, exceeds_two_thirds, signed_power, total_power, ValidatorSet,
};

verus! {

/// A verified snapshot of the counterparty chain at one height.
#[derive(Clone, Debug)]
pub struct ConsensusState {
    pub timestamp: u64,
    pub root: Vec<u8>,
    pub next_validators_hash: Vec<u8>,
}

/// A consensus state as plain values: timestamp, root, next-validators hash.
pub type ConsensusStateView = (u64, Seq<u8>, Seq<u8>);

impl View for ConsensusState {
    type V = ConsensusStateView;

    open spec fn view(&self) -> ConsensusStateView {
        (self.timestamp, self.root@, self.next_validators_hash@)
    }
}

/// The header of a counterparty block.
#[derive(Clone, Debug)]
pub struct BlockHeader {
    pub height: Height,
    pub time: u64,
    pub validators_hash: Vec<u8>,
    pub next_validators_hash: Vec<u8>,
    pub app_hash: Vec<u8>,
}

/// An untrusted header submitted for an update: the block header, the
/// addresses whose commit signatures checked out, the block's validator set,
/// and the trusted height and next validator set it claims to build on.
#[derive(Clone, Debug)]
pub struct TendermintHeader {
    pub signed_header: BlockHeader,
    pub signers: Vec<u64>,
    pub validator_set: ValidatorSet,
    pub trusted_height: Height,
    pub trusted_next_validator_set: ValidatorSet,
}

impl TendermintHeader {
    pub fn set_trusted_height(&mut self, trusted_height: Height)
        ensures
            final(self).trusted_height == trusted_height,
            final(self).signed_header == old(self).signed_header,
            final(self).signers == old(self).signers,
            final(self).validator_set == old(self).validator_set,
            final(self).trusted_next_validator_set == old(self).trusted_next_validator_set,
    {
        self.trusted_height = trusted_height
    }

    pub fn set_trusted_next_validators_set(&mut self, trusted_next_validator_set: ValidatorSet)
        ensures
            final(self).trusted_next_validator_set == trusted_next_validator_set,
            final(self).signed_header == old(self).signed_header,
            final(self).signers == old(self).signers,
            final(self).validator_set == old(self).validator_set,
            final(self).trusted_height == old(self).trusted_height,
    {
        self.trusted_next_validator_set = trusted_next_validator_set
    }

    pub fn height(&self) -> (r: Height)
        ensures
            r == self.signed_header.height,
    {
        self.signed_header.height
    }

    pub fn timestamp(&self) -> (r: u64)
        ensures
            r == self.signed_header.time,
    {
        self.signed_header.time
    }

    pub fn header(&self) -> (r: &BlockHeader)
        ensures
            *r == self.signed_header,
    {
        &self.signed_header
    }

    /// The consensus state that accepting this header records.
    pub open spec fn consensus_view(&self) -> ConsensusStateView {
        (self.signed_header.time, self.signed_header.app_hash@,
        self.signed_header.next_validators_hash@)
    }

    pub fn consensus_state(&self) -> (r: ConsensusState)
        ensures
            r@ == self.consensus_view(),
    {
        ConsensusState {
            timestamp: self.signed_header.time,
            root: self.signed_header.app_hash.clone(),
            next_validators_hash: self.signed_header.next_validators_hash.clone(),
        }
    }
}

/// Whether a client still accepts updates.
#[derive(Clone, Copy, PartialEq, Eq, Structural, Debug)]
pub enum ClientStatus {
    Active,
    /// Misbehaviour was seen at `height`; only an upgrade revives the client.
    Frozen { height: Height },
}

/// The configuration of a client and the latest height it trusts.
/// Durations and times are in nanoseconds.
#[derive(Clone, Copy, PartialEq, Eq, Structural, Debug)]
pub struct ClientState {
    pub chain_revision: u64,
    pub trusting_period: u64,
    pub unbonding_period: u64,
    pub max_clock_drift: u64,
    pub latest_height: Height,
    pub status: ClientStatus,
}

impl ClientState {
    pub open spec fn wf(&self) -> bool {
        &&& self.latest_height.wf()
        &&& self.chain_revision == self.latest_height.revision_number
        &&& self.trusting_period < self.unbonding_period
        &&& self.max_clock_drift > 0
    }

    /// An active client state; fails unless its invariants hold.
    pub fn new(
        chain_revision: u64,
        trusting_period: u64,
        unbonding_period: u64,
        max_clock_drift: u64,
        latest_height: Height,
    ) -> (r: Result<ClientState, ClientError>)
        ensures
            match r {
                Ok(c) => c.wf() && c == (ClientState {
                    chain_revision,
                    trusting_period,
                    unbonding_period,
                    max_clock_drift,
                    latest_height,
                    status: ClientStatus::Active,
                }),
                Err(e) => e == ClientError::InvalidClientState,
            },
            r is Ok <==> (ClientState {
                chain_revision,
                trusting_period,
                unbonding_period,
                max_clock_drift,
                latest_height,
                status: ClientStatus::Active,
            }).wf(),
    {
        if latest_height.revision_height == 0 || chain_revision != latest_height.revision_number
            || trusting_period >= unbonding_period || max_clock_drift == 0 {
            return Err(ClientError::InvalidClientState);
        }
        Ok(ClientState {
            chain_revision,
            trusting_period,
            unbonding_period,
            max_clock_drift,
            latest_height,
            status: ClientStatus::Active,
        })
    }

    pub fn is_frozen(&self) -> (r: bool)
        ensures
            r == (self.status is Frozen),
    {
        match self.status {
            ClientStatus::Active => false,
            ClientStatus::Frozen { .. } => true,
        }
    }
}

/// Heights in `s` strictly ascend.
pub open spec fn sorted(s: Seq<(Height, ConsensusStateView)>) -> bool {
    forall|i: int, j: int| 0 <= i < j < s.len() ==> height_lt(#[trigger] s[i].0, #[trigger] s[j].0)
}

pub open spec fn has_height(s: Seq<(Height, ConsensusStateView)>, h: Height) -> bool {
    exists|i: int| 0 <= i < s.len() && s[i].0 == h
}

/// The consensus state stored at `h`.
pub open spec fn state_at(s: Seq<(Height, ConsensusStateView)>, h: Height) -> ConsensusStateView {
    s[choose|i: int| 0 <= i < s.len() && s[i].0 == h].1
}

/// A header at the height right after `trusted`.
pub open spec fn is_sequential(trusted: Height, h: Height) -> bool {
    h.revision_number == trusted.revision_number && h.revision_height
        == trusted.revision_height + 1
}

/// Every stored height is valid and lies in the client's revision.
pub open spec fn stored_in_revision(c: ClientState, s: Seq<(Height, ConsensusStateView)>) -> bool {
    forall|i: int|
        0 <= i < s.len() ==> (#[trigger] s[i]).0.wf() && s[i].0.revision_number
            == c.chain_revision
}

/// Whether `h` is trusted on the strength of the stored state at its trusted
/// height: the header is newer, the trusted state has not expired, the header
/// is neither future-dated nor older than the trusted state, it stays in the
/// client's revision, and its validators carry on the trusted ones.
pub open spec fn verify_header(
    c: ClientState,
    s: Seq<(Height, ConsensusStateView)>,
    h: TendermintHeader,
    now: u64,
) -> Result<(), ClientError> {
    let hh = h.signed_header.height;
    if height_le(hh, h.trusted_height) {
        Err(ClientError::NonMonotonicHeight)
    } else if !has_height(s, h.trusted_height) {
        Err(ClientError::MissingConsensusState)
    } else {
        let t = state_at(s, h.trusted_height);
        if t.0 + c.trusting_period <= now {
            Err(ClientError::ExpiredTrustedState)
        } else if h.signed_header.time >= now + c.max_clock_drift {
            Err(ClientError::HeaderTimestampOutsideTrustingPeriod)
        } else if h.signed_header.time <= t.0 {
            Err(ClientError::NonMonotonicTimestamp)
        } else if hh.revision_number != c.chain_revision || hh.revision_height == 0 {
            Err(ClientError::InvalidHeight)
        } else if is_sequential(h.trusted_height, hh) {
            if h.signed_header.validators_hash@ != t.2 {
                Err(ClientError::MismatchedValidatorHash)
            } else {
                Ok(())
            }
        } else if h.trusted_next_validator_set.hash@ != t.2 || h.validator_set.hash@
            != h.signed_header.validators_hash@ {
            Err(ClientError::MismatchedValidatorHash)
        } else if !exceeds_one_third(
            signed_power(h.trusted_next_validator_set.validators@, h.signers@),
            total_power(h.trusted_next_validator_set.validators@),
        ) {
            Err(ClientError::InsufficientTrustedVotingPower)
        } else if !exceeds_two_thirds(
            signed_power(h.validator_set.validators@, h.signers@),
            total_power(h.validator_set.validators@),
        ) {
            Err(ClientError::InsufficientVotingPower)
        } else {
            Ok(())
        }
    }
}

/// The decision on a header, over the client, its stored states, and the time `now`.
pub open spec fn update_outcome(
    c: ClientState,
    s: Seq<(Height, ConsensusStateView)>,
    h: TendermintHeader,
    now: u64,
) -> Result<(), ClientError> {
    let hh = h.signed_header.height;
    if c.status is Frozen {
        Err(ClientError::ClientFrozen)
    } else if has_height(s, hh) {
        if state_at(s, hh) == h.consensus_view() {
            Ok(())
        } else {
            Err(ClientError::MisbehaviourDetected { height: hh })
        }
    } else {
        verify_header(c, s, h, now)
    }
}

/// The decision on evidence of two headers: it freezes the client when both
/// headers claim one height, differ in what they commit, and each is trusted
/// on its own.
pub open spec fn misbehaviour_outcome(
    c: ClientState,
    s: Seq<(Height, ConsensusStateView)>,
    h1: TendermintHeader,
    h2: TendermintHeader,
    now: u64,
) -> Result<(), ClientError> {
    if c.status is Frozen {
        Err(ClientError::ClientFrozen)
    } else if h1.signed_header.height != h2.signed_header.height || h1.consensus_view()
        == h2.consensus_view() {
        Err(ClientError::InvalidMisbehaviour)
    } else if verify_header(c, s, h1, now) is Err {
        verify_header(c, s, h1, now)
    } else {
        verify_header(c, s, h2, now)
    }
}

/// The tracked state of one counterparty chain: its client state and the
/// consensus states verified so far, by ascending height.
#[derive(Clone, Debug)]
pub struct LightClient {
    pub client_state: ClientState,
    pub consensus_states: Vec<(Height, ConsensusState)>,
}

impl LightClient {
    /// The stored consensus states as plain values.
    pub open spec fn states(&self) -> Seq<(Height, ConsensusStateView)> {
        self.consensus_states@.map_values(|e: (Height, ConsensusState)| (e.0, e.1@))
    }

    pub open spec fn wf(&self) -> bool {
        &&& self.client_state.wf()
        &&& sorted(self.states())
        &&& stored_in_revision(self.client_state, self.states())
    }

    /// A client anchored at its latest height by `consensus_state`.
    pub fn new(client_state: ClientState, consensus_state: ConsensusState) -> (r: Result<
        LightClient,
        ClientError,
    >)
        ensures
            match r {
                Ok(c) => c.wf() && c.client_state == client_state && c.states() == seq![
                    (client_state.latest_height, consensus_state@),
                ] && client_state.status is Active,
                Err(e) => e == ClientError::InvalidClientState,
            },
            r is Ok <==> client_state.wf() && client_state.status is Active,
    {
        if client_state.latest_height.revision_height == 0 || client_state.chain_revision
            != client_state.latest_height.revision_number || client_state.trusting_period
            >= client_state.unbonding_period || client_state.max_clock_drift == 0
            || client_state.is_frozen() {
            return Err(ClientError::InvalidClientState);
        }
        let h = client_state.latest_height;
        let ghost cs = consensus_state@;
        let mut v: Vec<(Height, ConsensusState)> = Vec::new();
        v.push((h, consensus_state));
        let c = LightClient { client_state, consensus_states: v };
        assert(c.states() =~= seq![(h, cs)]);
        Ok(c)
    }

    pub fn latest_height(&self) -> (r: Height)
        ensures
            r == self.client_state.latest_height,
    {
        self.client_state.latest_height
    }

    /// The index of the consensus state stored at `h`, if any.
    fn find(&self, h: Height) -> (r: Option<usize>)
        requires
            self.wf(),
        ensures
            r is Some <==> has_height(self.states(), h),
            r matches Some(i) ==> i < self.states().len() && self.states()[i as int].0 == h
                && state_at(self.states(), h) == self.states()[i as int].1,
    {
        let mut i: usize = 0;
        while i < self.consensus_states.len()
            invariant
                i <= self.states().len(),
                self.states().len() == self.consensus_states@.len(),
                forall|j: int| 0 <= j < i ==> self.states()[j].0 != h,
                self.wf(),
            decreases self.consensus_states@.len() - i,
        {
            let e = &self.consensus_states[i];
            assert(self.states()[i as int].0 == self.consensus_states@[i as int].0);
            if e.0 == h {
                proof {
                    let s = self.states();
                    assert(s[i as int].0 == h);
                    let k = choose|k: int| 0 <= k < s.len() && s[k].0 == h;
                    if k < i {
                    } else if k > i {
                        assert(height_lt(s[i as int].0, s[k].0));
                    }
                }
                return Some(i);
            }
            i = i + 1;
        }
        None
    }

    /// The consensus state stored at exactly `h`.
    pub fn consensus_state_at(&self, h: Height) -> (r: Option<&ConsensusState>)
        requires
            self.wf(),
        ensures
            r is Some <==> has_height(self.states(), h),
            r matches Some(cs) ==> cs@ == state_at(self.states(), h),
    {
        match self.find(h) {
            Some(i) => Some(&self.consensus_states[i].1),
            None => None,
        }
    }

    /// The stored entry with the greatest height not above `h`.
    pub fn consensus_state_floor(&self, h: Height) -> (r: Option<(Height, &ConsensusState)>)
        requires
            self.wf(),
        ensures
            r matches Some(e) ==> height_le(e.0, h) && has_height(self.states(), e.0)
                && e.1@ == state_at(self.states(), e.0) && forall|j: int|
                0 <= j < self.states().len() && height_le(#[trigger] self.states()[j].0, h)
                    ==> height_le(self.states()[j].0, e.0),
            r is None ==> forall|j: int|
                0 <= j < self.states().len() ==> height_lt(h, #[trigger] self.states()[j].0),
    {
        let n = self.consensus_states.len();
        let mut i: usize = 0;
        while i < n && !h.is_lt(&self.consensus_states[i].0)
            invariant
                n == self.states().len(),
                self.states().len() == self.consensus_states@.len(),
                i <= n,
                sorted(self.states()),
                forall|j: int| 0 <= j < i ==> height_le(#[trigger] self.states()[j].0, h),
            decreases n - i,
        {
            i = i + 1;
        }
        if i == 0 {
            proof {
                assert forall|j: int| 0 <= j < self.states().len() implies height_lt(
                    h,
                    #[trigger] self.states()[j].0,
                ) by {
                    if j > 0 {
                        assert(height_lt(self.states()[0].0, self.states()[j].0));
                    }
                }
            }
            return None;
        }
        let k = i - 1;
        let e = &self.consensus_states[k];
        proof {
            let s = self.states();
            assert(s[k as int].0 == e.0);
            assert(has_height(s, e.0));
            let c = choose|c: int| 0 <= c < s.len() && s[c].0 == e.0;
            if c < k {
                assert(height_lt(s[c].0, s[k as int].0));
            } else if c > k {
                assert(height_lt(s[k as int].0, s[c].0));
            }
            assert forall|j: int| 0 <= j < s.len() && height_le(#[trigger] s[j].0, h) implies height_le(
                s[j].0,
                e.0,
            ) by {
                if j > k {
                    if i < n {
                        if j > i {
                            assert(height_lt(s[i as int].0, s[j].0));
                        }
                    }
                } else if j < k {
                    assert(height_lt(s[j].0, s[k as int].0));
                }
            }
        }
        Some((e.0, &e.1))
    }

    /// Records `cs` at `h`, keeping heights in ascending order.
    fn insert_state(&mut self, h: Height, cs: ConsensusState)
        requires
            old(self).wf(),
            !has_height(old(self).states(), h),
            h.wf(),
            h.revision_number == old(self).client_state.chain_revision,
        ensures
            final(self).client_state == old(self).client_state,
            final(self).wf(),
            exists|p: int|
                0 <= p <= old(self).states().len() && final(self).states() == old(
                    self,
                ).states().insert(p, (h, cs@)),
    {
        let n = self.consensus_states.len();
        let mut i: usize = 0;
        while i < n && !h.is_lt(&self.consensus_states[i].0)
            invariant
                n == self.states().len(),
                self.states().len() == self.consensus_states@.len(),
                i <= n,
                !has_height(self.states(), h),
                forall|j: int| 0 <= j < i ==> height_lt(#[trigger] self.states()[j].0, h),
            decreases n - i,
        {
            assert(self.states()[i as int].0 != h);
            i = i + 1;
        }
        let ghost s = self.states();
        let ghost e = (h, cs@);
        proof {
            assert forall|j: int| i <= j < n implies height_lt(h, #[trigger] s[j].0) by {
                if j > i {
                    assert(height_lt(s[i as int].0, s[j].0));
                }
            }
        }
        self.consensus_states.insert(i, (h, cs));
        proof {
            let t = s.insert(i as int, e);
            assert(self.states() =~= t);
            assert forall|a: int| 0 <= a < t.len() implies (#[trigger] t[a]).0.wf()
                && t[a].0.revision_number == self.client_state.chain_revision by {
                if a < i {
                    assert(t[a] == s[a]);
                } else if a > i {
                    assert(t[a] == s[a - 1]);
                }
            }
            assert forall|a: int, b: int| 0 <= a < b < t.len() implies height_lt(
                #[trigger] t[a].0,
                #[trigger] t[b].0,
            ) by {
                if b < i {
                    assert(t[a] == s[a] && t[b] == s[b]);
                } else if b == i {
                    assert(t[a] == s[a]);
                } else if a < i {
                    assert(t[a] == s[a] && t[b] == s[b - 1]);
                } else if a == i {
                    assert(t[b] == s[b - 1]);
                } else {
                    assert(t[a] == s[a - 1] && t[b] == s[b - 1]);
                }
            }
        }
    }

    /// Checks `header` against the stored state at its trusted height.
    pub fn verify_header(&self, header: &TendermintHeader, now: u64) -> (r: Result<(), ClientError>)
        requires
            self.wf(),
        ensures
            r == verify_header(self.client_state, self.states(), *header, now),
    {
        let hh = header.signed_header.height;
        if !header.trusted_height.is_lt(&hh) {
            return Err(ClientError::NonMonotonicHeight);
        }
        let ti = match self.find(header.trusted_height) {
            Some(ti) => ti,
            None => {
                return Err(ClientError::MissingConsensusState);
            },
        };
        let trusted = &self.consensus_states[ti].1;
        let t_time = trusted.timestamp;
        if t_time as u128 + self.client_state.trusting_period as u128 <= now as u128 {
            return Err(ClientError::ExpiredTrustedState);
        }
        if header.signed_header.time as u128 >= now as u128
            + self.client_state.max_clock_drift as u128 {
            return Err(ClientError::HeaderTimestampOutsideTrustingPeriod);
        }
        if header.signed_header.time <= t_time {
            return Err(ClientError::NonMonotonicTimestamp);
        }
        if hh.revision_number != self.client_state.chain_revision || hh.revision_height == 0 {
            return Err(ClientError::InvalidHeight);
        }
        let th = header.trusted_height;
        if hh.revision_number == th.revision_number && th.revision_height < u64::MAX
            && hh.revision_height == th.revision_height + 1 {
            if !bytes_eq(&header.signed_header.validators_hash, &trusted.next_validators_hash) {
                return Err(ClientError::MismatchedValidatorHash);
            }
        } else {
            if !bytes_eq(&header.trusted_next_validator_set.hash, &trusted.next_validators_hash)
                || !bytes_eq(&header.validator_set.hash, &header.signed_header.validators_hash) {
                return Err(ClientError::MismatchedValidatorHash);
            }
            if !header.trusted_next_validator_set.signed_by_more_than_one_third(&header.signers) {
                return Err(ClientError::InsufficientTrustedVotingPower);
            }
            if !header.validator_set.signed_by_more_than_two_thirds(&header.signers) {
                return Err(ClientError::InsufficientVotingPower);
            }
        }
        Ok(())
    }

    /// Takes evidence of two conflicting headers: on `Ok` the client is frozen
    /// at their height; on any error nothing changes.
    pub fn submit_misbehaviour(
        &mut self,
        h1: &TendermintHeader,
        h2: &TendermintHeader,
        now: u64,
    ) -> (r: Result<(), ClientError>)
        requires
            old(self).wf(),
        ensures
            final(self).wf(),
            r == misbehaviour_outcome(old(self).client_state, old(self).states(), *h1, *h2, now),
            r is Ok ==> final(self).client_state == (ClientState {
                status: ClientStatus::Frozen { height: h1.signed_header.height },
                ..old(self).client_state
            }) && final(self).consensus_states == old(self).consensus_states,
            r is Err ==> *final(self) == *old(self),
    {
        if self.client_state.is_frozen() {
            return Err(ClientError::ClientFrozen);
        }
        let hh = h1.signed_header.height;
        if hh != h2.signed_header.height {
            return Err(ClientError::InvalidMisbehaviour);
        }
        if h1.signed_header.time == h2.signed_header.time && bytes_eq(
            &h1.signed_header.app_hash,
            &h2.signed_header.app_hash,
        ) && bytes_eq(&h1.signed_header.next_validators_hash, &h2.signed_header.next_validators_hash) {
            return Err(ClientError::InvalidMisbehaviour);
        }
        match self.verify_header(h1, now) {
            Ok(()) => {},
            Err(e) => {
                return Err(e);
            },
        }
        match self.verify_header(h2, now) {
            Ok(()) => {},
            Err(e) => {
                return Err(e);
            },
        }
        self.client_state.status = ClientStatus::Frozen { height: hh };
        Ok(())
    }

    /// Decides on `header` at time `now` and applies the decision: a new
    /// consensus state on acceptance, a frozen client on misbehaviour, and no
    /// change otherwise.
    pub fn update(&mut self, header: &TendermintHeader, now: u64) -> (r: Result<(), ClientError>)
        requires
            old(self).wf(),
        ensures
            final(self).wf(),
            r == update_outcome(old(self).client_state, old(self).states(), *header, now),
            ({
                let hh = header.signed_header.height;
                let c0 = old(self).client_state;
                match r {
                    Ok(()) => if has_height(old(self).states(), hh) {
                        *final(self) == *old(self)
                    } else {
                        &&& final(self).client_state == (ClientState {
                            latest_height: if height_lt(c0.latest_height, hh) {
                                hh
                            } else {
                                c0.latest_height
                            },
                            ..c0
                        })
                        &&& exists|p: int|
                            0 <= p <= old(self).states().len() && final(self).states() == old(
                                self,
                            ).states().insert(p, (hh, header.consensus_view()))
                    },
                    Err(ClientError::MisbehaviourDetected { height }) => {
                        &&& final(self).client_state == (ClientState {
                            status: ClientStatus::Frozen { height },
                            ..c0
                        })
                        &&& final(self).consensus_states == old(self).consensus_states
                    },
                    Err(_) => *final(self) == *old(self),
                }
            }),
    {
        let hh = header.signed_header.height;
        if self.client_state.is_frozen() {
            return Err(ClientError::ClientFrozen);
        }
        let cs = header.consensus_state();
        match self.find(hh) {
            Some(i) => {
                let stored = &self.consensus_states[i].1;
                if stored.timestamp == cs.timestamp && bytes_eq(&stored.root, &cs.root)
                    && bytes_eq(&stored.next_validators_hash, &cs.next_validators_hash) {
                    return Ok(());
                }
                self.client_state.status = ClientStatus::Frozen { height: hh };
                return Err(ClientError::MisbehaviourDetected { height: hh });
            },
            None => {},
        }
        match self.verify_header(header, now) {
            Ok(()) => {},
            Err(e) => {
                return Err(e);
            },
        }
        self.insert_state(hh, cs);
        if self.client_state.latest_height.is_lt(&hh) {
            self.client_state.latest_height = hh;
        }
        Ok(())
    }
}

/// The header at the height right after the trusted one must carry the
/// validators hash that the trusted state announced; any other hash is
/// rejected as a mismatch, whatever signed it.
pub proof fn lemma_sequential_needs_announced_validators(
    c: ClientState,
    s: Seq<(Height, ConsensusStateView)>,
    h: TendermintHeader,
    now: u64,
)
    requires
        stored_in_revision(c, s),
        c.status is Active,
        !has_height(s, h.signed_header.height),
        has_height(s, h.trusted_height),
        is_sequential(h.trusted_height, h.signed_header.height),
        state_at(s, h.trusted_height).0 + c.trusting_period > now,
        h.signed_header.time < now + c.max_clock_drift,
        h.signed_header.time > state_at(s, h.trusted_height).0,
        h.signed_header.validators_hash@ != state_at(s, h.trusted_height).2,
    ensures
        update_outcome(c, s, h, now) == Err::<(), ClientError>(
            ClientError::MismatchedValidatorHash,
        ),
{
    let i = choose|i: int| 0 <= i < s.len() && s[i].0 == h.trusted_height;
    assert(s[i].0.wf() && s[i].0.revision_number == c.chain_revision);
}

/// A new header no later than the trusted consensus state is never accepted,
/// whatever its height, validators and commit; while the trusted state is
/// current and the header is not future-dated, the error names the timestamp.
pub proof fn lemma_stale_header_rejected(
    c: ClientState,
    s: Seq<(Height, ConsensusStateView)>,
    h: TendermintHeader,
    now: u64,
)
    requires
        !has_height(s, h.signed_header.height),
        has_height(s, h.trusted_height),
        h.signed_header.time <= state_at(s, h.trusted_height).0,
    ensures
        update_outcome(c, s, h, now) is Err,
        c.status is Active && height_lt(h.trusted_height, h.signed_header.height) && state_at(
            s,
            h.trusted_height,
        ).0 + c.trusting_period > now && h.signed_header.time < now + c.max_clock_drift
            ==> update_outcome(c, s, h, now) == Err::<(), ClientError>(
            ClientError::NonMonotonicTimestamp,
        ),
{
}

/// Once the trusting period since the trusted consensus state has passed,
/// every new header above the trusted height is rejected as expired,
/// whatever its time, validators and commit.
pub proof fn lemma_expired_trust_rejects(
    c: ClientState,
    s: Seq<(Height, ConsensusStateView)>,
    h: TendermintHeader,
    now: u64,
)
    requires
        c.status is Active,
        !has_height(s, h.signed_header.height),
        height_lt(h.trusted_height, h.signed_header.height),
        has_height(s, h.trusted_height),
        now - state_at(s, h.trusted_height).0 > c.trusting_period,
    ensures
        update_outcome(c, s, h, now) == Err::<(), ClientError>(ClientError::ExpiredTrustedState),
{
}

/// A skipping header in the client's revision, whose validator sets match the
/// trusted state and its own validators hash, is accepted exactly when the
/// trusted next validators that signed it hold more than one third of their
/// set's power and its own signers hold more than two thirds of its validator
/// set's power; short of the first it fails on trusted power, and short of
/// the second only on its own power.
pub proof fn lemma_skipping_thresholds(
    c: ClientState,
    s: Seq<(Height, ConsensusStateView)>,
    h: TendermintHeader,
    now: u64,
)
    requires
        c.status is Active,
        h.signed_header.height.revision_number == c.chain_revision,
        h.signed_header.height.wf(),
        !has_height(s, h.signed_header.height),
        height_lt(h.trusted_height, h.signed_header.height),
        !is_sequential(h.trusted_height, h.signed_header.height),
        has_height(s, h.trusted_height),
        state_at(s, h.trusted_height).0 + c.trusting_period > now,
        h.signed_header.time < now + c.max_clock_drift,
        h.signed_header.time > state_at(s, h.trusted_height).0,
        h.trusted_next_validator_set.hash@ == state_at(s, h.trusted_height).2,
        h.validator_set.hash@ == h.signed_header.validators_hash@,
    ensures
        update_outcome(c, s, h, now) is Ok <==> exceeds_one_third(
            signed_power(h.trusted_next_validator_set.validators@, h.signers@),
            total_power(h.trusted_next_validator_set.validators@),
        ) && exceeds_two_thirds(
            signed_power(h.validator_set.validators@, h.signers@),
            total_power(h.validator_set.validators@),
        ),
        !exceeds_one_third(
            signed_power(h.trusted_next_validator_set.validators@, h.signers@),
            total_power(h.trusted_next_validator_set.validators@),
        ) ==> update_outcome(c, s, h, now) == Err::<(), ClientError>(
            ClientError::InsufficientTrustedVotingPower,
        ),
        exceeds_one_third(
            signed_power(h.trusted_next_validator_set.validators@, h.signers@),
            total_power(h.trusted_next_validator_set.validators@),
        ) && !exceeds_two_thirds(
            signed_power(h.validator_set.validators@, h.signers@),
            total_power(h.validator_set.validators@),
        ) ==> update_outcome(c, s, h, now) == Err::<(), ClientError>(
            ClientError::InsufficientVotingPower,
        ),
{
}

/// A frozen client accepts no header.
pub proof fn lemma_frozen_is_terminal(
    c: ClientState,
    s: Seq<(Height, ConsensusStateView)>,
    h: TendermintHeader,
    now: u64,
)
    requires
        c.status is Frozen,
    ensures
        update_outcome(c, s, h, now) == Err::<(), ClientError>(ClientError::ClientFrozen),
{
}

} // verus!
