use ibc::client::{
    BlockHeader, ClientState, ClientStatus, ConsensusState, LightClient, TendermintHeader,
};
use ibc::error::ClientError;
use ibc::height::Height;
use ibc::validator::{bytes_eq, Validator, ValidatorSet};

const SEC: u64 = 1_000_000_000;

fn h(n: u64) -> Height {
    Height::new(1, n).unwrap()
}

fn vset(powers: &[(u64, u64)], hash: u8) -> ValidatorSet {
    ValidatorSet {
        validators: powers
            .iter()
            .map(|&(address, voting_power)| Validator { address, voting_power })
            .collect(),
        hash: vec![hash; 4],
    }
}

fn client() -> LightClient {
    let cs = ClientState::new(1, 100 * SEC, 200 * SEC, 10 * SEC, h(10)).unwrap();
    let anchor = ConsensusState { timestamp: 1000 * SEC, root: vec![1], next_validators_hash: vec![7; 4] };
    LightClient::new(cs, anchor).unwrap()
}

fn header(height: u64, time: u64, validators_hash: u8, signers: Vec<u64>) -> TendermintHeader {
    TendermintHeader {
        signed_header: BlockHeader {
            height: h(height),
            time,
            validators_hash: vec![validators_hash; 4],
            next_validators_hash: vec![8; 4],
            app_hash: vec![height as u8],
        },
        signers,
        validator_set: vset(&[(1, 10), (2, 10), (3, 10)], validators_hash),
        trusted_height: h(10),
        trusted_next_validator_set: vset(&[(1, 10), (2, 10), (3, 10)], 7),
    }
}

#[test]
fn sequential_header_with_announced_hash_is_accepted() {
    let mut c = client();
    let hd = header(11, 1010 * SEC, 7, vec![]);
    assert_eq!(c.update(&hd, 1020 * SEC), Ok(()));
    assert_eq!(c.latest_height(), h(11));
    let cs = c.consensus_state_at(h(11)).unwrap();
    assert_eq!(cs.timestamp, 1010 * SEC);
    assert_eq!(cs.root, vec![11]);
    assert_eq!(cs.next_validators_hash, vec![8; 4]);
}

#[test]
fn sequential_header_with_other_hash_is_mismatch() {
    let mut c = client();
    let hd = header(11, 1010 * SEC, 9, vec![1, 2, 3]);
    assert_eq!(c.update(&hd, 1020 * SEC), Err(ClientError::MismatchedValidatorHash));
    assert!(c.consensus_state_at(h(11)).is_none());
    assert_eq!(c.latest_height(), h(10));
}

#[test]
fn header_not_later_than_trusted_is_rejected() {
    let mut c = client();
    let hd = header(11, 1000 * SEC, 7, vec![1, 2, 3]);
    assert_eq!(c.update(&hd, 1020 * SEC), Err(ClientError::NonMonotonicTimestamp));
    let hd = header(15, 999 * SEC, 9, vec![1, 2, 3]);
    assert_eq!(c.update(&hd, 1020 * SEC), Err(ClientError::NonMonotonicTimestamp));
}

#[test]
fn expired_trust_rejects_everything() {
    let mut c = client();
    for hd in [header(11, 1101 * SEC, 7, vec![1, 2, 3]), header(20, 1101 * SEC, 9, vec![])] {
        assert_eq!(c.update(&hd, 1101 * SEC), Err(ClientError::ExpiredTrustedState));
    }
}

#[test]
fn future_dated_header_is_rejected() {
    let mut c = client();
    let hd = header(11, 1030 * SEC, 7, vec![]);
    assert_eq!(
        c.update(&hd, 1020 * SEC),
        Err(ClientError::HeaderTimestampOutsideTrustingPeriod)
    );
}

#[test]
fn old_height_is_non_monotonic() {
    let mut c = client();
    let mut hd = header(9, 1010 * SEC, 7, vec![]);
    hd.set_trusted_height(h(10));
    assert_eq!(c.update(&hd, 1020 * SEC), Err(ClientError::NonMonotonicHeight));
}

#[test]
fn skipping_needs_both_thresholds() {
    // all three validators of both sets sign
    let mut c = client();
    assert_eq!(c.update(&header(15, 1010 * SEC, 9, vec![1, 2, 3]), 1020 * SEC), Ok(()));
    assert_eq!(c.latest_height(), h(15));

    // exactly one third of the trusted set is not enough
    let mut c = client();
    let mut hd = header(15, 1010 * SEC, 9, vec![1, 4, 5, 6]);
    hd.validator_set = vset(&[(1, 10), (4, 10), (5, 10), (6, 10)], 9);
    assert_eq!(c.update(&hd, 1020 * SEC), Err(ClientError::InsufficientTrustedVotingPower));

    // two thirds of its own set exactly is not enough
    let mut c = client();
    let hd = header(15, 1010 * SEC, 9, vec![1, 2]);
    assert_eq!(c.update(&hd, 1020 * SEC), Err(ClientError::InsufficientVotingPower));
    assert!(c.consensus_state_at(h(15)).is_none());
}

#[test]
fn skipping_checks_the_trusted_set_hash() {
    let mut c = client();
    let mut hd = header(15, 1010 * SEC, 9, vec![1, 2, 3]);
    hd.set_trusted_next_validators_set(vset(&[(1, 10), (2, 10), (3, 10)], 6));
    assert_eq!(c.update(&hd, 1020 * SEC), Err(ClientError::MismatchedValidatorHash));
}

#[test]
fn conflicting_header_freezes_the_client() {
    let mut c = client();
    let hd = header(11, 1010 * SEC, 7, vec![]);
    assert_eq!(c.update(&hd, 1020 * SEC), Ok(()));
    assert_eq!(c.update(&hd, 1020 * SEC), Ok(()));
    let mut other = header(11, 1011 * SEC, 7, vec![]);
    other.signed_header.app_hash = vec![99];
    assert_eq!(
        c.update(&other, 1020 * SEC),
        Err(ClientError::MisbehaviourDetected { height: h(11) })
    );
    assert_eq!(c.client_state.status, ClientStatus::Frozen { height: h(11) });
    let next = header(12, 1012 * SEC, 8, vec![]);
    assert_eq!(c.update(&next, 1020 * SEC), Err(ClientError::ClientFrozen));
}

#[test]
fn floor_lookup_finds_nearest_lower_state() {
    let mut c = client();
    assert_eq!(c.update(&header(15, 1010 * SEC, 9, vec![1, 2, 3]), 1020 * SEC), Ok(()));
    let (fh, cs) = c.consensus_state_floor(h(14)).unwrap();
    assert_eq!(fh, h(10));
    assert_eq!(cs.timestamp, 1000 * SEC);
    assert_eq!(c.consensus_state_floor(h(20)).unwrap().0, h(15));
    assert!(c.consensus_state_floor(h(9)).is_none());
}

#[test]
fn client_state_invariants_are_checked() {
    assert_eq!(ClientState::new(1, 200, 200, 1, h(3)), Err(ClientError::InvalidClientState));
    assert_eq!(ClientState::new(1, 100, 200, 0, h(3)), Err(ClientError::InvalidClientState));
    assert_eq!(ClientState::new(2, 100, 200, 1, h(3)), Err(ClientError::InvalidClientState));
    assert!(ClientState::new(1, 100, 200, 1, h(3)).is_ok());
}

#[test]
fn voting_power_sums() {
    let s = vset(&[(1, 10), (2, 20), (3, u64::MAX)], 0);
    assert_eq!(s.total_voting_power(), 30 + u64::MAX as u128);
    assert_eq!(s.signed_voting_power(&vec![2, 9]), 20);
    assert!(bytes_eq(&vec![1, 2], &vec![1, 2]));
    assert!(!bytes_eq(&vec![1, 2], &vec![1, 3]));
}

#[test]
fn header_accessors() {
    let mut hd = header(11, 5, 7, vec![]);
    assert_eq!(hd.header().height, h(11));
    hd.set_trusted_height(h(3));
    assert_eq!(hd.trusted_height, h(3));
}

#[test]
fn two_conflicting_headers_freeze_the_client() {
    let mut c = client();
    let a = header(15, 1010 * SEC, 9, vec![1, 2, 3]);
    let mut b = header(15, 1010 * SEC, 9, vec![1, 2, 3]);
    assert_eq!(c.submit_misbehaviour(&a, &b, 1020 * SEC), Err(ClientError::InvalidMisbehaviour));
    b.signed_header.app_hash = vec![42];
    let mut weak = b.clone();
    weak.signers = vec![1, 2];
    assert_eq!(
        c.submit_misbehaviour(&a, &weak, 1020 * SEC),
        Err(ClientError::InsufficientVotingPower)
    );
    let other_height = header(16, 1010 * SEC, 9, vec![1, 2, 3]);
    assert_eq!(
        c.submit_misbehaviour(&a, &other_height, 1020 * SEC),
        Err(ClientError::InvalidMisbehaviour)
    );
    assert_eq!(c.client_state.status, ClientStatus::Active);
    assert_eq!(c.submit_misbehaviour(&a, &b, 1020 * SEC), Ok(()));
    assert_eq!(c.client_state.status, ClientStatus::Frozen { height: h(15) });
    assert_eq!(c.submit_misbehaviour(&a, &b, 1020 * SEC), Err(ClientError::ClientFrozen));
}

#[test]
fn header_of_another_revision_is_checked_after_time() {
    let mut c = client();
    let mut hd = header(15, 1010 * SEC, 9, vec![1, 2, 3]);
    hd.signed_header.height = Height::new(2, 3).unwrap();
    assert_eq!(c.update(&hd, 1020 * SEC), Err(ClientError::InvalidHeight));
    assert_eq!(c.update(&hd, 1200 * SEC), Err(ClientError::ExpiredTrustedState));
    hd.signed_header.time = 900 * SEC;
    assert_eq!(c.update(&hd, 1020 * SEC), Err(ClientError::NonMonotonicTimestamp));
}
