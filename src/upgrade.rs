use vstd::prelude::*;

use crate::client::{ClientState, ClientStatus, ConsensusState, ConsensusStateView, LightClient};
use crate::height::Height;

verus! {

/// A typed, serialized message: a type URL and the encoded bytes.
#[derive(Clone, Debug, PartialEq, Eq)]
pub struct Any {
    pub type_url: String,
    pub value: Vec<u8>,
}

/// A point in time as seconds and nanoseconds since the Unix epoch.
#[derive(Clone, Copy, PartialEq, Eq, Structural, Debug)]
pub struct LegacyTimestamp {
    pub seconds: i64,
    pub nanos: i32,
}

/// A plan as it travels on the wire, legacy fields included.
#[derive(Clone, Debug, PartialEq, Eq)]
pub struct RawPlan {
    pub name: String,
    pub time: Option<LegacyTimestamp>,
    pub height: i64,
    pub info: String,
    pub upgraded_client_state: Option<Any>,
}

/// An upgrade proposal as it travels on the wire.
#[derive(Clone, Debug, PartialEq, Eq)]
pub struct RawUpgradeProposal {
    pub title: String,
    pub description: String,
    pub plan: Option<RawPlan>,
    pub upgraded_client_state: Option<Any>,
}

/// An upgrade plan: its name, the host height at which it takes effect, and
/// free-form information.
#[derive(Clone, Debug, PartialEq, Eq)]
pub struct Plan {
    pub name: String,
    pub height: u64,
    pub info: String,
}

/// A governance proposal to replace a client's configuration at a planned height.
#[derive(Clone, Debug, PartialEq, Eq)]
pub struct UpgradeProposal {
    pub title: String,
    pub description: String,
    pub plan: Plan,
    pub upgraded_client_state: Any,
}

/// What is wrong with a plan.
#[derive(Clone, Copy, PartialEq, Eq, Structural, Debug)]
pub enum PlanDefect {
    EmptyName,
    TimeSet,
    UpgradedClientStateSet,
    NonPositiveHeight,
}

/// What is wrong with a proposal.
#[derive(Clone, Copy, PartialEq, Eq, Structural, Debug)]
pub enum ProposalDefect {
    EmptyTitle,
    EmptyDescription,
    MissingPlan,
    MissingUpgradedClientState,
}

/// Errors of upgrade proposals and of applying them.
#[derive(Clone, Copy, PartialEq, Eq, Structural, Debug)]
pub enum UpgradeError {
    InvalidUpgradeProposal { reason: ProposalDefect },
    InvalidUpgradePlan { reason: PlanDefect },
    /// The host has not reached the plan's height.
    UpgradeNotDue,
    /// The plan was applied before.
    PlanAlreadyExecuted,
    /// The upgraded client state is not the next revision of the current one.
    InvalidUpgradedClientState,
}

/// The first defect of a wire plan, checked in order.
pub open spec fn plan_defect(raw: RawPlan) -> Option<PlanDefect> {
    if raw.name@.len() == 0 {
        Some(PlanDefect::EmptyName)
    } else if raw.time is Some {
        Some(PlanDefect::TimeSet)
    } else if raw.upgraded_client_state is Some {
        Some(PlanDefect::UpgradedClientStateSet)
    } else if raw.height <= 0 {
        Some(PlanDefect::NonPositiveHeight)
    } else {
        None
    }
}

/// The first error of a wire proposal, checked in order.
pub open spec fn proposal_error(raw: RawUpgradeProposal) -> Option<UpgradeError> {
    if raw.title@.len() == 0 {
        Some(UpgradeError::InvalidUpgradeProposal { reason: ProposalDefect::EmptyTitle })
    } else if raw.description@.len() == 0 {
        Some(UpgradeError::InvalidUpgradeProposal { reason: ProposalDefect::EmptyDescription })
    } else if raw.plan is None {
        Some(UpgradeError::InvalidUpgradeProposal { reason: ProposalDefect::MissingPlan })
    } else if plan_defect(raw.plan->Some_0) is Some {
        Some(UpgradeError::InvalidUpgradePlan { reason: plan_defect(raw.plan->Some_0)->Some_0 })
    } else if raw.upgraded_client_state is None {
        Some(
            UpgradeError::InvalidUpgradeProposal {
                reason: ProposalDefect::MissingUpgradedClientState,
            },
        )
    } else {
        None
    }
}

impl Plan {
    /// A plan that names itself and a height that fits the wire form.
    pub open spec fn wf(&self) -> bool {
        &&& self.name@.len() > 0
        &&& 0 < self.height <= i64::MAX
    }

    pub open spec fn from_raw_spec(raw: RawPlan) -> Plan {
        Plan { name: raw.name, height: raw.height as u64, info: raw.info }
    }

    pub open spec fn to_raw_spec(self) -> RawPlan {
        RawPlan {
            name: self.name,
            time: None,
            height: self.height as i64,
            info: self.info,
            upgraded_client_state: None,
        }
    }

    /// Validates a wire plan.
    pub fn try_from_raw(raw: RawPlan) -> (r: Result<Plan, UpgradeError>)
        ensures
            match plan_defect(raw) {
                Some(d) => r == Err::<Plan, UpgradeError>(
                    UpgradeError::InvalidUpgradePlan { reason: d },
                ),
                None => r == Ok::<Plan, UpgradeError>(Plan::from_raw_spec(raw)) && Plan::from_raw_spec(
                    raw,
                ).wf(),
            },
    {
        if raw.name.as_str().is_empty() {
            return Err(UpgradeError::InvalidUpgradePlan { reason: PlanDefect::EmptyName });
        }
        if raw.time.is_some() {
            return Err(UpgradeError::InvalidUpgradePlan { reason: PlanDefect::TimeSet });
        }
        if raw.upgraded_client_state.is_some() {
            return Err(
                UpgradeError::InvalidUpgradePlan { reason: PlanDefect::UpgradedClientStateSet },
            );
        }
        if raw.height <= 0 {
            return Err(UpgradeError::InvalidUpgradePlan { reason: PlanDefect::NonPositiveHeight });
        }
        Ok(Plan { name: raw.name, height: raw.height as u64, info: raw.info })
    }

    /// The wire form, legacy fields absent.
    pub fn into_raw(self) -> (r: RawPlan)
        requires
            self.height <= i64::MAX,
        ensures
            r == self.to_raw_spec(),
    {
        RawPlan {
            name: self.name,
            time: None,
            height: self.height as i64,
            info: self.info,
            upgraded_client_state: None,
        }
    }
}

impl UpgradeProposal {
    pub open spec fn wf(&self) -> bool {
        &&& self.title@.len() > 0
        &&& self.description@.len() > 0
        &&& self.plan.wf()
    }

    pub open spec fn from_raw_spec(raw: RawUpgradeProposal) -> UpgradeProposal {
        UpgradeProposal {
            title: raw.title,
            description: raw.description,
            plan: Plan::from_raw_spec(raw.plan->Some_0),
            upgraded_client_state: raw.upgraded_client_state->Some_0,
        }
    }

    pub open spec fn to_raw_spec(self) -> RawUpgradeProposal {
        RawUpgradeProposal {
            title: self.title,
            description: self.description,
            plan: Some(self.plan.to_raw_spec()),
            upgraded_client_state: Some(self.upgraded_client_state),
        }
    }

    /// Validates a wire proposal.
    pub fn try_from_raw(raw: RawUpgradeProposal) -> (r: Result<UpgradeProposal, UpgradeError>)
        ensures
            match proposal_error(raw) {
                Some(e) => r == Err::<UpgradeProposal, UpgradeError>(e),
                None => r == Ok::<UpgradeProposal, UpgradeError>(
                    UpgradeProposal::from_raw_spec(raw),
                ) && UpgradeProposal::from_raw_spec(raw).wf(),
            },
    {
        if raw.title.as_str().is_empty() {
            return Err(
                UpgradeError::InvalidUpgradeProposal { reason: ProposalDefect::EmptyTitle },
            );
        }
        if raw.description.as_str().is_empty() {
            return Err(
                UpgradeError::InvalidUpgradeProposal { reason: ProposalDefect::EmptyDescription },
            );
        }
        let plan = match raw.plan {
            Some(p) => match Plan::try_from_raw(p) {
                Ok(p) => p,
                Err(e) => {
                    return Err(e);
                },
            },
            None => {
                return Err(
                    UpgradeError::InvalidUpgradeProposal { reason: ProposalDefect::MissingPlan },
                );
            },
        };
        let upgraded_client_state = match raw.upgraded_client_state {
            Some(a) => a,
            None => {
                return Err(
                    UpgradeError::InvalidUpgradeProposal {
                        reason: ProposalDefect::MissingUpgradedClientState,
                    },
                );
            },
        };
        Ok(
            UpgradeProposal {
                title: raw.title,
                description: raw.description,
                plan,
                upgraded_client_state,
            },
        )
    }

    /// The wire form; the plan's legacy fields are absent.
    pub fn into_raw(self) -> (r: RawUpgradeProposal)
        requires
            self.plan.height <= i64::MAX,
        ensures
            r == self.to_raw_spec(),
    {
        RawUpgradeProposal {
            title: self.title,
            description: self.description,
            plan: Some(self.plan.into_raw()),
            upgraded_client_state: Some(self.upgraded_client_state),
        }
    }
}

/// A well-formed proposal goes to its wire form, with the plan's legacy
/// fields absent, and is read back unchanged.
pub proof fn lemma_proposal_round_trip(p: UpgradeProposal)
    requires
        p.wf(),
    ensures
        p.to_raw_spec().plan->Some_0.time is None,
        p.to_raw_spec().plan->Some_0.upgraded_client_state is None,
        proposal_error(p.to_raw_spec()) is None,
        UpgradeProposal::from_raw_spec(p.to_raw_spec()) == p,
{
}

/// An accepted plan waiting for its height, and whether it has been applied.
#[derive(Clone, Debug)]
pub struct PendingUpgrade {
    pub plan: Plan,
    pub executed: bool,
}

/// The decision on applying a pending upgrade at host height `host_height`:
/// the upgraded client state must be valid and start the next revision at its
/// first height.
pub open spec fn upgrade_outcome(
    pending: PendingUpgrade,
    host_height: u64,
    current: ClientState,
    upgraded: ClientState,
) -> Result<(), UpgradeError> {
    if pending.executed {
        Err(UpgradeError::PlanAlreadyExecuted)
    } else if host_height < pending.plan.height {
        Err(UpgradeError::UpgradeNotDue)
    } else if !upgraded.wf() || upgraded.chain_revision != current.chain_revision + 1
        || upgraded.latest_height.revision_height != 1 {
        Err(UpgradeError::InvalidUpgradedClientState)
    } else {
        Ok(())
    }
}

impl PendingUpgrade {
    pub fn new(plan: Plan) -> (r: PendingUpgrade)
        ensures
            r.plan == plan,
            !r.executed,
    {
        PendingUpgrade { plan, executed: false }
    }
}

impl LightClient {
    /// Applies `pending` once the host reaches its height: `upgraded`, made
    /// active and starting the next revision at its first height, replaces the
    /// client state, and `consensus_state` becomes the only
    /// stored state, at the upgraded latest height.  A frozen client is revived
    /// this way.  On any error nothing changes.
    pub fn apply_upgrade(
        &mut self,
        pending: &mut PendingUpgrade,
        host_height: u64,
        upgraded: ClientState,
        consensus_state: ConsensusState,
    ) -> (r: Result<(), UpgradeError>)
        requires
            old(self).wf(),
        ensures
            final(self).wf(),
            r == upgrade_outcome(*old(pending), host_height, old(self).client_state, upgraded),
            r is Ok ==> {
                &&& final(self).client_state == (ClientState {
                    status: ClientStatus::Active,
                    ..upgraded
                })
                &&& final(self).states() == seq![
                    (upgraded.latest_height, consensus_state@),
                ]
                &&& final(pending).executed
                &&& final(pending).plan == old(pending).plan
            },
            r is Err ==> *final(self) == *old(self) && *final(pending) == *old(pending),
    {
        if pending.executed {
            return Err(UpgradeError::PlanAlreadyExecuted);
        }
        if host_height < pending.plan.height {
            return Err(UpgradeError::UpgradeNotDue);
        }
        if self.client_state.chain_revision == u64::MAX || upgraded.chain_revision
            != self.client_state.chain_revision + 1 || upgraded.latest_height.revision_height == 0
            || upgraded.chain_revision != upgraded.latest_height.revision_number
            || upgraded.latest_height.revision_height != 1
            || upgraded.trusting_period >= upgraded.unbonding_period || upgraded.max_clock_drift
            == 0 {
            return Err(UpgradeError::InvalidUpgradedClientState);
        }
        let h: Height = upgraded.latest_height;
        let ghost cs: ConsensusStateView = consensus_state@;
        let mut v: Vec<(Height, ConsensusState)> = Vec::new();
        v.push((h, consensus_state));
        self.client_state = ClientState { status: ClientStatus::Active, ..upgraded };
        self.consensus_states = v;
        pending.executed = true;
        assert(self.states() =~= seq![(h, cs)]);
        Ok(())
    }
}

} // verus!
