use vstd::prelude::*;
use vstd::string::StringExecFns;

use crate::reactor::{ActivationPoint, NextCrank, WAIT_SEC};
use crate::types::{Block, BlockHash, Digest, EraId, PublicKey, Timestamp};

verus! {

/// The state the contract runtime executes the next block on.
#[derive(Clone, Copy, Debug, PartialEq, Eq)]
pub struct ExecutionPreState {
    pub next_block_height: u64,
    pub pre_state_root_hash: Digest,
    pub parent_hash: BlockHash,
    pub parent_seed: Digest,
}

/// Who proposed a finalized block.
#[derive(Clone, Copy, Debug, PartialEq, Eq)]
pub enum Proposer {
    /// The system itself, for blocks that no validator proposed.
    System,
    Validator(PublicKey),
}

/// A finalized block with an empty payload and an empty era report, as
/// enqueued after genesis or an upgrade.
#[derive(Clone, Copy, Debug, PartialEq, Eq)]
pub struct FinalizedBlock {
    pub timestamp: Timestamp,
    pub era_id: EraId,
    pub height: u64,
    pub proposer: Proposer,
}

/// What to install and to enqueue once a commit succeeded.
#[derive(Clone, Copy, Debug, PartialEq, Eq)]
pub struct CommitPlan {
    pub pre_state: ExecutionPreState,
    pub finalized_block: FinalizedBlock,
}

/// How a protocol upgrade failed.
#[derive(Clone, Debug, PartialEq, Eq)]
pub enum UpgradeFailure {
    /// The upgrade configuration could not be built; the message says why.
    Config(String),
    /// The contract runtime refused the upgrade; its error, rendered.
    Runtime(String),
}

/// What the control loop does once a genesis or upgrade commit is over.
#[derive(Clone, Debug, PartialEq, Eq)]
pub enum CommitFollowUp {
    /// Install `plan.pre_state` in the contract runtime, enqueue
    /// `plan.finalized_block` for execution, and crank again as told.
    Install { plan: CommitPlan, next_crank: NextCrank },
    /// Shut the node down with this message; no further crank.
    Shutdown(String),
}

/// Decides what follows a commit: a plan is installed and the loop cranks
/// again after `WAIT_SEC`; a failure shuts the node down with its message.
pub fn after_commit(commit: Result<CommitPlan, String>) -> (r: CommitFollowUp)
    ensures
        commit matches Ok(plan) ==> r == (CommitFollowUp::Install {
            plan,
            next_crank: NextCrank::AfterSeconds(WAIT_SEC),
        }),
        commit matches Err(m) ==> r == CommitFollowUp::Shutdown(m),
{
    match commit {
        Ok(plan) => CommitFollowUp::Install { plan, next_crank: NextCrank::AfterSeconds(WAIT_SEC) },
        Err(msg) => CommitFollowUp::Shutdown(msg),
    }
}

/// Turns the contract runtime's answer to `commit_genesis` into the plan for
/// the first block, or the message the node shuts down with.
pub fn commit_genesis(
    activation_point: &ActivationPoint,
    commit_result: Result<Digest, String>,
) -> (r: Result<CommitPlan, String>)
    ensures
        commit_result matches Err(e) ==> (r matches Err(m) && m@ == "failed to commit genesis: "@ + e@),
        commit_result is Ok && activation_point.genesis_timestamp_spec() is None
            ==> (r matches Err(m) && m@ == "must have genesis timestamp"@),
        r matches Ok(plan) ==> {
            &&& commit_result matches Ok(post_state_hash)
            &&& activation_point.genesis_timestamp_spec() matches Some(ts)
            &&& plan.pre_state.next_block_height == 0
            &&& plan.pre_state.pre_state_root_hash == post_state_hash
            &&& plan.pre_state.parent_hash.digest.is_zero()
            &&& plan.pre_state.parent_seed.is_zero()
            &&& plan.finalized_block == (FinalizedBlock { timestamp: ts, era_id: 0, height: 0, proposer: Proposer::System })
        },
        commit_result is Ok && activation_point.genesis_timestamp_spec() is Some ==> r is Ok,
{
    match commit_result {
        Ok(post_state_hash) => {
            let genesis_timestamp = match activation_point.genesis_timestamp() {
                None => {
                    return Err("must have genesis timestamp".to_owned());
                },
                Some(timestamp) => timestamp,
            };
            let next_block_height: u64 = 0;
            Ok(CommitPlan {
                pre_state: ExecutionPreState {
                    next_block_height,
                    pre_state_root_hash: post_state_hash,
                    parent_hash: BlockHash::zero(),
                    parent_seed: Digest::zero(),
                },
                finalized_block: FinalizedBlock {
                    timestamp: genesis_timestamp,
                    era_id: 0,
                    height: next_block_height,
                    proposer: Proposer::System,
                },
            })
        },
        Err(err) => Err("failed to commit genesis: ".to_owned().concat(err.as_str())),
    }
}

/// Turns the outcome of a protocol upgrade that follows the switch block
/// `previous` into the plan for the next block, or the message the node
/// shuts down with.
pub fn commit_upgrade(previous: &Block, upgrade_result: Result<Digest, UpgradeFailure>) -> (r: Result<
    CommitPlan,
    String,
>)
    requires
        upgrade_result is Ok ==> previous.header.height < u64::MAX,
    ensures
        upgrade_result matches Err(UpgradeFailure::Config(m)) ==> (r matches Err(e) && e@ == m@),
        upgrade_result matches Err(UpgradeFailure::Runtime(m)) ==> (r matches Err(e) && e@
            == "failed to upgrade protocol: "@ + m@),
        upgrade_result matches Ok(post_state_hash) ==> r == Ok::<CommitPlan, String>(
            (CommitPlan {
                pre_state: ExecutionPreState {
                    next_block_height: (previous.header.height + 1) as u64,
                    pre_state_root_hash: post_state_hash,
                    parent_hash: previous.hash,
                    parent_seed: previous.header.accumulated_seed,
                },
                finalized_block: FinalizedBlock {
                    timestamp: previous.header.timestamp,
                    era_id: previous.header.next_block_era_id,
                    height: (previous.header.height + 1) as u64,
                    proposer: Proposer::System,
                },
            }),
        ),
{
    match upgrade_result {
        Ok(post_state_hash) => {
            let next_block_height = previous.header.height + 1;
            Ok(CommitPlan {
                pre_state: ExecutionPreState {
                    next_block_height,
                    pre_state_root_hash: post_state_hash,
                    parent_hash: previous.hash,
                    parent_seed: previous.header.accumulated_seed,
                },
                finalized_block: FinalizedBlock {
                    timestamp: previous.header.timestamp,
                    era_id: previous.header.next_block_era_id,
                    height: next_block_height,
                    proposer: Proposer::System,
                },
            })
        },
        Err(UpgradeFailure::Config(msg)) => Err(msg),
        Err(UpgradeFailure::Runtime(err)) => Err("failed to upgrade protocol: ".to_owned().concat(err.as_str())),
    }
}

} // verus!
