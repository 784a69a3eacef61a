use vstd::prelude::*;

use crate::types::{Block, BlockHash, EraId, Timestamp};

verus! {

/// Base cadence of the control loop, in seconds.
pub const WAIT_SEC: u64 = 5;

/// Operational phase of the node.
#[derive(Clone, Copy, Debug, PartialEq, Eq, Structural)]
pub enum ReactorState {
    /// Bringing components up.
    Initialize,
    /// Orienting to the network and catching up with its tip.
    CatchUp,
    /// Staying caught up with the tip.
    KeepUp,
    /// Caught up and an active validator.
    Validate,
}

/// The subsystems brought up during initialization, in their order.
#[derive(Clone, Copy, Debug, PartialEq, Eq, Structural)]
pub enum Component {
    DiagnosticsPort,
    UpgradeWatcher,
    Network,
    EventStreamServer,
    RestServer,
    RpcServer,
}

/// For each subsystem, whether it still has initialization work to run.
#[derive(Clone, Copy, Debug, PartialEq, Eq)]
pub struct ComponentStatus {
    pub diagnostics_port: bool,
    pub upgrade_watcher: bool,
    pub network: bool,
    pub event_stream_server: bool,
    pub rest_server: bool,
    pub rpc_server: bool,
}

/// The first subsystem, in initialization order, that is not yet up.
pub open spec fn first_pending(c: ComponentStatus) -> Option<Component> {
    if c.diagnostics_port {
        Some(Component::DiagnosticsPort)
    } else if c.upgrade_watcher {
        Some(Component::UpgradeWatcher)
    } else if c.network {
        Some(Component::Network)
    } else if c.event_stream_server {
        Some(Component::EventStreamServer)
    } else if c.rest_server {
        Some(Component::RestServer)
    } else if c.rpc_server {
        Some(Component::RpcServer)
    } else {
        None
    }
}

fn first_pending_component(c: ComponentStatus) -> (r: Option<Component>)
    ensures
        r == first_pending(c),
{
    if c.diagnostics_port {
        Some(Component::DiagnosticsPort)
    } else if c.upgrade_watcher {
        Some(Component::UpgradeWatcher)
    } else if c.network {
        Some(Component::Network)
    } else if c.event_stream_server {
        Some(Component::EventStreamServer)
    } else if c.rest_server {
        Some(Component::RestServer)
    } else if c.rpc_server {
        Some(Component::RpcServer)
    } else {
        None
    }
}

/// When the current protocol version takes effect.
#[derive(Clone, Copy, Debug, PartialEq, Eq)]
pub enum ActivationPoint {
    /// At genesis, at this moment.
    Genesis(Timestamp),
    /// At the start of this era.
    EraId(EraId),
}

impl ActivationPoint {
    pub open spec fn genesis_timestamp_spec(&self) -> Option<Timestamp> {
        match *self {
            ActivationPoint::Genesis(ts) => Some(ts),
            ActivationPoint::EraId(_) => None,
        }
    }

    pub fn genesis_timestamp(&self) -> (r: Option<Timestamp>)
        ensures
            r == self.genesis_timestamp_spec(),
    {
        match self {
            ActivationPoint::Genesis(ts) => Some(*ts),
            ActivationPoint::EraId(_) => None,
        }
    }
}

/// Where the accumulator is asked to continue from.
#[derive(Clone, Copy, Debug, PartialEq, Eq)]
pub enum StartingWith {
    Block(Block),
    Hash(BlockHash),
}

impl StartingWith {
    pub open spec fn hash_spec(&self) -> BlockHash {
        match *self {
            StartingWith::Block(b) => b.hash,
            StartingWith::Hash(h) => h,
        }
    }

    pub fn block_hash(&self) -> (r: BlockHash)
        ensures
            r == self.hash_spec(),
    {
        match self {
            StartingWith::Block(b) => b.hash,
            StartingWith::Hash(h) => *h,
        }
    }
}

/// The block accumulator's answer for a starting point.
#[derive(Clone, Copy, Debug, PartialEq, Eq)]
pub enum SyncInstruction {
    /// The known tip is far ahead: leap.
    Leap,
    /// This block is the next one missing.
    BlockSync { block_hash: BlockHash, should_fetch_execution_state: bool },
    /// This block is accumulated and can be executed.
    BlockExec { block: Block },
    /// Nothing known lies ahead.
    CaughtUp,
}

/// What reading the block under the trusted hash gave.
#[derive(Clone, Copy, Debug, PartialEq, Eq)]
pub enum TrustedBlock {
    Found(Block),
    Missing,
    StoreError,
}

/// Why the node shuts down.
#[derive(Clone, Copy, Debug, PartialEq, Eq, Structural)]
pub enum ShutdownReason {
    IdleToleranceExceeded,
    NoTrustedHash,
    BlockStoreError,
    CaughtUpWithoutBlock,
}

impl ShutdownReason {
    pub open spec fn message_spec(&self) -> Seq<char> {
        match *self {
            ShutdownReason::IdleToleranceExceeded => "catch up process exceeds idle tolerances"@,
            ShutdownReason::NoTrustedHash => "post-genesis; cannot proceed without trusted hash provided"@,
            ShutdownReason::BlockStoreError => "fatal block store error when attempting to read block under trusted hash"@,
            ShutdownReason::CaughtUpWithoutBlock => "can't be caught up with no block in the block store"@,
        }
    }

    /// The user-facing explanation.
    pub fn message(&self) -> (r: &'static str)
        ensures
            r@ == self.message_spec(),
    {
        match self {
            ShutdownReason::IdleToleranceExceeded => "catch up process exceeds idle tolerances",
            ShutdownReason::NoTrustedHash => "post-genesis; cannot proceed without trusted hash provided",
            ShutdownReason::BlockStoreError => "fatal block store error when attempting to read block under trusted hash",
            ShutdownReason::CaughtUpWithoutBlock => "can't be caught up with no block in the block store",
        }
    }
}

/// Work the control loop hands to its collaborators.
#[derive(Clone, Copy, Debug, PartialEq, Eq)]
pub enum Effect {
    /// Run the initialization of this subsystem.
    InitializeComponent(Component),
    /// Ask `peer_count` random peers to leap from `trusted_hash`.
    AttemptLeap { trusted_hash: BlockHash, peer_count: u32 },
    /// Have the block synchronizer fetch this block from `peer_count` peers.
    RegisterBlock { block_hash: BlockHash, should_fetch_execution_state: bool, peer_count: u32 },
    /// Commit genesis in the contract runtime; `commit::after_commit` then
    /// says what follows.
    CommitGenesis,
    /// Commit the protocol upgrade that follows this switch block;
    /// `commit::after_commit` then says what follows.
    CommitUpgrade(Block),
    /// Stop the node.
    Shutdown(ShutdownReason),
}

/// When the next crank runs.
#[derive(Clone, Copy, Debug, PartialEq, Eq)]
pub enum NextCrank {
    Immediately,
    AfterSeconds(u64),
    Never,
}

/// What one crank decided.
#[derive(Clone, Copy, Debug, PartialEq, Eq)]
pub struct CrankOutcome {
    pub effect: Option<Effect>,
    pub next_crank: NextCrank,
}

/// One decision of the catch-up evaluator.
#[derive(Clone, Copy, Debug, PartialEq, Eq)]
pub enum CatchUpInstruction {
    /// Run this effect, then check again after `WAIT_SEC`.
    Do(Effect),
    /// Register this block with the synchronizer, then check again at once.
    SyncBlock { block_hash: BlockHash, should_fetch_execution_state: bool },
    /// Check again after this many seconds.
    CheckLater(u64),
    Shutdown(ShutdownReason),
    CaughtUp,
    CommitGenesis,
    CommitUpgrade(Block),
}

/// What the node's collaborators report at the time of a crank.
#[derive(Clone, Copy, Debug, PartialEq, Eq)]
pub struct Observations {
    /// The time now.
    pub now: Timestamp,
    /// When the block synchronizer last made progress, if it is working.
    pub last_progress: Option<Timestamp>,
    /// The highest block in local storage.
    pub highest_block: Option<Block>,
    /// What storage holds under the trusted hash (read only when one is configured).
    pub trusted_block: TrustedBlock,
    /// Which subsystems still have initialization work.
    pub components: ComponentStatus,
    /// Whether consensus reports this node as an active validator.
    pub is_active_validator: bool,
    /// The accumulator's instruction for `MainReactor::sync_starting_point`.
    pub sync_instruction: SyncInstruction,
}

/// `now - then`, or zero when `then` lies ahead.
pub open spec fn elapsed(now: Timestamp, then: Timestamp) -> int {
    if now >= then {
        now - then
    } else {
        0
    }
}

pub open spec fn bumped(attempts: u64) -> u64 {
    if attempts < u64::MAX {
        (attempts + 1) as u64
    } else {
        attempts
    }
}

/// The control loop's own state and configuration.
pub struct MainReactor {
    pub state: ReactorState,
    /// Consecutive catch-up cranks without synchronizer progress.
    pub attempts: u64,
    pub max_attempts: u64,
    /// How long, in milliseconds, the synchronizer may go without progress.
    pub idle_tolerance: u64,
    pub trusted_hash: Option<BlockHash>,
    pub activation_point: ActivationPoint,
    /// Fan-out of leap and block-sync requests.
    pub sync_leap_simultaneous_peer_requests: u32,
}

impl MainReactor {
    pub fn new(
        max_attempts: u64,
        idle_tolerance: u64,
        trusted_hash: Option<BlockHash>,
        activation_point: ActivationPoint,
        sync_leap_simultaneous_peer_requests: u32,
    ) -> (r: MainReactor)
        ensures
            r.state == ReactorState::Initialize,
            r.attempts == 0,
            r.max_attempts == max_attempts,
            r.idle_tolerance == idle_tolerance,
            r.trusted_hash == trusted_hash,
            r.activation_point == activation_point,
            r.sync_leap_simultaneous_peer_requests == sync_leap_simultaneous_peer_requests,
    {
        MainReactor {
            state: ReactorState::Initialize,
            attempts: 0,
            max_attempts,
            idle_tolerance,
            trusted_hash,
            activation_point,
            sync_leap_simultaneous_peer_requests,
        }
    }

    /// The synchronizer made progress within the idle tolerance.
    pub open spec fn progressing(&self, obs: Observations) -> bool {
        obs.last_progress matches Some(ts) && elapsed(obs.now, ts) <= self.idle_tolerance
    }

    /// The synchronizer is working but has been idle past the tolerance.
    pub open spec fn idle(&self, obs: Observations) -> bool {
        obs.last_progress matches Some(ts) && elapsed(obs.now, ts) > self.idle_tolerance
    }

    /// Where catch-up continues from, or the instruction that ends the
    /// crank before the accumulator is consulted.
    pub open spec fn start_spec(&self, obs: Observations) -> Result<StartingWith, CatchUpInstruction> {
        match self.trusted_hash {
            None => match obs.highest_block {
                Some(tip) => Ok(StartingWith::Block(tip)),
                None => match self.activation_point {
                    ActivationPoint::Genesis(ts) if obs.now <= ts => Err(CatchUpInstruction::CommitGenesis),
                    _ => Err(CatchUpInstruction::Shutdown(ShutdownReason::NoTrustedHash)),
                },
            },
            Some(trusted_hash) => match obs.trusted_block {
                TrustedBlock::Found(trusted) => match obs.highest_block {
                    Some(tip) => if trusted.header.height > tip.header.height {
                        Ok(StartingWith::Hash(trusted_hash))
                    } else {
                        Ok(StartingWith::Block(tip))
                    },
                    None => Ok(StartingWith::Hash(trusted_hash)),
                },
                TrustedBlock::Missing => Ok(StartingWith::Hash(trusted_hash)),
                TrustedBlock::StoreError => Err(CatchUpInstruction::Shutdown(ShutdownReason::BlockStoreError)),
            },
        }
    }

    /// What catch-up does with the accumulator's answer for `start`.
    pub open spec fn follow_spec(&self, obs: Observations, start: StartingWith) -> CatchUpInstruction {
        match obs.sync_instruction {
            SyncInstruction::Leap => CatchUpInstruction::Do(
                Effect::AttemptLeap {
                    trusted_hash: start.hash_spec(),
                    peer_count: self.sync_leap_simultaneous_peer_requests,
                },
            ),
            SyncInstruction::BlockSync { block_hash, .. } => CatchUpInstruction::SyncBlock {
                block_hash,
                should_fetch_execution_state: true,
            },
            SyncInstruction::BlockExec { block } => CatchUpInstruction::SyncBlock {
                block_hash: block.hash,
                should_fetch_execution_state: false,
            },
            SyncInstruction::CaughtUp => match obs.highest_block {
                Some(tip) => if tip.header.era_id == tip.header.next_block_era_id {
                    CatchUpInstruction::CommitUpgrade(tip)
                } else {
                    CatchUpInstruction::CaughtUp
                },
                None => CatchUpInstruction::Shutdown(ShutdownReason::CaughtUpWithoutBlock),
            },
        }
    }

    /// The catch-up decision once the idleness guard has let the crank through.
    pub open spec fn decide_spec(&self, obs: Observations) -> CatchUpInstruction {
        match self.start_spec(obs) {
            Ok(start) => self.follow_spec(obs, start),
            Err(stop) => stop,
        }
    }

    /// Where the accumulator is to be asked from in this crank, if at all:
    /// in catch-up, the higher of the trusted block and the local tip; in
    /// keep-up, the local tip. Keep-up without a local tip asks nothing: the
    /// crank goes back to catch-up, which handles a missing tip.
    pub open spec fn query_spec(&self, obs: Observations) -> Option<StartingWith> {
        match self.state {
            ReactorState::CatchUp => match self.start_spec(obs) {
                Ok(start) => Some(start),
                Err(_) => None,
            },
            ReactorState::KeepUp => match obs.highest_block {
                Some(tip) => Some(StartingWith::Hash(tip.hash)),
                None => None,
            },
            _ => None,
        }
    }

    /// The catch-up decision and the idle-attempt count after it. Progress
    /// within the tolerance resets the count and checks again later; each
    /// idle crank counts one attempt and checks again later, and past
    /// `max_attempts` the node shuts down. Only while the synchronizer is not
    /// working is the starting point decided.
    pub open spec fn catch_up_spec(&self, obs: Observations) -> (CatchUpInstruction, u64) {
        if self.progressing(obs) {
            (CatchUpInstruction::CheckLater((2 * WAIT_SEC) as u64), 0)
        } else {
            if self.idle(obs) {
                let attempts = bumped(self.attempts);
                if attempts > self.max_attempts {
                    (CatchUpInstruction::Shutdown(ShutdownReason::IdleToleranceExceeded), attempts)
                } else {
                    (CatchUpInstruction::CheckLater((2 * WAIT_SEC) as u64), attempts)
                }
            } else {
                (self.decide_spec(obs), self.attempts)
            }
        }
    }

    /// How a catch-up decision becomes the crank's outcome.
    pub open spec fn outcome_spec(&self, i: CatchUpInstruction) -> CrankOutcome {
        match i {
            CatchUpInstruction::Do(e) => CrankOutcome { effect: Some(e), next_crank: NextCrank::AfterSeconds(WAIT_SEC) },
            CatchUpInstruction::SyncBlock { block_hash, should_fetch_execution_state } => CrankOutcome {
                effect: Some(
                    Effect::RegisterBlock {
                        block_hash,
                        should_fetch_execution_state,
                        peer_count: self.sync_leap_simultaneous_peer_requests,
                    },
                ),
                next_crank: NextCrank::Immediately,
            },
            CatchUpInstruction::CheckLater(s) => CrankOutcome { effect: None, next_crank: NextCrank::AfterSeconds(s) },
            CatchUpInstruction::Shutdown(reason) => CrankOutcome {
                effect: Some(Effect::Shutdown(reason)),
                next_crank: NextCrank::Never,
            },
            CatchUpInstruction::CaughtUp => CrankOutcome { effect: None, next_crank: NextCrank::Immediately },
            CatchUpInstruction::CommitGenesis => CrankOutcome {
                effect: Some(Effect::CommitGenesis),
                next_crank: NextCrank::Never,
            },
            CatchUpInstruction::CommitUpgrade(b) => CrankOutcome {
                effect: Some(Effect::CommitUpgrade(b)),
                next_crank: NextCrank::Never,
            },
        }
    }

    /// One crank: the next state, the idle-attempt count and the outcome.
    pub open spec fn crank_spec(&self, obs: Observations) -> (ReactorState, u64, CrankOutcome) {
        let again = CrankOutcome { effect: None, next_crank: NextCrank::Immediately };
        match self.state {
            ReactorState::Initialize => match first_pending(obs.components) {
                Some(c) => (
                    ReactorState::Initialize,
                    self.attempts,
                    CrankOutcome { effect: Some(Effect::InitializeComponent(c)), next_crank: NextCrank::Immediately },
                ),
                None => (ReactorState::CatchUp, self.attempts, again),
            },
            ReactorState::CatchUp => {
                let (i, attempts) = self.catch_up_spec(obs);
                let state = if i == CatchUpInstruction::CaughtUp {
                    ReactorState::KeepUp
                } else {
                    ReactorState::CatchUp
                };
                (state, attempts, self.outcome_spec(i))
            },
            ReactorState::KeepUp => if obs.highest_block is None {
                (ReactorState::CatchUp, self.attempts, again)
            } else {
                match obs.sync_instruction {
                SyncInstruction::Leap => (ReactorState::CatchUp, self.attempts, again),
                SyncInstruction::BlockSync { block_hash, should_fetch_execution_state } => (
                    ReactorState::KeepUp,
                    self.attempts,
                    self.outcome_spec(CatchUpInstruction::SyncBlock { block_hash, should_fetch_execution_state }),
                ),
                SyncInstruction::BlockExec { block } => (
                    ReactorState::KeepUp,
                    self.attempts,
                    self.outcome_spec(
                        CatchUpInstruction::SyncBlock { block_hash: block.hash, should_fetch_execution_state: false },
                    ),
                ),
                SyncInstruction::CaughtUp => (
                    if obs.is_active_validator {
                        ReactorState::Validate
                    } else {
                        ReactorState::KeepUp
                    },
                    self.attempts,
                    again,
                ),
                }
            },
            ReactorState::Validate => (
                if obs.is_active_validator {
                    ReactorState::Validate
                } else {
                    ReactorState::KeepUp
                },
                self.attempts,
                again,
            ),
        }
    }

    pub open spec fn config_unchanged(before: MainReactor, after: MainReactor) -> bool {
        &&& after.max_attempts == before.max_attempts
        &&& after.idle_tolerance == before.idle_tolerance
        &&& after.trusted_hash == before.trusted_hash
        &&& after.activation_point == before.activation_point
        &&& after.sync_leap_simultaneous_peer_requests == before.sync_leap_simultaneous_peer_requests
    }

    fn starting_with(&self, obs: &Observations) -> (r: Result<StartingWith, CatchUpInstruction>)
        ensures
            r == self.start_spec(*obs),
    {
        match self.trusted_hash {
            None => match obs.highest_block {
                Some(tip) => Ok(StartingWith::Block(tip)),
                None => {
                    if let ActivationPoint::Genesis(ts) = self.activation_point {
                        if obs.now <= ts {
                            return Err(CatchUpInstruction::CommitGenesis);
                        }
                    }
                    Err(CatchUpInstruction::Shutdown(ShutdownReason::NoTrustedHash))
                },
            },
            Some(trusted_hash) => match obs.trusted_block {
                TrustedBlock::Found(trusted) => match obs.highest_block {
                    Some(tip) => {
                        if trusted.header.height > tip.header.height {
                            Ok(StartingWith::Hash(trusted_hash))
                        } else {
                            Ok(StartingWith::Block(tip))
                        }
                    },
                    None => Ok(StartingWith::Hash(trusted_hash)),
                },
                TrustedBlock::Missing => Ok(StartingWith::Hash(trusted_hash)),
                TrustedBlock::StoreError => Err(CatchUpInstruction::Shutdown(ShutdownReason::BlockStoreError)),
            },
        }
    }

    /// Where the accumulator is to be asked from in this crank; the answer
    /// goes into `Observations::sync_instruction`.
    pub fn sync_starting_point(&self, obs: &Observations) -> (r: Option<StartingWith>)
        ensures
            r == self.query_spec(*obs),
    {
        match self.state {
            ReactorState::CatchUp => match self.starting_with(obs) {
                Ok(start) => Some(start),
                Err(_) => None,
            },
            ReactorState::KeepUp => match obs.highest_block {
                Some(tip) => Some(StartingWith::Hash(tip.hash)),
                None => None,
            },
            _ => None,
        }
    }

    /// One step of the catch-up evaluator.
    pub fn catch_up_instructions(&mut self, obs: &Observations) -> (r: CatchUpInstruction)
        ensures
            Self::config_unchanged(*old(self), *final(self)),
            final(self).state == old(self).state,
            (r, final(self).attempts) == old(self).catch_up_spec(*obs),
    {
        if let Some(timestamp) = obs.last_progress {
            let idle_for = obs.now.saturating_sub(timestamp);
            if idle_for <= self.idle_tolerance {
                self.attempts = 0;
                return CatchUpInstruction::CheckLater(WAIT_SEC * 2);
            }
            if self.attempts < u64::MAX {
                self.attempts = self.attempts + 1;
            }
            if self.attempts > self.max_attempts {
                return CatchUpInstruction::Shutdown(ShutdownReason::IdleToleranceExceeded);
            }
            return CatchUpInstruction::CheckLater(WAIT_SEC * 2);
        }
        let start = match self.starting_with(obs) {
            Ok(start) => start,
            Err(stop) => {
                return stop;
            },
        };
        match obs.sync_instruction {
            SyncInstruction::Leap => CatchUpInstruction::Do(
                Effect::AttemptLeap {
                    trusted_hash: start.block_hash(),
                    peer_count: self.sync_leap_simultaneous_peer_requests,
                },
            ),
            SyncInstruction::BlockSync { block_hash, .. } => CatchUpInstruction::SyncBlock {
                block_hash,
                should_fetch_execution_state: true,
            },
            SyncInstruction::BlockExec { block } => CatchUpInstruction::SyncBlock {
                block_hash: block.hash,
                should_fetch_execution_state: false,
            },
            SyncInstruction::CaughtUp => match obs.highest_block {
                Some(tip) => {
                    if tip.header.era_id == tip.header.next_block_era_id {
                        CatchUpInstruction::CommitUpgrade(tip)
                    } else {
                        CatchUpInstruction::CaughtUp
                    }
                },
                None => CatchUpInstruction::Shutdown(ShutdownReason::CaughtUpWithoutBlock),
            },
        }
    }

    fn outcome_of(&self, i: CatchUpInstruction) -> (r: CrankOutcome)
        ensures
            r == self.outcome_spec(i),
    {
        match i {
            CatchUpInstruction::Do(e) => CrankOutcome { effect: Some(e), next_crank: NextCrank::AfterSeconds(WAIT_SEC) },
            CatchUpInstruction::SyncBlock { block_hash, should_fetch_execution_state } => CrankOutcome {
                effect: Some(
                    Effect::RegisterBlock {
                        block_hash,
                        should_fetch_execution_state,
                        peer_count: self.sync_leap_simultaneous_peer_requests,
                    },
                ),
                next_crank: NextCrank::Immediately,
            },
            CatchUpInstruction::CheckLater(s) => CrankOutcome { effect: None, next_crank: NextCrank::AfterSeconds(s) },
            CatchUpInstruction::Shutdown(reason) => CrankOutcome {
                effect: Some(Effect::Shutdown(reason)),
                next_crank: NextCrank::Never,
            },
            CatchUpInstruction::CaughtUp => CrankOutcome { effect: None, next_crank: NextCrank::Immediately },
            CatchUpInstruction::CommitGenesis => CrankOutcome {
                effect: Some(Effect::CommitGenesis),
                next_crank: NextCrank::Never,
            },
            CatchUpInstruction::CommitUpgrade(b) => CrankOutcome {
                effect: Some(Effect::CommitUpgrade(b)),
                next_crank: NextCrank::Never,
            },
        }
    }

    /// Runs one tick of the control loop: decides, from the current state and
    /// what the collaborators report, the next state, the work to hand out
    /// and when to tick again.
    pub fn crank(&mut self, obs: &Observations) -> (r: CrankOutcome)
        ensures
            Self::config_unchanged(*old(self), *final(self)),
            (final(self).state, final(self).attempts, r) == old(self).crank_spec(*obs),
    {
        let again = CrankOutcome { effect: None, next_crank: NextCrank::Immediately };
        match self.state {
            ReactorState::Initialize => {
                let pending = first_pending_component(obs.components);
                match pending {
                    Some(component) => CrankOutcome {
                        effect: Some(Effect::InitializeComponent(component)),
                        next_crank: NextCrank::Immediately,
                    },
                    None => {
                        self.state = ReactorState::CatchUp;
                        again
                    },
                }
            },
            ReactorState::CatchUp => {
                let instruction = self.catch_up_instructions(obs);
                if let CatchUpInstruction::CaughtUp = instruction {
                    self.state = ReactorState::KeepUp;
                }
                self.outcome_of(instruction)
            },
            ReactorState::KeepUp => {
                if obs.highest_block.is_none() {
                    self.state = ReactorState::CatchUp;
                    return again;
                }
                match obs.sync_instruction {
                SyncInstruction::Leap => {
                    self.state = ReactorState::CatchUp;
                    again
                },
                SyncInstruction::BlockSync { block_hash, should_fetch_execution_state } => {
                    self.outcome_of(CatchUpInstruction::SyncBlock { block_hash, should_fetch_execution_state })
                },
                SyncInstruction::BlockExec { block } => {
                    self.outcome_of(
                        CatchUpInstruction::SyncBlock { block_hash: block.hash, should_fetch_execution_state: false },
                    )
                },
                SyncInstruction::CaughtUp => {
                    if obs.is_active_validator {
                        self.state = ReactorState::Validate;
                    }
                    again
                },
                }
            },
            ReactorState::Validate => {
                if !obs.is_active_validator {
                    self.state = ReactorState::KeepUp;
                }
                again
            },
        }
    }

    /// With every subsystem up, a crank in `Initialize` moves to `CatchUp`
    /// and cranks again at once.
    pub proof fn lemma_initialize_completes(reactor: MainReactor, obs: Observations)
        requires
            reactor.state == ReactorState::Initialize,
            first_pending(obs.components) is None,
        ensures
            reactor.crank_spec(obs).0 == ReactorState::CatchUp,
            reactor.crank_spec(obs).2 == (CrankOutcome { effect: None, next_crank: NextCrank::Immediately }),
    {
    }

    /// One catch-up crank during which the synchronizer stayed idle past the
    /// tolerance, taking `before` to `after`.
    pub open spec fn idle_crank(before: MainReactor, after: MainReactor, obs: Observations) -> bool {
        &&& before.idle(obs)
        &&& Self::config_unchanged(before, after)
        &&& after.attempts == before.catch_up_spec(obs).1
    }

    /// Whatever the count it starts from, `max_attempts + 1` consecutive idle
    /// catch-up cranks include one that shuts the node down.
    pub proof fn lemma_idle_cap(states: Seq<MainReactor>, obs: Seq<Observations>)
        requires
            states.len() >= 1,
            states.len() == states[0].max_attempts + 2,
            obs.len() == states.len() - 1,
            states[0].max_attempts < u64::MAX,
            forall|k: int| 0 <= k < obs.len() ==> #[trigger] Self::idle_crank(states[k], states[k + 1], obs[k]),
        ensures
            exists|k: int| 0 <= k < obs.len()
                && (#[trigger] states[k].catch_up_spec(obs[k])).0 == CatchUpInstruction::Shutdown(ShutdownReason::IdleToleranceExceeded),
    {
        let max = states[0].max_attempts;
        if forall|k: int| 0 <= k < obs.len()
            ==> (#[trigger] states[k].catch_up_spec(obs[k])).0 != CatchUpInstruction::Shutdown(ShutdownReason::IdleToleranceExceeded) {
            Self::lemma_idle_count(states, obs, max as int);
            assert(Self::idle_crank(states[max as int], states[(max as int) + 1], obs[max as int]));
            assert(states[max as int].catch_up_spec(obs[max as int]).0 != CatchUpInstruction::Shutdown(ShutdownReason::IdleToleranceExceeded));
        }
    }

    proof fn lemma_idle_count(states: Seq<MainReactor>, obs: Seq<Observations>, k: int)
        requires
            states.len() >= 1,
            states.len() == states[0].max_attempts + 2,
            obs.len() == states.len() - 1,
            states[0].max_attempts < u64::MAX,
            forall|j: int| 0 <= j < obs.len() ==> #[trigger] Self::idle_crank(states[j], states[j + 1], obs[j]),
            forall|j: int| 0 <= j < obs.len()
                ==> (#[trigger] states[j].catch_up_spec(obs[j])).0 != CatchUpInstruction::Shutdown(ShutdownReason::IdleToleranceExceeded),
            0 <= k < obs.len(),
        ensures
            states[k].attempts >= k,
            states[k].max_attempts == states[0].max_attempts,
        decreases k,
    {
        if k > 0 {
            Self::lemma_idle_count(states, obs, k - 1);
            assert(Self::idle_crank(states[k - 1], states[(k - 1) + 1], obs[k - 1]));
            assert(states[k - 1].catch_up_spec(obs[k - 1]).0 != CatchUpInstruction::Shutdown(ShutdownReason::IdleToleranceExceeded));
        }
    }
}

} // verus!
