use casper_node::commit::{
    after_commit, commit_genesis, commit_upgrade, CommitFollowUp, FinalizedBlock, Proposer,
    UpgradeFailure,
};
use casper_node::diagnostics::{Outcome, OutputFormat, Session};
use casper_node::reactor::{
    ActivationPoint, CatchUpInstruction, Component, ComponentStatus, CrankOutcome, Effect,
    MainReactor, NextCrank, Observations, ReactorState, ShutdownReason, StartingWith,
    SyncInstruction, TrustedBlock, WAIT_SEC,
};
use casper_node::types::{Block, BlockHash, BlockHeader, Digest, ProtocolVersion};

const NOW: u64 = 1_000_000;

fn hash(n: u8) -> BlockHash {
    let mut bytes = [0u8; 32];
    bytes[0] = n;
    BlockHash { digest: Digest { bytes } }
}

fn block(n: u8, height: u64, era: u64, next_era: u64) -> Block {
    Block {
        hash: hash(n),
        header: BlockHeader {
            hash: hash(n),
            parent_hash: hash(n.wrapping_sub(1)),
            state_root_hash: Digest { bytes: [3u8; 32] },
            accumulated_seed: Digest { bytes: [4u8; 32] },
            timestamp: 77,
            era_id: era,
            next_block_era_id: next_era,
            height,
            protocol_version: ProtocolVersion { major: 1, minor: 4, patch: 0 },
        },
    }
}

fn all_up() -> ComponentStatus {
    ComponentStatus {
        diagnostics_port: false,
        upgrade_watcher: false,
        network: false,
        event_stream_server: false,
        rest_server: false,
        rpc_server: false,
    }
}

fn obs() -> Observations {
    Observations {
        now: NOW,
        last_progress: None,
        highest_block: None,
        trusted_block: TrustedBlock::Missing,
        components: all_up(),
        is_active_validator: false,
        sync_instruction: SyncInstruction::CaughtUp,
    }
}

fn catching_up(trusted: Option<BlockHash>, activation: ActivationPoint) -> MainReactor {
    let mut r = MainReactor::new(3, 60_000, trusted, activation, 5);
    r.state = ReactorState::CatchUp;
    r
}

#[test]
fn initialize_brings_components_up_in_order_then_catches_up() {
    let mut r = MainReactor::new(3, 60_000, None, ActivationPoint::EraId(1), 5);
    let mut o = obs();
    o.components = ComponentStatus {
        diagnostics_port: false,
        upgrade_watcher: true,
        network: true,
        event_stream_server: false,
        rest_server: false,
        rpc_server: true,
    };
    let out = r.crank(&o);
    assert_eq!(out.effect, Some(Effect::InitializeComponent(Component::UpgradeWatcher)));
    assert_eq!(r.state, ReactorState::Initialize);
    o.components.upgrade_watcher = false;
    assert_eq!(r.crank(&o).effect, Some(Effect::InitializeComponent(Component::Network)));
    o.components.network = false;
    assert_eq!(r.crank(&o).effect, Some(Effect::InitializeComponent(Component::RpcServer)));
    o.components.rpc_server = false;
    let out = r.crank(&o);
    assert_eq!(out, CrankOutcome { effect: None, next_crank: NextCrank::Immediately });
    assert_eq!(r.state, ReactorState::CatchUp);
}

#[test]
fn genesis_bootstrap_commits_genesis() {
    let activation = ActivationPoint::Genesis(NOW + 60_000);
    let mut r = catching_up(None, activation);
    let out = r.crank(&obs());
    assert_eq!(out.effect, Some(Effect::CommitGenesis));
    assert_eq!(out.next_crank, NextCrank::Never);
    assert_eq!(r.state, ReactorState::CatchUp);
    let post_state_hash = Digest { bytes: [0xAB; 32] };
    let plan = commit_genesis(&activation, Ok(post_state_hash)).unwrap();
    assert_eq!(
        after_commit(Ok(plan)),
        CommitFollowUp::Install { plan, next_crank: NextCrank::AfterSeconds(WAIT_SEC) }
    );
    assert_eq!(plan.pre_state.next_block_height, 0);
    assert_eq!(plan.pre_state.pre_state_root_hash, post_state_hash);
    assert_eq!(plan.pre_state.parent_hash, BlockHash { digest: Digest { bytes: [0; 32] } });
    assert_eq!(plan.pre_state.parent_seed, Digest { bytes: [0; 32] });
    assert_eq!(
        plan.finalized_block,
        FinalizedBlock { timestamp: NOW + 60_000, era_id: 0, height: 0, proposer: Proposer::System }
    );
}

#[test]
fn genesis_commit_errors_become_messages() {
    let activation = ActivationPoint::Genesis(NOW);
    let failed = commit_genesis(&activation, Err("disk full".to_string()));
    assert_eq!(failed, Err("failed to commit genesis: disk full".to_string()));
    assert_eq!(
        after_commit(failed),
        CommitFollowUp::Shutdown("failed to commit genesis: disk full".to_string())
    );
    assert_eq!(
        commit_genesis(&ActivationPoint::EraId(3), Ok(Digest { bytes: [1; 32] })),
        Err("must have genesis timestamp".to_string())
    );
}

#[test]
fn post_genesis_without_trusted_hash_shuts_down() {
    let mut r = catching_up(None, ActivationPoint::Genesis(NOW - 60_000));
    let out = r.crank(&obs());
    assert_eq!(out.effect, Some(Effect::Shutdown(ShutdownReason::NoTrustedHash)));
    assert_eq!(out.next_crank, NextCrank::Never);
    assert_eq!(
        ShutdownReason::NoTrustedHash.message(),
        "post-genesis; cannot proceed without trusted hash provided"
    );
}

#[test]
fn leap_then_sync_until_caught_up() {
    let mut r = catching_up(None, ActivationPoint::EraId(1));
    let mut o = obs();
    let tip = block(100, 100, 2, 3);
    o.highest_block = Some(tip);
    assert_eq!(r.sync_starting_point(&o), Some(StartingWith::Block(tip)));
    o.sync_instruction = SyncInstruction::Leap;
    let out = r.crank(&o);
    assert_eq!(out.effect, Some(Effect::AttemptLeap { trusted_hash: tip.hash, peer_count: 5 }));
    assert_eq!(out.next_crank, NextCrank::AfterSeconds(WAIT_SEC));
    for n in 101..104u8 {
        o.sync_instruction =
            SyncInstruction::BlockSync { block_hash: hash(n), should_fetch_execution_state: false };
        let out = r.crank(&o);
        assert_eq!(
            out.effect,
            Some(Effect::RegisterBlock {
                block_hash: hash(n),
                should_fetch_execution_state: true,
                peer_count: 5
            })
        );
        assert_eq!(out.next_crank, NextCrank::Immediately);
        assert_eq!(r.state, ReactorState::CatchUp);
    }
    o.sync_instruction = SyncInstruction::CaughtUp;
    let out = r.crank(&o);
    assert_eq!(out, CrankOutcome { effect: None, next_crank: NextCrank::Immediately });
    assert_eq!(r.state, ReactorState::KeepUp);
}

#[test]
fn trusted_hash_higher_than_tip_is_the_starting_point() {
    let r = catching_up(Some(hash(200)), ActivationPoint::EraId(1));
    let mut o = obs();
    o.highest_block = Some(block(100, 100, 2, 2));
    o.trusted_block = TrustedBlock::Found(block(200, 200, 3, 3));
    assert_eq!(r.sync_starting_point(&o), Some(StartingWith::Hash(hash(200))));
    o.trusted_block = TrustedBlock::Found(block(50, 100, 2, 2));
    assert_eq!(r.sync_starting_point(&o), Some(StartingWith::Block(block(100, 100, 2, 2))));
    o.trusted_block = TrustedBlock::Missing;
    assert_eq!(r.sync_starting_point(&o), Some(StartingWith::Hash(hash(200))));
    o.trusted_block = TrustedBlock::StoreError;
    assert_eq!(r.sync_starting_point(&o), None);
    let mut r = r;
    assert_eq!(
        r.crank(&o).effect,
        Some(Effect::Shutdown(ShutdownReason::BlockStoreError))
    );
}

#[test]
fn caught_up_on_switch_block_commits_upgrade() {
    let mut r = catching_up(None, ActivationPoint::EraId(5));
    let mut o = obs();
    let switch = block(9, 41, 4, 4);
    o.highest_block = Some(switch);
    assert_eq!(r.catch_up_instructions(&o), CatchUpInstruction::CommitUpgrade(switch));
    let out = r.crank(&o);
    assert_eq!(out.effect, Some(Effect::CommitUpgrade(switch)));
    assert_eq!(out.next_crank, NextCrank::Never);
    let plan = commit_upgrade(&switch, Ok(Digest { bytes: [5; 32] })).unwrap();
    assert_eq!(plan.pre_state.next_block_height, 42);
    assert_eq!(plan.pre_state.parent_hash, switch.hash);
    assert_eq!(plan.pre_state.parent_seed, switch.header.accumulated_seed);
    assert_eq!(
        plan.finalized_block,
        FinalizedBlock { timestamp: 77, era_id: 4, height: 42, proposer: Proposer::System }
    );
    assert_eq!(
        commit_upgrade(&switch, Err(UpgradeFailure::Runtime("bad wasm".to_string()))),
        Err("failed to upgrade protocol: bad wasm".to_string())
    );
    assert_eq!(
        commit_upgrade(&switch, Err(UpgradeFailure::Config("no config".to_string()))),
        Err("no config".to_string())
    );
}

#[test]
fn idle_synchronizer_exhausts_attempts_and_shuts_down() {
    let mut r = catching_up(None, ActivationPoint::EraId(1));
    let mut o = obs();
    o.highest_block = Some(block(1, 1, 1, 2));
    o.sync_instruction = SyncInstruction::Leap;
    o.last_progress = Some(NOW - 60_001);
    for attempt in 1..=3u64 {
        let out = r.crank(&o);
        assert_eq!(r.attempts, attempt);
        assert_eq!(out, CrankOutcome { effect: None, next_crank: NextCrank::AfterSeconds(10) });
    }
    let out = r.crank(&o);
    assert_eq!(out.effect, Some(Effect::Shutdown(ShutdownReason::IdleToleranceExceeded)));
    assert_eq!(
        ShutdownReason::IdleToleranceExceeded.message(),
        "catch up process exceeds idle tolerances"
    );
}

#[test]
fn progress_resets_attempts_and_checks_later() {
    let mut r = catching_up(None, ActivationPoint::EraId(1));
    r.attempts = 2;
    let mut o = obs();
    o.last_progress = Some(NOW - 60_000);
    let out = r.crank(&o);
    assert_eq!(out, CrankOutcome { effect: None, next_crank: NextCrank::AfterSeconds(10) });
    assert_eq!(r.attempts, 0);
}

#[test]
fn keep_up_and_validate_transitions() {
    let mut r = MainReactor::new(3, 60_000, None, ActivationPoint::EraId(1), 7);
    r.state = ReactorState::KeepUp;
    let mut o = obs();
    o.highest_block = Some(block(8, 8, 1, 1));
    assert_eq!(r.sync_starting_point(&o), Some(StartingWith::Hash(hash(8))));
    o.sync_instruction = SyncInstruction::BlockExec { block: block(9, 9, 1, 1) };
    assert_eq!(
        r.crank(&o).effect,
        Some(Effect::RegisterBlock { block_hash: hash(9), should_fetch_execution_state: false, peer_count: 7 })
    );
    o.sync_instruction = SyncInstruction::BlockSync { block_hash: hash(9), should_fetch_execution_state: true };
    assert_eq!(
        r.crank(&o).effect,
        Some(Effect::RegisterBlock { block_hash: hash(9), should_fetch_execution_state: true, peer_count: 7 })
    );
    o.sync_instruction = SyncInstruction::CaughtUp;
    r.crank(&o);
    assert_eq!(r.state, ReactorState::KeepUp);
    o.is_active_validator = true;
    r.crank(&o);
    assert_eq!(r.state, ReactorState::Validate);
    r.crank(&o);
    assert_eq!(r.state, ReactorState::Validate);
    o.is_active_validator = false;
    r.crank(&o);
    assert_eq!(r.state, ReactorState::KeepUp);
    o.sync_instruction = SyncInstruction::Leap;
    r.crank(&o);
    assert_eq!(r.state, ReactorState::CatchUp);
    o.highest_block = None;
    r.state = ReactorState::KeepUp;
    assert_eq!(r.sync_starting_point(&o), None);
    assert_eq!(r.crank(&o), CrankOutcome { effect: None, next_crank: NextCrank::Immediately });
    assert_eq!(r.state, ReactorState::CatchUp);
}

#[test]
fn outcome_lines_and_session_settings() {
    assert_eq!(Outcome::success("dumping queues").to_string(), "OK   dumping queues");
    assert_eq!(Outcome::failed("no such era").to_string(), "ERR  no such era");
    let mut s = Session::new();
    assert_eq!(s.apply_set(Some(false), None), Outcome::success("session unchanged"));
    assert_eq!(s.apply_set(Some(true), Some(OutputFormat::Json)), Outcome::success("session updated"));
    assert!(s.quiet);
    assert_eq!(s.output, OutputFormat::Json);
    assert_eq!(s.outcome_to_send(Outcome::success("goodbye!")), None);
    s.apply_set(Some(false), None);
    assert_eq!(s.outcome_to_send(Outcome::success("goodbye!")), Some(Outcome::success("goodbye!")));
}
