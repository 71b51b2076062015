use particl_indexer::console::{
    BlockData, ScriptPubKey, Stakeaddress, Transaction, ValidationConclusion, Vout, Vote,
};
use particl_indexer::db::HeightSummary;
use particl_indexer::engine::{
    gethash, scan, start, step, Action, Config, Event, Notification, Origin, ProcessedBlocks,
    ScanStep, State, BACKOFF_SECS, WINDOW,
};
use particl_indexer::error::IngestError;
use particl_indexer::pools::{pools, Pool};
use particl_indexer::tally::{Outcome, Proposal, TallyEntry};

fn config() -> Config {
    Config { registry: pools(), connect_attempts: None }
}

fn transaction(vote: Option<&str>, stakeaddresses: Option<Vec<&str>>) -> Transaction {
    Transaction {
        txid: "t".to_string(),
        hash: "h".to_string(),
        version: 160,
        size: 200,
        vsize: 200,
        weight: 800,
        locktime: 0,
        hex: "a0".to_string(),
        vin: Vec::new(),
        vout: vec![
            Vout::Data {
                n: 0,
                data_hex: "04".to_string(),
                smsgdifficulty: None,
                smsgfeerate: None,
                treasury_fund_cfwd: Some(2.5f64.to_bits()),
                vout_type: "data".to_string(),
                vote: vote.map(|v| v.to_string()),
            },
            Vout::Standard {
                n: 1,
                vout_type: "standard".to_string(),
                value: 1.5f64.to_bits(),
                valuesat: 150000000,
                scriptpubkey: ScriptPubKey {
                    addresses: None,
                    stakeaddresses: stakeaddresses.map(|l| l.iter().map(|a| a.to_string()).collect()),
                    assembly: "OP_ISCOINSTAKE".to_string(),
                    hex: "b8".to_string(),
                    req_sigs: Some(1),
                    staking_type: "pubkeyhash".to_string(),
                },
            },
        ],
    }
}

fn block(height: u64, vote: Option<&str>, stakeaddresses: Option<Vec<&str>>) -> BlockData {
    BlockData {
        bits: "1a".to_string(),
        blocksig: None,
        chainwork: "00ff".to_string(),
        difficulty: 12345.678f64.to_bits(),
        hash: "00ab".to_string(),
        hashproofofstake: None,
        height: height,
        mediantime: 1600000000,
        merkleroot: "mr".to_string(),
        n_tx: 1,
        nonce: 0,
        previousblockhash: None,
        prevstakemodifier: None,
        size: 500,
        stakekernelblockhash: None,
        stakekernelscript: None,
        stakekernelvalue: Some(77.0f64.to_bits()),
        strippedsize: 400,
        time: 1600000016,
        tx: vec![transaction(vote, stakeaddresses)],
        version: 160,
        version_hex: "000000a0".to_string(),
        weight: 2000,
        witnessmerkleroot: "wmr".to_string(),
        coldstaking: None,
        voting_info: None,
    }
}

fn window(hashes: &[&str]) -> ProcessedBlocks {
    ProcessedBlocks { blocks: hashes.iter().map(|h| h.to_string()).collect() }
}

fn scanning(origin: Origin, ids: Vec<u64>, hash: &str, step: ScanStep) -> State {
    State::Scanning { origin: origin, ids: ids, hash: hash.to_string(), step: step }
}

fn catch_up(height: u64) -> Origin {
    Origin::CatchUp { height: height }
}

fn tally() -> Vec<TallyEntry> {
    [
        ("proposal", "7"),
        ("blocks_counted", "1200"),
        ("height_start", "616958"),
        ("height_end", "2147483647"),
        ("yes", "\"80%, 12.5%\""),
        ("no", "\"20%, 2.1%\""),
    ]
    .iter()
    .map(|(l, r)| TallyEntry { label: l.to_string(), raw: r.to_string() })
    .collect()
}

fn hash_block(hash: &str) -> Event {
    Event::Notification(Ok(Notification::HashBlock(hash.to_string())))
}

#[test]
fn the_window_finds_what_it_holds() {
    let w = window(&["aa", "bb", "cc"]);
    assert!(w.contains("aa"));
    assert!(w.contains("cc"));
    assert!(!w.contains("dd"));
    assert!(!w.contains("a"));
    assert!(!ProcessedBlocks::default().contains("aa"));
}

#[test]
fn the_window_keeps_a_thousand_hashes() {
    assert_eq!(WINDOW, 1000);
    let mut w = ProcessedBlocks::default();
    for i in 0..1000 {
        w.inject(format!("hash{}", i));
        assert_eq!(w.blocks.len(), i + 1);
    }
    assert_eq!(w.blocks[0], "hash0");
    assert!(w.contains("hash0"));
    w.inject("hash1000".to_string());
    assert_eq!(w.blocks.len(), 1000);
    assert_eq!(w.blocks[0], "hash1");
    assert_eq!(w.blocks[999], "hash1000");
    assert!(!w.contains("hash0"));
    assert!(w.contains("hash1"));
    assert!(w.contains("hash1000"));
    for i in 1001..3000 {
        w.inject(format!("hash{}", i));
        assert_eq!(w.blocks.len(), 1000);
    }
    assert_eq!(w.blocks[0], "hash2000");
    assert_eq!(w.blocks[999], "hash2999");
}

#[test]
fn an_injected_hash_is_in_the_window() {
    let mut w = window(&["aa"]);
    w.inject("bb".to_string());
    assert_eq!(w, window(&["aa", "bb"]));
    assert!(w.contains("bb"));
    w.inject("aa".to_string());
    assert_eq!(w, window(&["aa", "bb", "aa"]));
}

#[test]
fn a_window_clones_to_an_equal_window() {
    let w = window(&["aa", "bb"]);
    assert_eq!(w.clone(), w);
    assert_eq!(ProcessedBlocks::default(), window(&[]));
}

#[test]
fn gethash_takes_block_hashes_only() {
    assert_eq!(gethash(Ok(Notification::HashBlock("00ab".to_string()))), Ok("00ab".to_string()));
    assert_eq!(gethash(Ok(Notification::HashTx)), Err(IngestError::UnexpectedNotification));
    assert_eq!(gethash(Ok(Notification::Block)), Err(IngestError::UnexpectedNotification));
    assert_eq!(gethash(Ok(Notification::Tx)), Err(IngestError::UnexpectedNotification));
    assert_eq!(gethash(Ok(Notification::Sequence)), Err(IngestError::UnexpectedNotification));
    assert_eq!(gethash(Err("socket closed".to_string())), Err(IngestError::Upstream("socket closed".to_string())));
}

#[test]
fn the_engine_starts_by_reaching_the_database() {
    assert_eq!(start(), (State::Connecting { failures: 0 }, Action::Connect { after_secs: 0 }));
}

#[test]
fn the_database_is_tried_again_after_five_seconds() {
    assert_eq!(BACKOFF_SECS, 5);
    let (mut state, _) = start();
    for failures in 1..=20u32 {
        let (next, action) = step(&config(), state, Event::ConnectFailed);
        assert_eq!(next, State::Connecting { failures: failures });
        assert_eq!(action, Action::Connect { after_secs: 5 });
        state = next;
    }
    assert_eq!(step(&config(), state, Event::Connected), (State::CheckingHeights, Action::LoadHeights));
}

#[test]
fn a_bounded_engine_gives_the_database_up() {
    let bounded = Config { registry: pools(), connect_attempts: Some(3) };
    let (state, _) = start();
    let (state, action) = step(&bounded, state, Event::ConnectFailed);
    assert_eq!(action, Action::Connect { after_secs: 5 });
    let (state, action) = step(&bounded, state, Event::ConnectFailed);
    assert_eq!(action, Action::Connect { after_secs: 5 });
    let (state, action) = step(&bounded, state, Event::ConnectFailed);
    assert_eq!(state, State::Halted);
    assert_eq!(action, Action::Halt(IngestError::DatabaseUnreachable));
}

#[test]
fn the_count_of_failures_stops_at_its_limit() {
    let (state, action) = step(&config(), State::Connecting { failures: u32::MAX }, Event::ConnectFailed);
    assert_eq!(state, State::Connecting { failures: u32::MAX });
    assert_eq!(action, Action::Connect { after_secs: 5 });
}

#[test]
fn catch_up_begins_at_zero_on_an_empty_database() {
    let (state, action) = step(&config(), State::CheckingHeights, Event::Heights(None));
    assert_eq!(state, State::StartingCatchUp { height: 0 });
    assert_eq!(action, Action::LoadProposalIds);
    let (state, action) = step(&config(), state, Event::ProposalIds(vec![1, 2]));
    assert_eq!(state, State::SeekingHash { height: 0, ids: vec![1, 2] });
    assert_eq!(action, Action::FetchBlockHash { height: 0, command: "getblockhash 0".to_string() });
}

#[test]
fn catch_up_resumes_after_the_top_height() {
    let summary = HeightSummary { lowest: 0, top: 3, sum: 6 };
    let (state, action) = step(&config(), State::CheckingHeights, Event::Heights(Some(summary)));
    assert_eq!(state, State::StartingCatchUp { height: 4 });
    assert_eq!(action, Action::LoadProposalIds);
    let (_, action) = step(&config(), state, Event::ProposalIds(Vec::new()));
    assert_eq!(action, Action::FetchBlockHash { height: 4, command: "getblockhash 4".to_string() });
}

#[test]
fn inconsistent_heights_halt_the_engine() {
    let summary = HeightSummary { lowest: 0, top: 3, sum: 5 };
    let (state, action) = step(&config(), State::CheckingHeights, Event::Heights(Some(summary)));
    assert_eq!(state, State::Halted);
    assert_eq!(action, Action::Halt(IngestError::InconsistentHeights { expected: 6, stored: 5 }));
}

#[test]
fn there_is_no_height_after_the_last() {
    let summary = HeightSummary { lowest: u64::MAX, top: u64::MAX, sum: u64::MAX };
    let (state, action) = step(&config(), State::CheckingHeights, Event::Heights(Some(summary)));
    assert_eq!(state, State::Halted);
    assert_eq!(action, Action::Halt(IngestError::HeightOverflow));
    let (state, action) = step(
        &config(),
        scanning(catch_up(u64::MAX), Vec::new(), "00ab", ScanStep::SavingBlock),
        Event::Stored,
    );
    assert_eq!(state, State::Halted);
    assert_eq!(action, Action::Halt(IngestError::HeightOverflow));
}

#[test]
fn a_found_hash_starts_a_scan() {
    let (state, action) = step(
        &config(),
        State::SeekingHash { height: 4, ids: vec![1] },
        Event::BlockHash(Some("00ab".to_string())),
    );
    assert_eq!(state, scanning(catch_up(4), vec![1], "00ab", ScanStep::FetchingBlock));
    assert_eq!(action, Action::FetchBlock { command: "getblock 00ab 2 true".to_string() });
}

#[test]
fn the_chain_tip_ends_catch_up() {
    let (state, action) = step(&config(), State::SeekingHash { height: 4, ids: vec![1] }, Event::BlockHash(None));
    assert_eq!(state, State::StartingListen);
    assert_eq!(action, Action::LoadProposalIds);
    let (state, action) = step(&config(), state, Event::ProposalIds(vec![1, 2]));
    assert_eq!(state, State::LoadingWindow { ids: vec![1, 2] });
    assert_eq!(action, Action::LoadDedupWindow);
    let (state, action) = step(&config(), state, Event::DedupWindow(Some(window(&["aa"]))));
    assert_eq!(state, State::Listening { ids: vec![1, 2], window: window(&["aa"]) });
    assert_eq!(action, Action::Subscribe);
}

#[test]
fn listening_starts_with_an_empty_window_where_none_is_persisted() {
    let (state, action) = step(&config(), State::LoadingWindow { ids: Vec::new() }, Event::DedupWindow(None));
    assert_eq!(state, State::Listening { ids: Vec::new(), window: window(&[]) });
    assert_eq!(action, Action::Subscribe);
}

#[test]
fn a_failed_lookup_of_a_hash_halts_the_engine() {
    let (state, action) = step(
        &config(),
        State::SeekingHash { height: 4, ids: Vec::new() },
        Event::Failed("connection refused".to_string()),
    );
    assert_eq!(state, State::Halted);
    assert_eq!(action, Action::Halt(IngestError::Upstream("connection refused".to_string())));
}

#[test]
fn a_block_without_stake_address_and_vote_is_written_at_once() {
    let fetched = block(10, None, None);
    let (state, action) = step(
        &config(),
        scanning(catch_up(10), vec![1], "00ab", ScanStep::FetchingBlock),
        Event::Block(fetched.clone()),
    );
    assert_eq!(state, scanning(catch_up(10), vec![1], "00ab", ScanStep::SavingBlock));
    assert_eq!(action, Action::StoreBlock(fetched));
    let (state, action) = step(&config(), state, Event::Stored);
    assert_eq!(state, State::SeekingHash { height: 11, ids: vec![1] });
    assert_eq!(action, Action::FetchBlockHash { height: 11, command: "getblockhash 11".to_string() });
}

#[test]
fn derived_attributes_of_a_fetched_block_are_not_trusted() {
    let mut fetched = block(10, None, None);
    fetched.coldstaking = Some(Pool { pubkey: "stale".to_string(), url: None, pool_is_active: None });
    fetched.voting_info = Some(Vote { proposal_id: 1, voted_for_option: 1 });
    let (_, action) = step(
        &config(),
        scanning(catch_up(10), Vec::new(), "00ab", ScanStep::FetchingBlock),
        Event::Block(fetched),
    );
    assert_eq!(action, Action::StoreBlock(block(10, None, None)));
}

#[test]
fn a_cached_stake_address_is_not_validated() {
    let fetched = block(10, None, Some(vec!["pcs1raw"]));
    let (state, action) = step(
        &config(),
        scanning(catch_up(10), Vec::new(), "00ab", ScanStep::FetchingBlock),
        Event::Block(fetched.clone()),
    );
    assert_eq!(
        state,
        scanning(
            catch_up(10),
            Vec::new(),
            "00ab",
            ScanStep::ReadingCache { block: fetched.clone(), address: "pcs1raw".to_string() }
        )
    );
    assert_eq!(action, Action::LoadStakeaddresses);
    let pool = Pool { pubkey: "key".to_string(), url: Some("https://pool.example/".to_string()), pool_is_active: Some(false) };
    let cache = vec![
        Stakeaddress { raw: "pcs1other".to_string(), pool: Pool { pubkey: "x".to_string(), url: None, pool_is_active: None } },
        Stakeaddress { raw: "pcs1raw".to_string(), pool: pool.clone() },
    ];
    let (state, action) = step(&config(), state, Event::Stakeaddresses(cache));
    let mut expected = fetched;
    expected.coldstaking = Some(pool);
    assert_eq!(state, scanning(catch_up(10), Vec::new(), "00ab", ScanStep::SavingBlock));
    assert_eq!(action, Action::StoreBlock(expected));
}

#[test]
fn an_unknown_stake_address_is_validated_and_cached() {
    let fetched = block(10, None, Some(vec!["pcs1raw"]));
    let reading = scanning(
        catch_up(10),
        Vec::new(),
        "00ab",
        ScanStep::ReadingCache { block: fetched.clone(), address: "pcs1raw".to_string() },
    );
    let (state, action) = step(&config(), reading, Event::Stakeaddresses(Vec::new()));
    assert_eq!(action, Action::ValidateAddress { command: "validateaddress pcs1raw true".to_string() });
    let conclusion = ValidationConclusion {
        isvalid: true,
        stakeonly_address: "pcs137vfy28eytanejvp5ku4grgk3q8cfd5wuknrcp".to_string(),
    };
    let (state, action) = step(&config(), state, Event::Validation(conclusion));
    let pool = Pool {
        pubkey: "pcs137vfy28eytanejvp5ku4grgk3q8cfd5wuknrcp".to_string(),
        url: Some("https://particl1.crymel.icu/".to_string()),
        pool_is_active: Some(true),
    };
    let stored = Stakeaddress { raw: "pcs1raw".to_string(), pool: pool.clone() };
    assert_eq!(action, Action::StoreStakeaddress(stored.clone()));
    let (state, action) = step(&config(), state, Event::Stored);
    let mut expected = fetched.clone();
    expected.coldstaking = Some(pool);
    assert_eq!(state, scanning(catch_up(10), Vec::new(), "00ab", ScanStep::SavingBlock));
    assert_eq!(action, Action::StoreBlock(expected.clone()));

    let again = scanning(
        catch_up(10),
        Vec::new(),
        "00ab",
        ScanStep::ReadingCache { block: fetched, address: "pcs1raw".to_string() },
    );
    let (_, action) = step(&config(), again, Event::Stakeaddresses(vec![stored]));
    assert_eq!(action, Action::StoreBlock(expected));
}

#[test]
fn a_key_outside_the_registry_is_cached_as_a_bare_pool() {
    let fetched = block(10, None, Some(vec!["pcs1raw"]));
    let validating = scanning(
        catch_up(10),
        Vec::new(),
        "00ab",
        ScanStep::Validating { block: fetched, address: "pcs1raw".to_string() },
    );
    let conclusion = ValidationConclusion { isvalid: true, stakeonly_address: "pcs1solo".to_string() };
    let (_, action) = step(&config(), validating, Event::Validation(conclusion));
    assert_eq!(
        action,
        Action::StoreStakeaddress(Stakeaddress {
            raw: "pcs1raw".to_string(),
            pool: Pool { pubkey: "pcs1solo".to_string(), url: None, pool_is_active: None },
        })
    );
}

#[test]
fn a_second_output_of_another_shape_halts_the_scan() {
    let mut fetched = block(10, None, None);
    fetched.tx[0].vout.truncate(1);
    let (state, action) = step(
        &config(),
        scanning(catch_up(10), Vec::new(), "00ab", ScanStep::FetchingBlock),
        Event::Block(fetched),
    );
    assert_eq!(state, State::Halted);
    assert_eq!(action, Action::Halt(IngestError::MissingOutput));
    let mut fetched = block(10, None, None);
    fetched.tx[0].vout.swap(0, 1);
    let (_, action) = step(
        &config(),
        scanning(catch_up(10), Vec::new(), "00ab", ScanStep::FetchingBlock),
        Event::Block(fetched),
    );
    assert_eq!(action, Action::Halt(IngestError::UnexpectedOutput));
}

#[test]
fn a_malformed_vote_halts_the_scan() {
    let (state, action) = step(
        &config(),
        scanning(catch_up(700000), Vec::new(), "00ab", ScanStep::FetchingBlock),
        Event::Block(block(700000, Some("42"), None)),
    );
    assert_eq!(state, State::Halted);
    assert_eq!(action, Action::Halt(IngestError::MalformedVote));
}

#[test]
fn a_vote_on_a_new_proposal_creates_the_proposal_before_the_block_is_written() {
    let fetched = block(700000, Some("42, 1"), None);
    let (state, action) = step(
        &config(),
        scanning(catch_up(700000), vec![7], "00ab", ScanStep::FetchingBlock),
        Event::Block(fetched.clone()),
    );
    let mut voted = fetched;
    voted.voting_info = Some(Vote { proposal_id: 42, voted_for_option: 1 });
    assert_eq!(
        state,
        scanning(
            catch_up(700000),
            vec![7],
            "00ab",
            ScanStep::Tallying { block: voted.clone(), vote: Vote { proposal_id: 42, voted_for_option: 1 } }
        )
    );
    assert_eq!(action, Action::TallyVotes { command: "tallyvotes 42 616958 2147483647".to_string() });
    let (state, action) = step(&config(), state, Event::Tally(tally()));
    assert_eq!(
        action,
        Action::StoreProposal(Proposal {
            proposal_id: 42,
            stats: vec![
                Outcome { label: "yes".to_string(), count: 80, percentage: "12.5".to_string() },
                Outcome { label: "no".to_string(), count: 20, percentage: "2.1".to_string() },
            ],
        })
    );
    let (state, action) = step(&config(), state, Event::Stored);
    assert_eq!(action, Action::LoadProposalIds);
    let (state, action) = step(&config(), state, Event::ProposalIds(vec![7, 42]));
    assert_eq!(state, scanning(catch_up(700000), vec![7, 42], "00ab", ScanStep::SavingBlock));
    assert_eq!(action, Action::StoreBlock(voted));
    let (state, _) = step(&config(), state, Event::Stored);
    assert_eq!(state, State::SeekingHash { height: 700001, ids: vec![7, 42] });
}

#[test]
fn a_vote_on_a_known_proposal_creates_none() {
    let fetched = block(700001, Some("42, 0"), None);
    let (state, action) = step(
        &config(),
        scanning(catch_up(700001), vec![7, 42], "00cd", ScanStep::FetchingBlock),
        Event::Block(fetched.clone()),
    );
    let mut voted = fetched;
    voted.voting_info = Some(Vote { proposal_id: 42, voted_for_option: 0 });
    assert_eq!(state, scanning(catch_up(700001), vec![7, 42], "00cd", ScanStep::SavingBlock));
    assert_eq!(action, Action::StoreBlock(voted));
}

#[test]
fn a_vote_before_the_first_vote_height_creates_no_proposal() {
    let fetched = block(616958, Some("42, 0"), None);
    let (_, action) = step(
        &config(),
        scanning(catch_up(616958), Vec::new(), "00cd", ScanStep::FetchingBlock),
        Event::Block(fetched.clone()),
    );
    let mut voted = fetched;
    voted.voting_info = Some(Vote { proposal_id: 42, voted_for_option: 0 });
    assert_eq!(action, Action::StoreBlock(voted));
}

#[test]
fn a_bad_tally_halts_the_scan() {
    let fetched = block(700000, Some("42, 1"), None);
    let tallying = scanning(
        catch_up(700000),
        Vec::new(),
        "00ab",
        ScanStep::Tallying { block: fetched, vote: Vote { proposal_id: 42, voted_for_option: 1 } },
    );
    let (state, action) = step(&config(), tallying, Event::Tally(Vec::new()));
    assert_eq!(state, State::Halted);
    assert_eq!(action, Action::Halt(IngestError::IncompleteTally));
}

#[test]
fn a_new_hash_is_scanned_and_goes_into_the_window() {
    let listening = State::Listening { ids: vec![7], window: window(&["aa"]) };
    let (state, action) = step(&config(), listening, hash_block("bb"));
    assert_eq!(
        state,
        scanning(Origin::Listen { window: window(&["aa"]) }, vec![7], "bb", ScanStep::FetchingBlock)
    );
    assert_eq!(action, Action::FetchBlock { command: "getblock bb 2 true".to_string() });
    let fetched = block(900000, None, None);
    let (state, action) = step(&config(), state, Event::Block(fetched.clone()));
    assert_eq!(action, Action::StoreBlock(fetched));
    let (state, action) = step(&config(), state, Event::Stored);
    assert_eq!(state, State::SavingWindow { ids: vec![7], window: window(&["aa", "bb"]) });
    assert_eq!(action, Action::StoreDedupWindow(window(&["aa", "bb"])));
    let (state, action) = step(&config(), state, Event::Stored);
    assert_eq!(state, State::Listening { ids: vec![7], window: window(&["aa", "bb"]) });
    assert_eq!(action, Action::AwaitNotification);
    let (state, action) = step(&config(), state, hash_block("bb"));
    assert_eq!(state, State::Listening { ids: vec![7], window: window(&["aa", "bb"]) });
    assert_eq!(action, Action::AwaitNotification);
}

#[test]
fn a_hash_of_the_window_is_passed_over() {
    let listening = State::Listening { ids: vec![7], window: window(&["aa", "bb"]) };
    let (state, action) = step(&config(), listening, hash_block("aa"));
    assert_eq!(state, State::Listening { ids: vec![7], window: window(&["aa", "bb"]) });
    assert_eq!(action, Action::AwaitNotification);
}

#[test]
fn a_full_window_drops_its_oldest_hash_after_a_scan() {
    let mut full = ProcessedBlocks::default();
    for i in 0..1000 {
        full.inject(format!("hash{}", i));
    }
    let saving = scanning(Origin::Listen { window: full }, Vec::new(), "fresh", ScanStep::SavingBlock);
    let (state, action) = step(&config(), saving, Event::Stored);
    match (state, action) {
        (State::SavingWindow { window: kept, .. }, Action::StoreDedupWindow(written)) => {
            assert_eq!(kept, written);
            assert_eq!(kept.blocks.len(), 1000);
            assert_eq!(kept.blocks[0], "hash1");
            assert_eq!(kept.blocks[999], "fresh");
        }
        other => panic!("unexpected step {:?}", other),
    }
}

#[test]
fn any_other_notification_halts_the_engine() {
    let listening = State::Listening { ids: Vec::new(), window: window(&[]) };
    let (state, action) = step(&config(), listening, Event::Notification(Ok(Notification::HashTx)));
    assert_eq!(state, State::Halted);
    assert_eq!(action, Action::Halt(IngestError::UnexpectedNotification));
    let listening = State::Listening { ids: Vec::new(), window: window(&[]) };
    let (_, action) = step(&config(), listening, Event::Notification(Err("stream closed".to_string())));
    assert_eq!(action, Action::Halt(IngestError::Upstream("stream closed".to_string())));
}

#[test]
fn a_failure_halts_the_engine_in_every_state() {
    let states = vec![
        State::Connecting { failures: 2 },
        State::CheckingHeights,
        State::StartingCatchUp { height: 1 },
        State::SeekingHash { height: 1, ids: Vec::new() },
        State::StartingListen,
        State::LoadingWindow { ids: Vec::new() },
        State::Listening { ids: Vec::new(), window: window(&[]) },
        scanning(catch_up(1), Vec::new(), "00ab", ScanStep::FetchingBlock),
        scanning(catch_up(1), Vec::new(), "00ab", ScanStep::SavingBlock),
        State::SavingWindow { ids: Vec::new(), window: window(&[]) },
    ];
    for state in states {
        let (next, action) = step(&config(), state, Event::Failed("boom".to_string()));
        assert_eq!(next, State::Halted);
        assert_eq!(action, Action::Halt(IngestError::Upstream("boom".to_string())));
    }
}

#[test]
fn an_event_that_answers_nothing_halts_the_engine() {
    let (state, action) = step(&config(), State::CheckingHeights, Event::Stored);
    assert_eq!(state, State::Halted);
    assert_eq!(action, Action::Halt(IngestError::UnexpectedEvent));
    let (_, action) = step(&config(), State::StartingListen, Event::Connected);
    assert_eq!(action, Action::Halt(IngestError::UnexpectedEvent));
    let (_, action) = step(
        &config(),
        scanning(catch_up(1), Vec::new(), "00ab", ScanStep::FetchingBlock),
        Event::Stored,
    );
    assert_eq!(action, Action::Halt(IngestError::UnexpectedEvent));
}

#[test]
fn a_halted_engine_stays_halted() {
    let (state, action) = step(&config(), State::Halted, Event::Connected);
    assert_eq!(state, State::Halted);
    assert_eq!(action, Action::Halt(IngestError::UnexpectedEvent));
    let (state, action) = step(&config(), state, Event::Failed("again".to_string()));
    assert_eq!(state, State::Halted);
    assert_eq!(action, Action::Halt(IngestError::UnexpectedEvent));
}

#[test]
fn a_failure_ends_a_scan() {
    let (state, action) = scan(
        &config(),
        catch_up(1),
        Vec::new(),
        "00ab".to_string(),
        ScanStep::SavingBlock,
        Event::Failed("boom".to_string()),
    );
    assert_eq!(state, State::Halted);
    assert_eq!(action, Action::Halt(IngestError::Upstream("boom".to_string())));
}
