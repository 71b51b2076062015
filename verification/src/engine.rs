//! The ingestion engine as a state machine: from the state and what the
//! driver reports to the next state and what the driver is to do next.
//!
//! The driver owns the connections. It performs an `Action`, turns what
//! came back into an `Event`, and asks `step` again. The engine first waits
//! for the database, checks the persisted heights, catches up height by
//! height until the node has no block left, and then follows the node's
//! notifications. Every block goes through the same scan, whose last
//! action is the one write of the block.

use vstd::prelude::*;
use crate::console::{
    as_fetched, cached_pool, check_stakeaddress_in_db, getblock_command, getblock_text, getblockhash_command,
    getblockhash_text, getnewproposal, new_proposal_vote, stake_address_of, validated_entry,
    validated_stakeaddress, validateaddress_command, validateaddress_text, vote_of, BlockData,
    BlockView, Stakeaddress, StakeaddressView, ValidationConclusion, Vote,
};
use crate::db::{consistent, toprec, toprec_spec, HeightSummary};
use crate::error::IngestError;
use crate::pools::PrivatePool;
use crate::tally::{
    proposal_of, tallyvotes_command, tallyvotes_text, Proposal, ProposalView, TallyEntry,
};
use crate::text::same_text;

verus! {

// ---------------------------------------------------------------------
// The window of hashes seen on the notification stream
// ---------------------------------------------------------------------

/// The hashes of the blocks that were last processed off the notification
/// stream, oldest first.
#[derive(Debug, PartialEq, Eq)]
pub struct ProcessedBlocks {
    pub blocks: Vec<String>,
}

/// How many hashes the window keeps.
pub const WINDOW: usize = 1000;

impl View for ProcessedBlocks {
    type V = Seq<Seq<char>>;

    open spec fn view(&self) -> Seq<Seq<char>> {
        Seq::new(self.blocks@.len(), |i: int| self.blocks@[i]@)
    }
}

/// The window after `blockhash` went in: it is put at the end, and where
/// that makes one hash more than the window keeps, the oldest leaves.
pub open spec fn injected(window: Seq<Seq<char>>, blockhash: Seq<char>) -> Seq<Seq<char>> {
    let grown = window.push(blockhash);
    if grown.len() == WINDOW + 1 {
        grown.drop_first()
    } else {
        grown
    }
}

impl Default for ProcessedBlocks {
    fn default() -> (window: Self)
        ensures
            window@ == Seq::<Seq<char>>::empty(),
            window.wf(),
    {
        ProcessedBlocks { blocks: Vec::new() }
    }
}

impl Clone for ProcessedBlocks {
    fn clone(&self) -> (copy: Self)
        ensures
            copy@ == self@,
    {
        let mut blocks: Vec<String> = Vec::new();
        let mut i: usize = 0;
        while i < self.blocks.len()
            invariant
                i <= self.blocks.len(),
                blocks.len() == i,
                forall|k: int| 0 <= k < i ==> blocks@[k]@ == self.blocks@[k]@,
            decreases self.blocks.len() - i,
        {
            blocks.push(self.blocks[i].clone());
            i += 1;
        }
        let copy = ProcessedBlocks { blocks: blocks };
        assert(copy@ =~= self@);
        copy
    }
}

impl ProcessedBlocks {
    /// The window holds no more hashes than it keeps.
    pub open spec fn wf(&self) -> bool {
        self.blocks@.len() <= WINDOW
    }

    /// Whether `blockhash` is in the window.
    pub fn contains(&self, blockhash: &str) -> (found: bool)
        ensures
            found == self@.contains(blockhash@),
    {
        let mut i: usize = 0;
        while i < self.blocks.len()
            invariant
                i <= self.blocks.len(),
                forall|k: int| 0 <= k < i ==> self@[k] != blockhash@,
            decreases self.blocks.len() - i,
        {
            if same_text(self.blocks[i].as_str(), blockhash) {
                assert(self@[i as int] == blockhash@);
                return true;
            }
            i += 1;
        }
        false
    }

    /// Puts `blockhash` at the end of the window; the oldest hash leaves
    /// where the window would hold one more than it keeps.
    pub fn inject(&mut self, blockhash: String)
        ensures
            final(self)@ == injected(old(self)@, blockhash@),
            old(self).wf() ==> final(self).wf(),
    {
        let ghost before = self@;
        self.blocks.push(blockhash);
        assert(self@ =~= before.push(blockhash@));
        if self.blocks.len() == WINDOW + 1 {
            let ghost grown = self@;
            self.blocks.remove(0);
            assert(self@ =~= grown.drop_first());
        }
    }
}

/// The window never outgrows its bound, and a hash that goes into a full
/// window drives the oldest one out.
pub proof fn lemma_injected_bounded(window: Seq<Seq<char>>, blockhash: Seq<char>)
    requires
        window.len() <= WINDOW,
    ensures
        injected(window, blockhash).len() <= WINDOW,
        window.len() < WINDOW ==> injected(window, blockhash) == window.push(blockhash),
        window.len() == WINDOW ==> injected(window, blockhash) == window.drop_first().push(
            blockhash,
        ),
{
    if window.len() == WINDOW {
        assert(window.push(blockhash).drop_first() =~= window.drop_first().push(blockhash));
    }
}

/// A hash that went into the window is in the window.
pub proof fn lemma_injected_contains(window: Seq<Seq<char>>, blockhash: Seq<char>)
    ensures
        injected(window, blockhash).contains(blockhash),
{
    let after = injected(window, blockhash);
    assert(after[after.len() - 1] == blockhash);
}

// ---------------------------------------------------------------------
// Notifications
// ---------------------------------------------------------------------

/// What the node announces on its notification stream.
#[derive(Debug, Clone, PartialEq, Eq)]
pub enum Notification {
    /// The hash of a new block.
    HashBlock(String),
    /// The hash of a transaction.
    HashTx,
    /// A whole block.
    Block,
    /// A whole transaction.
    Tx,
    /// A change of the chain tip or the memory pool.
    Sequence,
}

/// The block hash that a message of the stream announces. The stream is
/// subscribed to block hashes alone: any other message is an error, and so
/// is a failure of the stream, whose text is kept.
pub fn gethash(msg: Result<Notification, String>) -> (r: Result<String, IngestError>)
    ensures
        r == announced_hash(msg),
{
    match msg {
        Ok(Notification::HashBlock(hash)) => Ok(hash),
        Ok(_) => Err(IngestError::UnexpectedNotification),
        Err(failure) => Err(IngestError::Upstream(failure)),
    }
}

/// The block hash that a message of the stream announces.
pub open spec fn announced_hash(msg: Result<Notification, String>) -> Result<String, IngestError> {
    match msg {
        Ok(Notification::HashBlock(hash)) => Ok(hash),
        Ok(_) => Err(IngestError::UnexpectedNotification),
        Err(failure) => Err(IngestError::Upstream(failure)),
    }
}

// ---------------------------------------------------------------------
// States, events and actions
// ---------------------------------------------------------------------

/// What the engine is given once, before it starts.
#[derive(Debug)]
pub struct Config {
    /// The known pools, in lookup order.
    pub registry: Vec<PrivatePool>,
    /// How often the database is tried before the engine gives up; `None`
    /// to try for ever.
    pub connect_attempts: Option<u32>,
}

/// The seconds between two attempts to reach the database.
pub const BACKOFF_SECS: u64 = 5;

/// Where a scan was asked for, and what is picked up again when it is done.
#[derive(Debug, PartialEq)]
pub enum Origin {
    /// Catch-up, at this height.
    CatchUp { height: u64 },
    /// A notification, with the window as it stood when it came.
    Listen { window: ProcessedBlocks },
}

/// How far the scan of one block has come. Each step names the answer that
/// is awaited.
#[derive(Debug, PartialEq)]
pub enum ScanStep {
    /// The block was asked for.
    FetchingBlock,
    /// The cache of validated stake addresses was asked for.
    ReadingCache { block: BlockData, address: String },
    /// The node was asked to validate the stake address.
    Validating { block: BlockData, address: String },
    /// The new cache entry is being written.
    SavingStakeaddress { block: BlockData },
    /// The node was asked for the tally of the vote's proposal.
    Tallying { block: BlockData, vote: Vote },
    /// The new proposal is being written.
    SavingProposal { block: BlockData },
    /// The known proposal identifiers are being read again.
    RefreshingIds { block: BlockData },
    /// The block is being written.
    SavingBlock,
}

/// The state of the engine. Each state names the answer that is awaited.
#[derive(Debug, PartialEq)]
pub enum State {
    /// The database is being reached; so many attempts have failed.
    Connecting { failures: u32 },
    /// The summary of the persisted heights was asked for.
    CheckingHeights,
    /// Catch-up is about to begin at `height`; the known proposal
    /// identifiers were asked for.
    StartingCatchUp { height: u64 },
    /// The node was asked for the hash of the block at `height`.
    SeekingHash { height: u64, ids: Vec<u64> },
    /// Catch-up is over; the known proposal identifiers were asked for.
    StartingListen,
    /// The persisted window was asked for.
    LoadingWindow { ids: Vec<u64> },
    /// A notification is awaited.
    Listening { ids: Vec<u64>, window: ProcessedBlocks },
    /// The block with this hash is being scanned.
    Scanning { origin: Origin, ids: Vec<u64>, hash: String, step: ScanStep },
    /// The window is being written.
    SavingWindow { ids: Vec<u64>, window: ProcessedBlocks },
    /// The engine has stopped for good.
    Halted,
}

/// What the driver reports back.
#[derive(Debug, PartialEq)]
pub enum Event {
    /// The database is reached and the dataset is selected.
    Connected,
    /// The database could not be reached.
    ConnectFailed,
    /// The summary of the persisted heights; `None` where none is persisted.
    Heights(Option<HeightSummary>),
    /// The identifiers of all persisted proposals.
    ProposalIds(Vec<u64>),
    /// The hash of the block at the height asked for; `None` where the node
    /// has no block at that height.
    BlockHash(Option<String>),
    /// The persisted window, if there is one.
    DedupWindow(Option<ProcessedBlocks>),
    /// A message of the notification stream, or the failure of the stream.
    Notification(Result<Notification, String>),
    /// The block asked for.
    Block(BlockData),
    /// All cached stake addresses.
    Stakeaddresses(Vec<Stakeaddress>),
    /// The node's answer to the validation of a stake address.
    Validation(ValidationConclusion),
    /// The node's tally.
    Tally(Vec<TallyEntry>),
    /// The write asked for is durable.
    Stored,
    /// The collaborator failed; the text is its own.
    Failed(String),
}

/// What the driver is to do next.
#[derive(Debug, PartialEq)]
pub enum Action {
    /// Wait so many seconds, then reach the database and select the dataset.
    Connect { after_secs: u64 },
    /// Query the lowest, the top and the sum of the persisted heights.
    LoadHeights,
    /// Read the identifiers of all persisted proposals.
    LoadProposalIds,
    /// Send `command` to the node: the hash of the block at `height`.
    FetchBlockHash { height: u64, command: String },
    /// Read the persisted window.
    LoadDedupWindow,
    /// Subscribe to the node's notifications and await the first.
    Subscribe,
    /// Await the next notification.
    AwaitNotification,
    /// Send `command` to the node: a block in full.
    FetchBlock { command: String },
    /// Read all cached stake addresses.
    LoadStakeaddresses,
    /// Send `command` to the node: the validation of a stake address.
    ValidateAddress { command: String },
    /// Write a cache entry under its raw address.
    StoreStakeaddress(Stakeaddress),
    /// Send `command` to the node: the tally of a proposal.
    TallyVotes { command: String },
    /// Write a proposal under its identifier.
    StoreProposal(Proposal),
    /// Write a block under its height.
    StoreBlock(BlockData),
    /// Replace the persisted window with this one.
    StoreDedupWindow(ProcessedBlocks),
    /// Report the error and end the process.
    Halt(IngestError),
}

// ---------------------------------------------------------------------
// Views
// ---------------------------------------------------------------------

/// What an `Origin` says.
pub enum OriginView {
    CatchUp { height: u64 },
    Listen { window: Seq<Seq<char>> },
}

impl View for Origin {
    type V = OriginView;

    open spec fn view(&self) -> OriginView {
        match self {
            Origin::CatchUp { height } => OriginView::CatchUp { height: *height },
            Origin::Listen { window } => OriginView::Listen { window: window@ },
        }
    }
}

/// What a `ScanStep` says.
pub enum ScanStepView {
    FetchingBlock,
    ReadingCache { block: BlockView, address: Seq<char> },
    Validating { block: BlockView, address: Seq<char> },
    SavingStakeaddress { block: BlockView },
    Tallying { block: BlockView, vote: Vote },
    SavingProposal { block: BlockView },
    RefreshingIds { block: BlockView },
    SavingBlock,
}

impl View for ScanStep {
    type V = ScanStepView;

    open spec fn view(&self) -> ScanStepView {
        match self {
            ScanStep::FetchingBlock => ScanStepView::FetchingBlock,
            ScanStep::ReadingCache { block, address } => ScanStepView::ReadingCache {
                block: block@,
                address: address@,
            },
            ScanStep::Validating { block, address } => ScanStepView::Validating {
                block: block@,
                address: address@,
            },
            ScanStep::SavingStakeaddress { block } => ScanStepView::SavingStakeaddress {
                block: block@,
            },
            ScanStep::Tallying { block, vote } => ScanStepView::Tallying {
                block: block@,
                vote: *vote,
            },
            ScanStep::SavingProposal { block } => ScanStepView::SavingProposal { block: block@ },
            ScanStep::RefreshingIds { block } => ScanStepView::RefreshingIds { block: block@ },
            ScanStep::SavingBlock => ScanStepView::SavingBlock,
        }
    }
}

/// What a `State` says.
pub enum StateView {
    Connecting { failures: u32 },
    CheckingHeights,
    StartingCatchUp { height: u64 },
    SeekingHash { height: u64, ids: Seq<u64> },
    StartingListen,
    LoadingWindow { ids: Seq<u64> },
    Listening { ids: Seq<u64>, window: Seq<Seq<char>> },
    Scanning { origin: OriginView, ids: Seq<u64>, hash: Seq<char>, step: ScanStepView },
    SavingWindow { ids: Seq<u64>, window: Seq<Seq<char>> },
    Halted,
}

impl View for State {
    type V = StateView;

    open spec fn view(&self) -> StateView {
        match self {
            State::Connecting { failures } => StateView::Connecting { failures: *failures },
            State::CheckingHeights => StateView::CheckingHeights,
            State::StartingCatchUp { height } => StateView::StartingCatchUp { height: *height },
            State::SeekingHash { height, ids } => StateView::SeekingHash {
                height: *height,
                ids: ids@,
            },
            State::StartingListen => StateView::StartingListen,
            State::LoadingWindow { ids } => StateView::LoadingWindow { ids: ids@ },
            State::Listening { ids, window } => StateView::Listening {
                ids: ids@,
                window: window@,
            },
            State::Scanning { origin, ids, hash, step } => StateView::Scanning {
                origin: origin@,
                ids: ids@,
                hash: hash@,
                step: step@,
            },
            State::SavingWindow { ids, window } => StateView::SavingWindow {
                ids: ids@,
                window: window@,
            },
            State::Halted => StateView::Halted,
        }
    }
}

/// What an `Action` says.
pub enum ActionView {
    Connect { after_secs: u64 },
    LoadHeights,
    LoadProposalIds,
    FetchBlockHash { height: u64, command: Seq<char> },
    LoadDedupWindow,
    Subscribe,
    AwaitNotification,
    FetchBlock { command: Seq<char> },
    LoadStakeaddresses,
    ValidateAddress { command: Seq<char> },
    StoreStakeaddress(StakeaddressView),
    TallyVotes { command: Seq<char> },
    StoreProposal(ProposalView),
    StoreBlock(BlockView),
    StoreDedupWindow(Seq<Seq<char>>),
    Halt(IngestError),
}

impl View for Action {
    type V = ActionView;

    open spec fn view(&self) -> ActionView {
        match self {
            Action::Connect { after_secs } => ActionView::Connect { after_secs: *after_secs },
            Action::LoadHeights => ActionView::LoadHeights,
            Action::LoadProposalIds => ActionView::LoadProposalIds,
            Action::FetchBlockHash { height, command } => ActionView::FetchBlockHash {
                height: *height,
                command: command@,
            },
            Action::LoadDedupWindow => ActionView::LoadDedupWindow,
            Action::Subscribe => ActionView::Subscribe,
            Action::AwaitNotification => ActionView::AwaitNotification,
            Action::FetchBlock { command } => ActionView::FetchBlock { command: command@ },
            Action::LoadStakeaddresses => ActionView::LoadStakeaddresses,
            Action::ValidateAddress { command } => ActionView::ValidateAddress {
                command: command@,
            },
            Action::StoreStakeaddress(entry) => ActionView::StoreStakeaddress(entry@),
            Action::TallyVotes { command } => ActionView::TallyVotes { command: command@ },
            Action::StoreProposal(proposal) => ActionView::StoreProposal(proposal@),
            Action::StoreBlock(block) => ActionView::StoreBlock(block@),
            Action::StoreDedupWindow(window) => ActionView::StoreDedupWindow(window@),
            Action::Halt(error) => ActionView::Halt(*error),
        }
    }
}

// ---------------------------------------------------------------------
// What the engine decides
// ---------------------------------------------------------------------

/// The engine stops with `error`.
pub open spec fn halted(error: IngestError) -> (StateView, ActionView) {
    (StateView::Halted, ActionView::Halt(error))
}

/// The database did not answer; `failures` attempts had failed before.
pub open spec fn reconnecting(config: Config, failures: u32) -> (StateView, ActionView) {
    let failed = if failures < u32::MAX {
        (failures + 1) as u32
    } else {
        failures
    };
    if config.connect_attempts matches Some(attempts) && failed >= attempts {
        halted(IngestError::DatabaseUnreachable)
    } else {
        (StateView::Connecting { failures: failed }, ActionView::Connect { after_secs: BACKOFF_SECS })
    }
}

/// Catch-up begins after the top persisted height, or at zero where no
/// height is persisted, provided that the persisted heights are consistent.
pub open spec fn resuming(summary: Option<HeightSummary>) -> (StateView, ActionView) {
    match toprec_spec(summary) {
        Err(e) => halted(e),
        Ok(None) => (StateView::StartingCatchUp { height: 0 }, ActionView::LoadProposalIds),
        Ok(Some(top)) => if top == u64::MAX {
            halted(IngestError::HeightOverflow)
        } else {
            (
                StateView::StartingCatchUp { height: (top + 1) as u64 },
                ActionView::LoadProposalIds,
            )
        },
    }
}

/// The node is asked for the hash of the block at `height`.
pub open spec fn seeking(height: u64, ids: Seq<u64>) -> (StateView, ActionView) {
    (
        StateView::SeekingHash { height: height, ids: ids },
        ActionView::FetchBlockHash { height: height, command: getblockhash_text(height) },
    )
}

/// The scan of the block with the hash `hash` begins: the block is asked for.
pub open spec fn scanning(origin: OriginView, ids: Seq<u64>, hash: Seq<char>) -> (
    StateView,
    ActionView,
) {
    (
        StateView::Scanning {
            origin: origin,
            ids: ids,
            hash: hash,
            step: ScanStepView::FetchingBlock,
        },
        ActionView::FetchBlock { command: getblock_text(hash) },
    )
}

/// A notification came while the window stood at `window`: a hash that is
/// in the window is passed over, any other is scanned.
pub open spec fn notified(
    ids: Seq<u64>,
    window: Seq<Seq<char>>,
    msg: Result<Notification, String>,
) -> (StateView, ActionView) {
    match announced_hash(msg) {
        Err(e) => halted(e),
        Ok(hash) => if window.contains(hash@) {
            (StateView::Listening { ids: ids, window: window }, ActionView::AwaitNotification)
        } else {
            scanning(OriginView::Listen { window: window }, ids, hash@)
        },
    }
}

/// The block as it is when it comes from the node.
pub open spec fn fresh(block: BlockData) -> BlockView {
    BlockView { fetched: as_fetched(block), coldstaking: None, voting_info: None }
}

/// The pool of `block` is decided. The vote is read; where it calls for a
/// new proposal, the node is asked for the tally, else the block is written.
pub open spec fn classified(origin: OriginView, ids: Seq<u64>, hash: Seq<char>, block: BlockView) -> (
    StateView,
    ActionView,
) {
    match vote_of(block.fetched) {
        Err(e) => halted(e),
        Ok(voting_info) => {
            let voted = BlockView { voting_info: voting_info, ..block };
            match new_proposal_vote(block.fetched.height, voting_info, ids) {
                Some(vote) => (
                    StateView::Scanning {
                        origin: origin,
                        ids: ids,
                        hash: hash,
                        step: ScanStepView::Tallying { block: voted, vote: vote },
                    },
                    ActionView::TallyVotes { command: tallyvotes_text(vote.proposal_id) },
                ),
                None => (
                    StateView::Scanning {
                        origin: origin,
                        ids: ids,
                        hash: hash,
                        step: ScanStepView::SavingBlock,
                    },
                    ActionView::StoreBlock(voted),
                ),
            }
        },
    }
}

/// The block is written. Catch-up goes on with the next height; after a
/// notification the hash goes into the window, which is written.
pub open spec fn scanned(origin: OriginView, ids: Seq<u64>, hash: Seq<char>) -> (
    StateView,
    ActionView,
) {
    match origin {
        OriginView::CatchUp { height } => if height == u64::MAX {
            halted(IngestError::HeightOverflow)
        } else {
            seeking((height + 1) as u64, ids)
        },
        OriginView::Listen { window } => (
            StateView::SavingWindow { ids: ids, window: injected(window, hash) },
            ActionView::StoreDedupWindow(injected(window, hash)),
        ),
    }
}

/// One step of the scan of a block. A failure that a collaborator reports,
/// and an event that does not answer the pending action, end the scan and
/// halt the engine: nothing of the block is written then.
pub open spec fn scan_spec(
    config: Config,
    origin: OriginView,
    ids: Seq<u64>,
    hash: Seq<char>,
    step: ScanStepView,
    event: Event,
) -> (StateView, ActionView) {
    match (step, event) {
        (_, Event::Failed(failure)) => halted(IngestError::Upstream(failure)),
        (ScanStepView::FetchingBlock, Event::Block(block)) => match stake_address_of(block) {
            Err(e) => halted(e),
            Ok(None) => classified(origin, ids, hash, fresh(block)),
            Ok(Some(address)) => (
                StateView::Scanning {
                    origin: origin,
                    ids: ids,
                    hash: hash,
                    step: ScanStepView::ReadingCache { block: fresh(block), address: address@ },
                },
                ActionView::LoadStakeaddresses,
            ),
        },
        (ScanStepView::ReadingCache { block, address }, Event::Stakeaddresses(cache)) => match cached_pool(
            cache@,
            address,
        ) {
            Some(pool) => classified(
                origin,
                ids,
                hash,
                BlockView { coldstaking: Some(pool), ..block },
            ),
            None => (
                StateView::Scanning {
                    origin: origin,
                    ids: ids,
                    hash: hash,
                    step: ScanStepView::Validating { block: block, address: address },
                },
                ActionView::ValidateAddress { command: validateaddress_text(address) },
            ),
        },
        (ScanStepView::Validating { block, address }, Event::Validation(conclusion)) => {
            let entry = validated_entry(config.registry@, address, conclusion);
            (
                StateView::Scanning {
                    origin: origin,
                    ids: ids,
                    hash: hash,
                    step: ScanStepView::SavingStakeaddress {
                        block: BlockView { coldstaking: Some(entry.pool), ..block },
                    },
                },
                ActionView::StoreStakeaddress(entry),
            )
        },
        (ScanStepView::SavingStakeaddress { block }, Event::Stored) => classified(
            origin,
            ids,
            hash,
            block,
        ),
        (ScanStepView::Tallying { block, vote }, Event::Tally(tally)) => match proposal_of(
            vote,
            tally@,
        ) {
            Err(e) => halted(e),
            Ok(proposal) => (
                StateView::Scanning {
                    origin: origin,
                    ids: ids,
                    hash: hash,
                    step: ScanStepView::SavingProposal { block: block },
                },
                ActionView::StoreProposal(proposal),
            ),
        },
        (ScanStepView::SavingProposal { block }, Event::Stored) => (
            StateView::Scanning {
                origin: origin,
                ids: ids,
                hash: hash,
                step: ScanStepView::RefreshingIds { block: block },
            },
            ActionView::LoadProposalIds,
        ),
        (ScanStepView::RefreshingIds { block }, Event::ProposalIds(known)) => (
            StateView::Scanning {
                origin: origin,
                ids: known@,
                hash: hash,
                step: ScanStepView::SavingBlock,
            },
            ActionView::StoreBlock(block),
        ),
        (ScanStepView::SavingBlock, Event::Stored) => scanned(origin, ids, hash),
        _ => halted(IngestError::UnexpectedEvent),
    }
}

/// The window that listening starts with: the persisted one, or an empty
/// one where none is persisted.
pub open spec fn loaded_window(stored: Option<ProcessedBlocks>) -> Seq<Seq<char>> {
    match stored {
        Some(window) => window@,
        None => Seq::empty(),
    }
}

/// One step of the engine: the next state and the next action, for the
/// state that the engine is in and the event that the driver reports.
///
/// A halted engine stays halted. A failure that a collaborator reports
/// halts the engine, whatever it was doing. An event that does not answer
/// the pending action halts it too.
pub open spec fn step_spec(config: Config, state: StateView, event: Event) -> (
    StateView,
    ActionView,
) {
    match (state, event) {
        (StateView::Halted, _) => halted(IngestError::UnexpectedEvent),
        (_, Event::Failed(failure)) => halted(IngestError::Upstream(failure)),
        (StateView::Connecting { failures }, Event::Connected) => (
            StateView::CheckingHeights,
            ActionView::LoadHeights,
        ),
        (StateView::Connecting { failures }, Event::ConnectFailed) => reconnecting(
            config,
            failures,
        ),
        (StateView::CheckingHeights, Event::Heights(summary)) => resuming(summary),
        (StateView::StartingCatchUp { height }, Event::ProposalIds(known)) => seeking(
            height,
            known@,
        ),
        (StateView::SeekingHash { height, ids }, Event::BlockHash(Some(hash))) => scanning(
            OriginView::CatchUp { height: height },
            ids,
            hash@,
        ),
        (StateView::SeekingHash { height, ids }, Event::BlockHash(None)) => (
            StateView::StartingListen,
            ActionView::LoadProposalIds,
        ),
        (StateView::StartingListen, Event::ProposalIds(known)) => (
            StateView::LoadingWindow { ids: known@ },
            ActionView::LoadDedupWindow,
        ),
        (StateView::LoadingWindow { ids }, Event::DedupWindow(stored)) => (
            StateView::Listening { ids: ids, window: loaded_window(stored) },
            ActionView::Subscribe,
        ),
        (StateView::Listening { ids, window }, Event::Notification(msg)) => notified(
            ids,
            window,
            msg,
        ),
        (StateView::Scanning { origin, ids, hash, step }, event) => scan_spec(
            config,
            origin,
            ids,
            hash,
            step,
            event,
        ),
        (StateView::SavingWindow { ids, window }, Event::Stored) => (
            StateView::Listening { ids: ids, window: window },
            ActionView::AwaitNotification,
        ),
        _ => halted(IngestError::UnexpectedEvent),
    }
}

// ---------------------------------------------------------------------
// The engine
// ---------------------------------------------------------------------

fn halt(error: IngestError) -> (r: (State, Action))
    ensures
        (r.0@, r.1@) == halted(error),
{
    (State::Halted, Action::Halt(error))
}

fn seek(height: u64, ids: Vec<u64>) -> (r: (State, Action))
    ensures
        (r.0@, r.1@) == seeking(height, ids@),
{
    let command = getblockhash_command(height);
    (State::SeekingHash { height: height, ids: ids }, Action::FetchBlockHash { height: height, command: command })
}

fn begin_scan(origin: Origin, ids: Vec<u64>, hash: String) -> (r: (State, Action))
    ensures
        (r.0@, r.1@) == scanning(origin@, ids@, hash@),
{
    let command = getblock_command(hash.as_str());
    (
        State::Scanning { origin: origin, ids: ids, hash: hash, step: ScanStep::FetchingBlock },
        Action::FetchBlock { command: command },
    )
}

fn after_classification(origin: Origin, ids: Vec<u64>, hash: String, block: BlockData) -> (r: (
    State,
    Action,
))
    ensures
        (r.0@, r.1@) == classified(origin@, ids@, hash@, block@),
{
    let mut block = block;
    match block.read_vote() {
        Err(e) => halt(e),
        Ok(()) => match getnewproposal(&block, &ids) {
            Some(vote) => {
                let command = tallyvotes_command(vote.proposal_id);
                (
                    State::Scanning {
                        origin: origin,
                        ids: ids,
                        hash: hash,
                        step: ScanStep::Tallying { block: block, vote: vote },
                    },
                    Action::TallyVotes { command: command },
                )
            },
            None => (
                State::Scanning {
                    origin: origin,
                    ids: ids,
                    hash: hash,
                    step: ScanStep::SavingBlock,
                },
                Action::StoreBlock(block),
            ),
        },
    }
}

fn after_scan(origin: Origin, ids: Vec<u64>, hash: String) -> (r: (State, Action))
    ensures
        (r.0@, r.1@) == scanned(origin@, ids@, hash@),
{
    match origin {
        Origin::CatchUp { height } => if height == u64::MAX {
            halt(IngestError::HeightOverflow)
        } else {
            seek(height + 1, ids)
        },
        Origin::Listen { window } => {
            let mut window = window;
            window.inject(hash);
            let copy = window.clone();
            (State::SavingWindow { ids: ids, window: window }, Action::StoreDedupWindow(copy))
        },
    }
}

/// One step of the scan of a block: classification, vote extraction,
/// proposal detection, and at the end the write of the block.
pub fn scan(
    config: &Config,
    origin: Origin,
    ids: Vec<u64>,
    hash: String,
    step: ScanStep,
    event: Event,
) -> (r: (State, Action))
    ensures
        (r.0@, r.1@) == scan_spec(*config, origin@, ids@, hash@, step@, event),
{
    let event = match event {
        Event::Failed(failure) => {
            return halt(IngestError::Upstream(failure));
        },
        other => other,
    };
    match step {
        ScanStep::FetchingBlock => match event {
            Event::Block(fetched) => {
                let mut block = fetched;
                block.coldstaking = None;
                block.voting_info = None;
                match block.stake_address() {
                    Err(e) => halt(e),
                    Ok(None) => after_classification(origin, ids, hash, block),
                    Ok(Some(address)) => (
                        State::Scanning {
                            origin: origin,
                            ids: ids,
                            hash: hash,
                            step: ScanStep::ReadingCache { block: block, address: address },
                        },
                        Action::LoadStakeaddresses,
                    ),
                }
            },
            _ => halt(IngestError::UnexpectedEvent),
        },
        ScanStep::ReadingCache { block, address } => match event {
            Event::Stakeaddresses(cache) => match check_stakeaddress_in_db(
                address.as_str(),
                &cache,
            ) {
                Some(pool) => {
                    let mut block = block;
                    block.coldstaking = Some(pool);
                    after_classification(origin, ids, hash, block)
                },
                None => {
                    let command = validateaddress_command(address.as_str());
                    (
                        State::Scanning {
                            origin: origin,
                            ids: ids,
                            hash: hash,
                            step: ScanStep::Validating { block: block, address: address },
                        },
                        Action::ValidateAddress { command: command },
                    )
                },
            },
            _ => halt(IngestError::UnexpectedEvent),
        },
        ScanStep::Validating { block, address } => match event {
            Event::Validation(conclusion) => {
                let entry = validated_stakeaddress(address.as_str(), &conclusion, &config.registry);
                let mut block = block;
                block.coldstaking = Some(entry.pool.clone());
                (
                    State::Scanning {
                        origin: origin,
                        ids: ids,
                        hash: hash,
                        step: ScanStep::SavingStakeaddress { block: block },
                    },
                    Action::StoreStakeaddress(entry),
                )
            },
            _ => halt(IngestError::UnexpectedEvent),
        },
        ScanStep::SavingStakeaddress { block } => match event {
            Event::Stored => after_classification(origin, ids, hash, block),
            _ => halt(IngestError::UnexpectedEvent),
        },
        ScanStep::Tallying { block, vote } => match event {
            Event::Tally(tally) => match vote.gen_proposal(&tally) {
                Err(e) => halt(e),
                Ok(proposal) => (
                    State::Scanning {
                        origin: origin,
                        ids: ids,
                        hash: hash,
                        step: ScanStep::SavingProposal { block: block },
                    },
                    Action::StoreProposal(proposal),
                ),
            },
            _ => halt(IngestError::UnexpectedEvent),
        },
        ScanStep::SavingProposal { block } => match event {
            Event::Stored => (
                State::Scanning {
                    origin: origin,
                    ids: ids,
                    hash: hash,
                    step: ScanStep::RefreshingIds { block: block },
                },
                Action::LoadProposalIds,
            ),
            _ => halt(IngestError::UnexpectedEvent),
        },
        ScanStep::RefreshingIds { block } => match event {
            Event::ProposalIds(known) => (
                State::Scanning {
                    origin: origin,
                    ids: known,
                    hash: hash,
                    step: ScanStep::SavingBlock,
                },
                Action::StoreBlock(block),
            ),
            _ => halt(IngestError::UnexpectedEvent),
        },
        ScanStep::SavingBlock => match event {
            Event::Stored => after_scan(origin, ids, hash),
            _ => halt(IngestError::UnexpectedEvent),
        },
    }
}

/// The state that the engine starts in, and its first action: to reach the
/// database at once.
pub fn start() -> (r: (State, Action))
    ensures
        r.0@ == (StateView::Connecting { failures: 0 }),
        r.1@ == (ActionView::Connect { after_secs: 0 }),
{
    (State::Connecting { failures: 0 }, Action::Connect { after_secs: 0 })
}

/// One step of the engine.
pub fn step(config: &Config, state: State, event: Event) -> (r: (State, Action))
    ensures
        (r.0@, r.1@) == step_spec(*config, state@, event),
{
    match state {
        State::Halted => halt(IngestError::UnexpectedEvent),
        State::Connecting { failures } => match event {
            Event::Failed(failure) => halt(IngestError::Upstream(failure)),
            Event::Connected => (State::CheckingHeights, Action::LoadHeights),
            Event::ConnectFailed => {
                let failed = if failures < u32::MAX {
                    failures + 1
                } else {
                    failures
                };
                let give_up = match config.connect_attempts {
                    Some(attempts) => failed >= attempts,
                    None => false,
                };
                if give_up {
                    halt(IngestError::DatabaseUnreachable)
                } else {
                    (
                        State::Connecting { failures: failed },
                        Action::Connect { after_secs: BACKOFF_SECS },
                    )
                }
            },
            _ => halt(IngestError::UnexpectedEvent),
        },
        State::CheckingHeights => match event {
            Event::Failed(failure) => halt(IngestError::Upstream(failure)),
            Event::Heights(summary) => match toprec(summary) {
                Err(e) => halt(e),
                Ok(None) => (State::StartingCatchUp { height: 0 }, Action::LoadProposalIds),
                Ok(Some(top)) => if top == u64::MAX {
                    halt(IngestError::HeightOverflow)
                } else {
                    (State::StartingCatchUp { height: top + 1 }, Action::LoadProposalIds)
                },
            },
            _ => halt(IngestError::UnexpectedEvent),
        },
        State::StartingCatchUp { height } => match event {
            Event::Failed(failure) => halt(IngestError::Upstream(failure)),
            Event::ProposalIds(known) => seek(height, known),
            _ => halt(IngestError::UnexpectedEvent),
        },
        State::SeekingHash { height, ids } => match event {
            Event::Failed(failure) => halt(IngestError::Upstream(failure)),
            Event::BlockHash(Some(hash)) => begin_scan(
                Origin::CatchUp { height: height },
                ids,
                hash,
            ),
            Event::BlockHash(None) => (State::StartingListen, Action::LoadProposalIds),
            _ => halt(IngestError::UnexpectedEvent),
        },
        State::StartingListen => match event {
            Event::Failed(failure) => halt(IngestError::Upstream(failure)),
            Event::ProposalIds(known) => (
                State::LoadingWindow { ids: known },
                Action::LoadDedupWindow,
            ),
            _ => halt(IngestError::UnexpectedEvent),
        },
        State::LoadingWindow { ids } => match event {
            Event::Failed(failure) => halt(IngestError::Upstream(failure)),
            Event::DedupWindow(stored) => {
                let window = match stored {
                    Some(window) => window,
                    None => ProcessedBlocks::default(),
                };
                (State::Listening { ids: ids, window: window }, Action::Subscribe)
            },
            _ => halt(IngestError::UnexpectedEvent),
        },
        State::Listening { ids, window } => match event {
            Event::Failed(failure) => halt(IngestError::Upstream(failure)),
            Event::Notification(msg) => match gethash(msg) {
                Err(e) => halt(e),
                Ok(hash) => if window.contains(hash.as_str()) {
                    (State::Listening { ids: ids, window: window }, Action::AwaitNotification)
                } else {
                    begin_scan(Origin::Listen { window: window }, ids, hash)
                },
            },
            _ => halt(IngestError::UnexpectedEvent),
        },
        State::Scanning { origin, ids, hash, step } => scan(config, origin, ids, hash, step, event),
        State::SavingWindow { ids, window } => match event {
            Event::Failed(failure) => halt(IngestError::Upstream(failure)),
            Event::Stored => (
                State::Listening { ids: ids, window: window },
                Action::AwaitNotification,
            ),
            _ => halt(IngestError::UnexpectedEvent),
        },
    }
}

// ---------------------------------------------------------------------
// What the engine guarantees
// ---------------------------------------------------------------------

/// After a restart, catch-up begins right after the top persisted height:
/// that is the first height whose block hash the node is asked for. With
/// nothing persisted it begins at zero.
pub proof fn lemma_catchup_resumes_after_top(
    config: Config,
    summary: Option<HeightSummary>,
    known: Vec<u64>,
)
    requires
        summary matches Some(s) ==> consistent(s) && s.top < u64::MAX,
    ensures
        ({
            let first: u64 = match summary {
                Some(s) => (s.top + 1) as u64,
                None => 0,
            };
            &&& step_spec(config, StateView::CheckingHeights, Event::Heights(summary)) == (
                StateView::StartingCatchUp { height: first },
                ActionView::LoadProposalIds,
            )
            &&& step_spec(
                config,
                StateView::StartingCatchUp { height: first },
                Event::ProposalIds(known),
            ) == seeking(first, known@)
        }),
{
}

/// The lookup of an address gives the pool of the first entry for it.
pub proof fn lemma_cached_entry_is_found(cache: Seq<Stakeaddress>, at: int, address: Seq<char>)
    requires
        0 <= at < cache.len(),
        cache[at].raw@ == address,
        forall|j: int| 0 <= j < at ==> (#[trigger] cache[j]).raw@ != address,
    ensures
        cached_pool(cache, address) == Some(cache[at].pool@),
    decreases cache.len(),
{
    if at > 0 {
        assert(cache[0].raw@ != address);
        let rest = cache.drop_first();
        assert forall|j: int| 0 <= j < at - 1 implies (#[trigger] rest[j]).raw@ != address by {
            assert(rest[j] == cache[j + 1]);
        }
        lemma_cached_entry_is_found(rest, at - 1, address);
    }
}

/// A stake address is validated once. The first scan that meets it finds no
/// cache entry, asks the node, and writes the entry. Any later scan that
/// meets it finds that entry, since storage keeps one entry for each raw
/// address: it asks the node nothing and gives its block the very pool that
/// the first scan gave. A block that is scanned again after a restart, when
/// its stake address is cached already, goes on exactly as the first scan
/// went on after it had written the entry, so the same block is written.
pub proof fn lemma_stake_address_is_validated_once(
    config: Config,
    origin: OriginView,
    ids: Seq<u64>,
    hash: Seq<char>,
    block: BlockView,
    address: Seq<char>,
    cache: Vec<Stakeaddress>,
    conclusion: ValidationConclusion,
    later: Vec<Stakeaddress>,
    at: int,
)
    requires
        cached_pool(cache@, address) is None,
        0 <= at < later@.len(),
        later@[at]@ == validated_entry(config.registry@, address, conclusion),
        forall|j: int| 0 <= j < at ==> (#[trigger] later@[j]).raw@ != address,
    ensures
        ({
            let entry = validated_entry(config.registry@, address, conclusion);
            let reading = ScanStepView::ReadingCache { block: block, address: address };
            let validating = ScanStepView::Validating { block: block, address: address };
            let saving = ScanStepView::SavingStakeaddress {
                block: BlockView { coldstaking: Some(entry.pool), ..block },
            };
            let first = scan_spec(config, origin, ids, hash, reading, Event::Stakeaddresses(cache));
            let answered = scan_spec(
                config,
                origin,
                ids,
                hash,
                validating,
                Event::Validation(conclusion),
            );
            let again = scan_spec(config, origin, ids, hash, reading, Event::Stakeaddresses(later));
            &&& first == (
                StateView::Scanning { origin: origin, ids: ids, hash: hash, step: validating },
                ActionView::ValidateAddress { command: validateaddress_text(address) },
            )
            &&& answered == (
                StateView::Scanning { origin: origin, ids: ids, hash: hash, step: saving },
                ActionView::StoreStakeaddress(entry),
            )
            &&& again == classified(
                origin,
                ids,
                hash,
                BlockView { coldstaking: Some(entry.pool), ..block },
            )
            &&& again == scan_spec(config, origin, ids, hash, saving, Event::Stored)
            &&& !(again.1 is ValidateAddress)
        }),
{
    lemma_cached_entry_is_found(later@, at, address);
}

/// A scan depends on the cache only through what the cache holds for the
/// stake address of the block: with two caches that agree on that address
/// the scan goes on alike, so that a block that is scanned again with the
/// cache in the same state is classified, and written, as before.
pub proof fn lemma_same_cache_same_classification(
    config: Config,
    origin: OriginView,
    ids: Seq<u64>,
    hash: Seq<char>,
    block: BlockView,
    address: Seq<char>,
    one: Vec<Stakeaddress>,
    other: Vec<Stakeaddress>,
)
    requires
        cached_pool(one@, address) == cached_pool(other@, address),
    ensures
        scan_spec(
            config,
            origin,
            ids,
            hash,
            ScanStepView::ReadingCache { block: block, address: address },
            Event::Stakeaddresses(one),
        ) == scan_spec(
            config,
            origin,
            ids,
            hash,
            ScanStepView::ReadingCache { block: block, address: address },
            Event::Stakeaddresses(other),
        ),
{
}

/// A notification whose hash is in the window starts no scan: nothing is
/// fetched and nothing is written, and the engine goes on listening as it
/// was.
pub proof fn lemma_known_hash_is_passed_over(
    config: Config,
    ids: Seq<u64>,
    window: Seq<Seq<char>>,
    hash: String,
)
    requires
        window.contains(hash@),
    ensures
        step_spec(
            config,
            StateView::Listening { ids: ids, window: window },
            Event::Notification(Ok(Notification::HashBlock(hash))),
        ) == (StateView::Listening { ids: ids, window: window }, ActionView::AwaitNotification),
{
}

/// A block that was scanned off a notification is not scanned again: once
/// its block is written its hash is in the window, and the same hash is
/// passed over when it is announced once more.
pub proof fn lemma_scanned_hash_is_passed_over(
    config: Config,
    ids: Seq<u64>,
    window: Seq<Seq<char>>,
    hash: Seq<char>,
    again: String,
)
    requires
        again@ == hash,
    ensures
        ({
            let written = step_spec(
                config,
                StateView::Scanning {
                    origin: OriginView::Listen { window: window },
                    ids: ids,
                    hash: hash,
                    step: ScanStepView::SavingBlock,
                },
                Event::Stored,
            );
            let listening = step_spec(config, written.0, Event::Stored);
            &&& written.1 == ActionView::StoreDedupWindow(injected(window, hash))
            &&& listening == (
                StateView::Listening { ids: ids, window: injected(window, hash) },
                ActionView::AwaitNotification,
            )
            &&& step_spec(
                config,
                listening.0,
                Event::Notification(Ok(Notification::HashBlock(again))),
            ) == listening
        }),
{
    lemma_injected_contains(window, hash);
}

/// A vote on a proposal that is known creates none: the node is not asked
/// for a tally and no proposal is written, the block is written with its
/// vote. So a proposal is created at most once, however many blocks vote on
/// it.
pub proof fn lemma_known_proposal_is_not_tallied(
    origin: OriginView,
    ids: Seq<u64>,
    hash: Seq<char>,
    block: BlockView,
    vote: Vote,
)
    requires
        vote_of(block.fetched) == Ok::<Option<Vote>, IngestError>(Some(vote)),
        ids.contains(vote.proposal_id),
    ensures
        classified(origin, ids, hash, block) == (
            StateView::Scanning {
                origin: origin,
                ids: ids,
                hash: hash,
                step: ScanStepView::SavingBlock,
            },
            ActionView::StoreBlock(BlockView { voting_info: Some(vote), ..block }),
        ),
{
}

/// Catch-up goes from one height to the next, and only once the block is
/// written: the step that follows the write asks for the block right after
/// it, and no other step of a scan asks for the hash of any block.
pub proof fn lemma_catchup_advances_after_the_write(
    config: Config,
    origin: OriginView,
    ids: Seq<u64>,
    hash: Seq<char>,
    step: ScanStepView,
    event: Event,
)
    ensures
        (origin matches OriginView::CatchUp { height } && height < u64::MAX) ==> scan_spec(
            config,
            origin,
            ids,
            hash,
            ScanStepView::SavingBlock,
            Event::Stored,
        ) == seeking((origin->height + 1) as u64, ids),
        scan_spec(config, origin, ids, hash, step, event).1 is FetchBlockHash ==> step
            == ScanStepView::SavingBlock && event == Event::Stored,
{
}

/// Listening begins only when catch-up is over: the engine turns to the
/// notifications in the step in which the node has no block at the height
/// asked for, and in no other.
pub proof fn lemma_listening_begins_after_catchup(config: Config, state: StateView, event: Event)
    ensures
        step_spec(config, state, event).0 is StartingListen ==> state is SeekingHash && event
            == Event::BlockHash(None),
        step_spec(config, state, event).1 is Subscribe ==> state is LoadingWindow,
        step_spec(config, state, event).0 is LoadingWindow ==> state is StartingListen,
{
}

/// The write of the block is the last write of a scan: the scan then awaits
/// only that the write is durable. And a scan that fails writes no block.
pub proof fn lemma_block_is_written_last(
    config: Config,
    origin: OriginView,
    ids: Seq<u64>,
    hash: Seq<char>,
    step: ScanStepView,
    event: Event,
)
    ensures
        scan_spec(config, origin, ids, hash, step, event).1 is StoreBlock ==> scan_spec(
            config,
            origin,
            ids,
            hash,
            step,
            event,
        ).0 matches StateView::Scanning { step: ScanStepView::SavingBlock, .. },
        scan_spec(config, origin, ids, hash, step, event).0 is Halted ==> scan_spec(
            config,
            origin,
            ids,
            hash,
            step,
            event,
        ).1 is Halt,
{
}

/// Every window that the state holds is within the bound.
pub open spec fn windows_bounded(state: StateView) -> bool {
    match state {
        StateView::Listening { window, .. } => window.len() <= WINDOW,
        StateView::SavingWindow { window, .. } => window.len() <= WINDOW,
        StateView::Scanning { origin: OriginView::Listen { window }, .. } => window.len()
            <= WINDOW,
        _ => true,
    }
}

/// The window never holds more hashes than it keeps: if it is within the
/// bound before a step it is so after it, given that a window read from
/// storage is within the bound.
pub proof fn lemma_window_stays_bounded(config: Config, state: StateView, event: Event)
    requires
        windows_bounded(state),
        event matches Event::DedupWindow(Some(stored)) ==> stored.wf(),
    ensures
        windows_bounded(step_spec(config, state, event).0),
        step_spec(config, state, event).1 matches ActionView::StoreDedupWindow(window)
            ==> window.len() <= WINDOW,
{
    match state {
        StateView::Scanning { origin: OriginView::Listen { window }, hash, .. } => {
            lemma_injected_bounded(window, hash);
        },
        _ => {},
    }
}

} // verus!
