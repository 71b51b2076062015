//! The node's view of a block, and what the indexer reads out of it: the
//! stake address that decides the pool, and the embedded vote.
//!
//! Numbers that the node reports in binary floating point are carried as
//! their IEEE 754 binary64 bit patterns, untouched.

use vstd::prelude::*;
use vstd::string::StringExecFns;
use crate::error::IngestError;
use crate::pools::{resolve_pool, resolved_pool, Pool, PoolView, PrivatePool};
use crate::text::{
    chars_of, decimal_digits, parse_u64, parse_u64_spec, pieces, push_decimal, same_text, split,
    views,
};

verus! {

/// One block with its transactions, as the node decodes it, and the two
/// attributes that the indexer derives: the pool and the vote.
#[derive(Debug, Clone, PartialEq)]
pub struct BlockData {
    pub bits: String,
    pub blocksig: Option<String>,
    pub chainwork: String,
    /// Bit pattern of the difficulty.
    pub difficulty: u64,
    pub hash: String,
    pub hashproofofstake: Option<String>,
    pub height: u64,
    pub mediantime: u64,
    pub merkleroot: String,
    pub n_tx: u64,
    pub nonce: u64,
    pub previousblockhash: Option<String>,
    pub prevstakemodifier: Option<String>,
    pub size: u64,
    pub stakekernelblockhash: Option<String>,
    pub stakekernelscript: Option<String>,
    /// Bit pattern of the stake kernel value.
    pub stakekernelvalue: Option<u64>,
    pub strippedsize: u64,
    pub time: u64,
    pub tx: Vec<Transaction>,
    pub version: u64,
    pub version_hex: String,
    pub weight: u64,
    pub witnessmerkleroot: String,
    pub coldstaking: Option<Pool>,
    pub voting_info: Option<Vote>,
}

/// A cache entry: the pool that a raw stake address was resolved to.
#[derive(Debug, Clone, PartialEq)]
pub struct Stakeaddress {
    pub raw: String,
    pub pool: Pool,
}

/// What a `Stakeaddress` says.
pub struct StakeaddressView {
    pub raw: Seq<char>,
    pub pool: PoolView,
}

impl View for Stakeaddress {
    type V = StakeaddressView;

    open spec fn view(&self) -> StakeaddressView {
        StakeaddressView { raw: self.raw@, pool: self.pool@ }
    }
}

/// What a `BlockData` says: the block as the node gave it, and the two
/// derived attributes.
pub struct BlockView {
    pub fetched: BlockData,
    pub coldstaking: Option<PoolView>,
    pub voting_info: Option<Vote>,
}

/// The block as the node gave it: without a pool and without a vote.
pub open spec fn as_fetched(block: BlockData) -> BlockData {
    BlockData { coldstaking: None, voting_info: None, ..block }
}

impl View for BlockData {
    type V = BlockView;

    open spec fn view(&self) -> BlockView {
        BlockView {
            fetched: as_fetched(*self),
            coldstaking: match self.coldstaking {
                Some(pool) => Some(pool@),
                None => None,
            },
            voting_info: self.voting_info,
        }
    }
}

/// One transaction of a block, with its inputs and outputs in order.
#[derive(Debug, Clone, PartialEq)]
pub struct Transaction {
    pub txid: String,
    pub hash: String,
    pub version: u64,
    pub size: u64,
    pub vsize: u64,
    pub weight: u64,
    pub locktime: u64,
    pub hex: String,
    pub vin: Vec<Vin>,
    pub vout: Vec<Vout>,
}

/// A transaction output. The node does not tag the shape; a decoder tries
/// the shapes in the order in which they are declared here and takes the
/// first that fits.
#[derive(Debug, Clone, PartialEq)]
pub enum Vout {
    Data {
        n: u64,
        data_hex: String,
        smsgdifficulty: Option<String>,
        /// Bit pattern of the fee rate.
        smsgfeerate: Option<u64>,
        /// Bit pattern of the treasury fund carried forward.
        treasury_fund_cfwd: Option<u64>,
        vout_type: String,
        vote: Option<String>,
    },
    Standard {
        n: u64,
        vout_type: String,
        /// Bit pattern of the value.
        value: u64,
        valuesat: u64,
        scriptpubkey: ScriptPubKey,
    },
    Blind {
        n: u64,
        vout_type: String,
        pubkey: Option<String>,
        value_commitment: String,
        data_hex: String,
        rangeproof: String,
    },
    Anon {
        n: u64,
        vout_type: String,
        pubkey: Option<String>,
        value_commitment: String,
        data_hex: String,
        rangeproof: String,
    },
}

/// The locking script of a standard output, with the addresses that it
/// pays and the stake addresses that it names.
#[derive(Debug, Clone, PartialEq)]
pub struct ScriptPubKey {
    pub addresses: Option<Vec<String>>,
    pub stakeaddresses: Option<Vec<String>>,
    pub assembly: String,
    pub hex: String,
    pub req_sigs: Option<u64>,
    pub staking_type: String,
}

/// A transaction input; the shapes are tried in the order declared.
#[derive(Debug, Clone, PartialEq)]
pub enum Vin {
    Standard { txid: String, vout: u64, script_sig: ScriptSig },
    Anon {
        input_type: String,
        num_inputs: u64,
        ring_size: u64,
        txinwitness: Vec<String>,
        sequence: u64,
    },
}

/// The unlocking script of a standard input.
#[derive(Debug, Clone, PartialEq)]
pub struct ScriptSig {
    pub assembly: String,
    pub hex: String,
}

/// The node's answer to the validation of an address.
#[derive(Debug, Clone, PartialEq)]
pub struct ValidationConclusion {
    pub isvalid: bool,
    pub stakeonly_address: String,
}

/// A governance signal embedded in a block.
#[derive(Debug, Copy, Clone, PartialEq, Eq)]
pub struct Vote {
    pub proposal_id: u64,
    pub voted_for_option: u64,
}

/// The first block in which a vote was recorded. Proposals are looked for
/// from this height on.
pub const FIRST_VOTE_HEIGHT: u64 = 616959;

// ---------------------------------------------------------------------
// Commands sent to the node
// ---------------------------------------------------------------------

/// The command that asks for the hash of the block at `height`.
pub open spec fn getblockhash_text(height: u64) -> Seq<char> {
    "getblockhash "@ + decimal_digits(height as nat)
}

/// The command that asks for the hash of the block at `height`.
pub fn getblockhash_command(height: u64) -> (command: String)
    ensures
        command@ == getblockhash_text(height),
{
    let mut command = "getblockhash ".to_owned();
    push_decimal(&mut command, height);
    command
}

/// The command that asks for a block with its transactions decoded in full.
pub open spec fn getblock_text(blockhash: Seq<char>) -> Seq<char> {
    "getblock "@ + blockhash + " 2 true"@
}

/// The command that asks for a block with its transactions decoded in full.
pub fn getblock_command(blockhash: &str) -> (command: String)
    ensures
        command@ == getblock_text(blockhash@),
{
    let mut command = "getblock ".to_owned();
    command.append(blockhash);
    command.append(" 2 true");
    command
}

/// The command that asks the node to validate a stake address.
pub open spec fn validateaddress_text(stakeaddress: Seq<char>) -> Seq<char> {
    "validateaddress "@ + stakeaddress + " true"@
}

/// The command that asks the node to validate a stake address.
pub fn validateaddress_command(stakeaddress: &str) -> (command: String)
    ensures
        command@ == validateaddress_text(stakeaddress@),
{
    let mut command = "validateaddress ".to_owned();
    command.append(stakeaddress);
    command.append(" true");
    command
}

// ---------------------------------------------------------------------
// Stake-address classification
// ---------------------------------------------------------------------

/// The stake address that decides the pool of `block`: the first stake
/// address of the second output of the first transaction, which must be a
/// standard output. `Ok(None)` where that output names no stake addresses.
pub open spec fn stake_address_of(block: BlockData) -> Result<Option<String>, IngestError> {
    if block.tx@.len() == 0 || block.tx@[0].vout@.len() < 2 {
        Err(IngestError::MissingOutput)
    } else {
        match block.tx@[0].vout@[1] {
            Vout::Standard { scriptpubkey, .. } => match scriptpubkey.stakeaddresses {
                None => Ok(None),
                Some(list) => if list@.len() == 0 {
                    Err(IngestError::NoStakeAddress)
                } else {
                    Ok(Some(list@[0]))
                },
            },
            _ => Err(IngestError::UnexpectedOutput),
        }
    }
}

/// The pool of the first cache entry for the raw address `raw`.
pub open spec fn cached_pool(cache: Seq<Stakeaddress>, raw: Seq<char>) -> Option<PoolView>
    decreases cache.len(),
{
    if cache.len() == 0 {
        None
    } else if cache.first().raw@ == raw {
        Some(cache.first().pool@)
    } else {
        cached_pool(cache.drop_first(), raw)
    }
}

impl BlockData {
    /// The stake address that decides the pool of this block.
    pub fn stake_address(&self) -> (r: Result<Option<String>, IngestError>)
        ensures
            r == stake_address_of(*self),
    {
        if self.tx.len() == 0 {
            return Err(IngestError::MissingOutput);
        }
        if self.tx[0].vout.len() < 2 {
            return Err(IngestError::MissingOutput);
        }
        match &self.tx[0].vout[1] {
            Vout::Standard { scriptpubkey, .. } => match &scriptpubkey.stakeaddresses {
                None => Ok(None),
                Some(list) => if list.len() == 0 {
                    Err(IngestError::NoStakeAddress)
                } else {
                    Ok(Some(list[0].clone()))
                },
            },
            _ => Err(IngestError::UnexpectedOutput),
        }
    }
}

/// Looks a raw stake address up in the cache of validated addresses, by
/// exact match; the first entry for it decides.
pub fn check_stakeaddress_in_db(
    unchecked_raw_stakeaddress: &str,
    known_stakeaddresses: &Vec<Stakeaddress>,
) -> (hit: Option<Pool>)
    ensures
        match cached_pool(known_stakeaddresses@, unchecked_raw_stakeaddress@) {
            Some(pool) => hit matches Some(found) && found@ == pool,
            None => hit is None,
        },
{
    let mut i: usize = 0;
    assert(known_stakeaddresses@.skip(0) == known_stakeaddresses@);
    while i < known_stakeaddresses.len()
        invariant
            i <= known_stakeaddresses.len(),
            cached_pool(known_stakeaddresses@, unchecked_raw_stakeaddress@) == cached_pool(
                known_stakeaddresses@.skip(i as int),
                unchecked_raw_stakeaddress@,
            ),
        decreases known_stakeaddresses.len() - i,
    {
        let known = &known_stakeaddresses[i];
        assert(known_stakeaddresses@.skip(i as int).first() == *known);
        assert(known_stakeaddresses@.skip(i as int).drop_first() == known_stakeaddresses@.skip(
            i + 1,
        ));
        if same_text(known.raw.as_str(), unchecked_raw_stakeaddress) {
            return Some(known.pool.clone());
        }
        i += 1;
    }
    None
}

/// The cache entry for a raw stake address that the node has validated: the
/// address with the pool that its stake-only public key resolves to. The
/// node's answer is taken as it is.
pub open spec fn validated_entry(
    registry: Seq<PrivatePool>,
    stakeaddress: Seq<char>,
    conclusion: ValidationConclusion,
) -> StakeaddressView {
    StakeaddressView {
        raw: stakeaddress,
        pool: resolved_pool(registry, conclusion.stakeonly_address@),
    }
}

/// The cache entry for a raw stake address that the node has validated.
pub fn validated_stakeaddress(
    stakeaddress: &str,
    conclusion: &ValidationConclusion,
    registry: &Vec<PrivatePool>,
) -> (entry: Stakeaddress)
    ensures
        entry@ == validated_entry(registry@, stakeaddress@, *conclusion),
{
    Stakeaddress {
        raw: stakeaddress.to_owned(),
        pool: resolve_pool(registry, conclusion.stakeonly_address.as_str()),
    }
}

// ---------------------------------------------------------------------
// Vote extraction
// ---------------------------------------------------------------------

/// What separates the two numbers of a vote, and the count of an outcome
/// from its percentage.
pub open spec fn list_separator() -> Seq<char> {
    seq![',', ' ']
}

/// The vote that `text` writes: two unsigned integers separated by `", "`.
pub open spec fn parse_vote(text: Seq<char>) -> Result<Vote, IngestError> {
    let tokens = pieces(text, list_separator());
    if tokens.len() == 2 && parse_u64_spec(tokens[0]) is Some && parse_u64_spec(tokens[1]) is Some {
        Ok(
            Vote {
                proposal_id: parse_u64_spec(tokens[0])->0,
                voted_for_option: parse_u64_spec(tokens[1])->0,
            },
        )
    } else {
        Err(IngestError::MalformedVote)
    }
}

/// The vote string that `block` carries: that of the first output of the
/// first transaction, where it is a data output with a vote.
pub open spec fn vote_text_of(block: BlockData) -> Result<Option<String>, IngestError> {
    if block.tx@.len() == 0 || block.tx@[0].vout@.len() == 0 {
        Err(IngestError::MissingOutput)
    } else {
        match block.tx@[0].vout@[0] {
            Vout::Data { vote, .. } => Ok(vote),
            _ => Ok(None),
        }
    }
}

/// The vote that `block` carries, if any.
pub open spec fn vote_of(block: BlockData) -> Result<Option<Vote>, IngestError> {
    match vote_text_of(block) {
        Err(e) => Err(e),
        Ok(None) => Ok(None),
        Ok(Some(text)) => match parse_vote(text@) {
            Ok(vote) => Ok(Some(vote)),
            Err(e) => Err(e),
        },
    }
}

/// The separator of lists in the node's texts, `", "`.
pub fn separator() -> (sep: Vec<char>)
    ensures
        sep@ == list_separator(),
{
    let mut sep: Vec<char> = Vec::new();
    sep.push(',');
    sep.push(' ');
    sep
}

/// Reads a vote string.
pub fn vote_from_text(text: &str) -> (r: Result<Vote, IngestError>)
    ensures
        r == parse_vote(text@),
{
    let chars = chars_of(text);
    let sep = separator();
    let tokens = split(&chars, &sep);
    proof {
        assert(views(tokens@).len() == tokens@.len());
        if tokens@.len() == 2 {
            assert(views(tokens@)[0] == tokens@[0]@);
            assert(views(tokens@)[1] == tokens@[1]@);
        }
    }
    if tokens.len() != 2 {
        return Err(IngestError::MalformedVote);
    }
    match parse_u64(&tokens[0]) {
        None => Err(IngestError::MalformedVote),
        Some(proposal_id) => match parse_u64(&tokens[1]) {
            None => Err(IngestError::MalformedVote),
            Some(voted_for_option) => Ok(
                Vote { proposal_id: proposal_id, voted_for_option: voted_for_option },
            ),
        },
    }
}

impl BlockData {
    /// Reads the vote out of the first output of the first transaction and
    /// records it in the block. An output of another shape, or one without a
    /// vote string, means no vote. On an error the block is left as it was.
    pub fn read_vote(&mut self) -> (r: Result<(), IngestError>)
        ensures
            match vote_of(*old(self)) {
                Ok(vote) => r is Ok && *final(self) == (BlockData {
                    voting_info: vote,
                    ..*old(self)
                }),
                Err(e) => r == Err::<(), IngestError>(e) && *final(self) == *old(self),
            },
    {
        if self.tx.len() == 0 {
            return Err(IngestError::MissingOutput);
        }
        if self.tx[0].vout.len() == 0 {
            return Err(IngestError::MissingOutput);
        }
        let parsed: Option<Vote> = match &self.tx[0].vout[0] {
            Vout::Data { vote, .. } => match vote {
                Some(content) => match vote_from_text(content.as_str()) {
                    Ok(v) => Some(v),
                    Err(e) => {
                        return Err(e);
                    },
                },
                None => None,
            },
            _ => None,
        };
        self.voting_info = parsed;
        Ok(())
    }
}

// ---------------------------------------------------------------------
// Proposal detection
// ---------------------------------------------------------------------

/// The vote of a block for which a proposal has to be created: the block is
/// at or after the first vote height, it carries a vote, and the proposal
/// that the vote names is not among the known ones.
pub open spec fn new_proposal_vote(
    height: u64,
    voting_info: Option<Vote>,
    proposal_ids: Seq<u64>,
) -> Option<Vote> {
    if height >= FIRST_VOTE_HEIGHT {
        match voting_info {
            Some(vote) => if proposal_ids.contains(vote.proposal_id) {
                None
            } else {
                Some(vote)
            },
            None => None,
        }
    } else {
        None
    }
}

/// Whether `id` is among the known proposal identifiers.
pub fn is_known_proposal(proposal_ids: &Vec<u64>, id: u64) -> (known: bool)
    ensures
        known == proposal_ids@.contains(id),
{
    let mut i: usize = 0;
    while i < proposal_ids.len()
        invariant
            i <= proposal_ids.len(),
            forall|k: int| 0 <= k < i ==> proposal_ids@[k] != id,
        decreases proposal_ids.len() - i,
    {
        if proposal_ids[i] == id {
            return true;
        }
        i += 1;
    }
    false
}

/// Decides whether `blockdata` calls for a new proposal, and for which vote.
pub fn getnewproposal(blockdata: &BlockData, proposal_ids: &Vec<u64>) -> (vote: Option<Vote>)
    ensures
        vote == new_proposal_vote(blockdata.height, blockdata.voting_info, proposal_ids@),
{
    if blockdata.height >= FIRST_VOTE_HEIGHT {
        match blockdata.voting_info {
            Some(vote) => if is_known_proposal(proposal_ids, vote.proposal_id) {
                None
            } else {
                Some(vote)
            },
            None => None,
        }
    } else {
        None
    }
}

/// A proposal is created at most once: no block calls for a proposal whose
/// identifier is already known, however many blocks vote on it.
pub proof fn lemma_known_proposal_is_not_created_again(
    height: u64,
    vote: Vote,
    proposal_ids: Seq<u64>,
)
    requires
        proposal_ids.contains(vote.proposal_id),
    ensures
        new_proposal_vote(height, Some(vote), proposal_ids) is None,
{
}

} // verus!
