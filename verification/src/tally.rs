//! Proposals and the reading of the node's vote tally.
//!
//! A tally is a list of members, each a label with the text of its value.
//! Four of them are bookkeeping; every other one is an outcome, whose text
//! reads `<count>%, <percentage>%`.

use vstd::prelude::*;
use vstd::string::StringExecFns;
use crate::console::{list_separator, separator, Vote};
use crate::error::IngestError;
use crate::text::{
    chars_of, decimal_digits, digits_ahead, float_text, is_float_text, parse_u64, parse_u64_spec,
    pieces, push_decimal, remove_char, same_text, split, string_of, trim, trimmed, unsigned, views,
    without,
};

verus! {

/// One member of the node's tally: its label and the text of its value.
#[derive(Debug, Clone, PartialEq, Eq)]
pub struct TallyEntry {
    pub label: String,
    pub raw: String,
}

/// The statistics of one outcome of a proposal. The percentage is kept as
/// the node wrote it, without the percent sign and the surrounding blanks:
/// a number in the grammar of the standard parser of floating-point numbers.
#[derive(Debug, Clone, PartialEq, Eq)]
pub struct Outcome {
    pub label: String,
    pub count: u64,
    pub percentage: String,
}

/// What an `Outcome` says.
pub struct OutcomeView {
    pub label: Seq<char>,
    pub count: u64,
    pub percentage: Seq<char>,
}

impl View for Outcome {
    type V = OutcomeView;

    open spec fn view(&self) -> OutcomeView {
        OutcomeView { label: self.label@, count: self.count, percentage: self.percentage@ }
    }
}

/// A proposal with the tally taken when it was first seen. No label occurs
/// twice among its outcomes, and every percentage is a number.
#[derive(Debug, Clone, PartialEq, Eq)]
pub struct Proposal {
    pub proposal_id: u64,
    pub stats: Vec<Outcome>,
}

/// What a `Proposal` says.
pub struct ProposalView {
    pub proposal_id: u64,
    pub stats: Seq<OutcomeView>,
}

impl View for Proposal {
    type V = ProposalView;

    open spec fn view(&self) -> ProposalView {
        ProposalView { proposal_id: self.proposal_id, stats: stats_view(self.stats@) }
    }
}

/// The proposal that a vote and the node's tally for it give.
pub open spec fn proposal_of(vote: Vote, tally: Seq<TallyEntry>) -> Result<ProposalView, IngestError> {
    match proposal_stats(tally) {
        Ok(stats) => Ok(ProposalView { proposal_id: vote.proposal_id, stats: stats }),
        Err(e) => Err(e),
    }
}

/// The views of a list of outcomes, element by element.
pub open spec fn stats_view(stats: Seq<Outcome>) -> Seq<OutcomeView> {
    Seq::new(stats.len(), |i: int| stats[i]@)
}

/// No label occurs twice.
pub open spec fn distinct_labels(stats: Seq<OutcomeView>) -> bool {
    forall|i: int, j: int|
        0 <= i < j < stats.len() ==> (#[trigger] stats[i]).label != (#[trigger] stats[j]).label
}

/// Every percentage is a text that reads as a number with a fraction.
pub open spec fn numeric_percentages(stats: Seq<OutcomeView>) -> bool {
    forall|i: int| 0 <= i < stats.len() ==> is_float_text((#[trigger] stats[i]).percentage)
}

impl Proposal {
    /// No label occurs twice among the outcomes, and every percentage is a
    /// number.
    pub open spec fn wf(&self) -> bool {
        distinct_labels(stats_view(self.stats@)) && numeric_percentages(stats_view(self.stats@))
    }
}

/// The height from which votes are tallied.
pub const TALLY_FROM: u64 = 616958;

/// The height up to which votes are tallied: beyond any block.
pub const TALLY_TO: u64 = 2147483647;

/// The command that asks the node for the tally of a proposal.
pub open spec fn tallyvotes_text(proposal_id: u64) -> Seq<char> {
    "tallyvotes "@ + decimal_digits(proposal_id as nat) + " "@ + decimal_digits(TALLY_FROM as nat)
        + " "@ + decimal_digits(TALLY_TO as nat)
}

/// The command that asks the node for the tally of a proposal.
pub fn tallyvotes_command(proposal_id: u64) -> (command: String)
    ensures
        command@ == tallyvotes_text(proposal_id),
{
    let mut command = "tallyvotes ".to_owned();
    push_decimal(&mut command, proposal_id);
    command.append(" ");
    push_decimal(&mut command, TALLY_FROM);
    command.append(" ");
    push_decimal(&mut command, TALLY_TO);
    command
}

// ---------------------------------------------------------------------
// What a tally means
// ---------------------------------------------------------------------

/// `text` without its double quotes.
pub open spec fn unquoted(text: Seq<char>) -> Seq<char> {
    without(text, '"')
}

/// The labels that are bookkeeping, not outcomes.
pub open spec fn is_bookkeeping(label: Seq<char>) -> bool {
    label == "proposal"@ || label == "blocks_counted"@ || label == "height_start"@ || label
        == "height_end"@
}

/// Some member of the tally has the label `label`, quotes apart.
pub open spec fn has_member(tally: Seq<TallyEntry>, label: Seq<char>) -> bool {
    exists|i: int| 0 <= i < tally.len() && unquoted(#[trigger] tally[i].label@) == label
}

/// All four bookkeeping members are there.
pub open spec fn complete(tally: Seq<TallyEntry>) -> bool {
    has_member(tally, "proposal"@) && has_member(tally, "blocks_counted"@) && has_member(
        tally,
        "height_start"@,
    ) && has_member(tally, "height_end"@)
}

/// The text of a count or a percentage: the percent signs and the blanks
/// at both ends taken off.
pub open spec fn number_text(token: Seq<char>) -> Seq<char> {
    trimmed(without(token, '%'))
}

/// The percentage of an outcome whose text gives none.
pub open spec fn no_percentage() -> Seq<char> {
    "0"@
}

/// The outcome that a label and the text of its value stand for. The text is
/// cut at `", "`: the first piece is the count, an unsigned integer; the
/// second, where there is one, the percentage, a number with a fraction,
/// else the percentage is zero. Further pieces are not read. `None` where
/// the count or the percentage is not such a number.
pub open spec fn outcome_of(label: Seq<char>, raw: Seq<char>) -> Option<OutcomeView> {
    let tokens = pieces(raw, list_separator());
    match parse_u64_spec(number_text(tokens[0])) {
        None => None,
        Some(count) => if tokens.len() < 2 {
            Some(OutcomeView { label: label, count: count, percentage: no_percentage() })
        } else if is_float_text(number_text(tokens[1])) {
            Some(OutcomeView { label: label, count: count, percentage: number_text(tokens[1]) })
        } else {
            None
        },
    }
}

/// The position of the first outcome labelled `label`, or the length of
/// `stats` where there is none.
pub open spec fn position_of(stats: Seq<OutcomeView>, label: Seq<char>) -> int
    decreases stats.len(),
{
    if stats.len() == 0 {
        0
    } else if stats.first().label == label {
        0
    } else {
        1 + position_of(stats.drop_first(), label)
    }
}

/// `stats` with `outcome` in the place of the outcome of the same label, or
/// at the end where there is none.
pub open spec fn upserted(stats: Seq<OutcomeView>, outcome: OutcomeView) -> Seq<OutcomeView> {
    let at = position_of(stats, outcome.label);
    if at < stats.len() {
        stats.update(at, outcome)
    } else {
        stats.push(outcome)
    }
}

/// The outcomes of a tally: its members but the bookkeeping ones, each label
/// and text without quotes, a later member replacing an earlier one of the
/// same label. `None` where the text of an outcome is not a count, or a
/// count and a percentage.
pub open spec fn outcomes_of(tally: Seq<TallyEntry>) -> Option<Seq<OutcomeView>>
    decreases tally.len(),
{
    if tally.len() == 0 {
        Some(Seq::empty())
    } else {
        let label = unquoted(tally.last().label@);
        match outcomes_of(tally.drop_last()) {
            None => None,
            Some(stats) => if is_bookkeeping(label) {
                Some(stats)
            } else {
                match outcome_of(label, unquoted(tally.last().raw@)) {
                    None => None,
                    Some(outcome) => Some(upserted(stats, outcome)),
                }
            },
        }
    }
}

/// The statistics that a tally gives to a proposal.
pub open spec fn proposal_stats(tally: Seq<TallyEntry>) -> Result<Seq<OutcomeView>, IngestError> {
    if !complete(tally) {
        Err(IngestError::IncompleteTally)
    } else {
        match outcomes_of(tally) {
            None => Err(IngestError::MalformedTally),
            Some(stats) => Ok(stats),
        }
    }
}

// ---------------------------------------------------------------------
// Lemmas
// ---------------------------------------------------------------------

/// `position_of` finds the first outcome of that label, if there is one.
pub proof fn lemma_position_of(stats: Seq<OutcomeView>, label: Seq<char>)
    ensures
        0 <= position_of(stats, label) <= stats.len(),
        position_of(stats, label) < stats.len() ==> stats[position_of(stats, label)].label
            == label,
        forall|i: int| 0 <= i < position_of(stats, label) ==> (#[trigger] stats[i]).label != label,
    decreases stats.len(),
{
    if stats.len() > 0 && stats.first().label != label {
        let rest = stats.drop_first();
        lemma_position_of(rest, label);
        assert forall|i: int| 0 <= i < position_of(stats, label) implies (#[trigger] stats[i]).label
            != label by {
            if i > 0 {
                assert(stats[i] == rest[i - 1]);
            }
        }
    }
}

/// Putting an outcome in keeps the labels distinct.
pub proof fn lemma_upserted_distinct(stats: Seq<OutcomeView>, outcome: OutcomeView)
    requires
        distinct_labels(stats),
    ensures
        distinct_labels(upserted(stats, outcome)),
{
    lemma_position_of(stats, outcome.label);
    let at = position_of(stats, outcome.label);
    let after = upserted(stats, outcome);
    assert forall|i: int, j: int| 0 <= i < j < after.len() implies (#[trigger] after[i]).label != (
    #[trigger] after[j]).label by {
        if at < stats.len() {
            assert(after[i].label == stats[i].label);
            assert(after[j].label == stats[j].label);
        } else {
            if j < stats.len() {
                assert(after[i] == stats[i]);
                assert(after[j] == stats[j]);
            } else {
                assert(after[i] == stats[i]);
                assert(stats[i].label != outcome.label);
            }
        }
    }
}

/// Zero, the percentage of an outcome that gives none, is a number.
pub proof fn lemma_no_percentage_is_numeric()
    ensures
        is_float_text(no_percentage()),
{
    reveal_strlit("0");
    reveal_with_fuel(digits_ahead, 2);
    let zero = no_percentage();
    assert(zero.len() == 1 && zero[0] == '0');
    assert(unsigned(zero) == zero);
    assert(zero.drop_first().len() == 0);
    assert(digits_ahead(zero) == 1);
    assert(zero.skip(1).len() == 0);
}

/// Putting an outcome with a numeric percentage in keeps the percentages
/// numeric.
pub proof fn lemma_upserted_numeric(stats: Seq<OutcomeView>, outcome: OutcomeView)
    requires
        numeric_percentages(stats),
        is_float_text(outcome.percentage),
    ensures
        numeric_percentages(upserted(stats, outcome)),
{
    lemma_position_of(stats, outcome.label);
    let after = upserted(stats, outcome);
    assert forall|i: int| 0 <= i < after.len() implies is_float_text(
        (#[trigger] after[i]).percentage,
    ) by {
        if after[i] != outcome {
            assert(after[i] == stats[i]);
        }
    }
}

/// The outcomes of a tally never hold a label twice, and their percentages
/// are numbers.
pub proof fn lemma_outcomes_well_formed(tally: Seq<TallyEntry>)
    ensures
        outcomes_of(tally) matches Some(stats) ==> distinct_labels(stats) && numeric_percentages(
            stats,
        ),
    decreases tally.len(),
{
    if tally.len() > 0 {
        lemma_outcomes_well_formed(tally.drop_last());
        let label = unquoted(tally.last().label@);
        match outcomes_of(tally.drop_last()) {
            None => {},
            Some(stats) => {
                if !is_bookkeeping(label) {
                    match outcome_of(label, unquoted(tally.last().raw@)) {
                        None => {},
                        Some(outcome) => {
                            lemma_no_percentage_is_numeric();
                            lemma_upserted_distinct(stats, outcome);
                            lemma_upserted_numeric(stats, outcome);
                        },
                    }
                }
            },
        }
    }
}

// ---------------------------------------------------------------------
// Reading a tally
// ---------------------------------------------------------------------

/// Takes the percent signs and the surrounding blanks off a token.
fn number_chars(token: &Vec<char>) -> (r: Vec<char>)
    ensures
        r@ == number_text(token@),
{
    let bare = remove_char(token, '%');
    trim(&bare)
}

/// Reads one outcome from its label and the text of its value, both
/// without quotes.
pub fn parse_tallyvotes_ratios(label: String, raw: &Vec<char>) -> (r: Option<Outcome>)
    ensures
        match outcome_of(label@, raw@) {
            Some(outcome) => r matches Some(read) && read@ == outcome,
            None => r is None,
        },
{
    let sep = separator();
    let tokens = split(raw, &sep);
    proof {
        assert(views(tokens@).len() == tokens@.len());
        assert(views(tokens@)[0] == tokens@[0]@);
        if tokens@.len() >= 2 {
            assert(views(tokens@)[1] == tokens@[1]@);
        }
    }
    let first = number_chars(&tokens[0]);
    match parse_u64(&first) {
        None => None,
        Some(count) => if tokens.len() < 2 {
            Some(Outcome { label: label, count: count, percentage: "0".to_owned() })
        } else {
            let second = number_chars(&tokens[1]);
            if float_text(&second) {
                Some(Outcome { label: label, count: count, percentage: string_of(&second) })
            } else {
                None
            }
        },
    }
}

/// Puts `outcome` in the place of the outcome of the same label, or at the
/// end where there is none.
pub fn upsert(stats: &mut Vec<Outcome>, outcome: Outcome)
    ensures
        stats_view(final(stats)@) == upserted(stats_view(old(stats)@), outcome@),
{
    let ghost before = stats_view(stats@);
    let mut i: usize = 0;
    assert(before.skip(0) == before);
    while i < stats.len()
        invariant
            i <= stats.len(),
            before == stats_view(old(stats)@),
            stats_view(stats@) == before,
            position_of(before, outcome@.label) == i + position_of(
                before.skip(i as int),
                outcome@.label,
            ),
        decreases stats.len() - i,
    {
        assert(before.skip(i as int).first() == stats@[i as int]@);
        assert(before.skip(i as int).drop_first() == before.skip(i + 1));
        if same_text(stats[i].label.as_str(), outcome.label.as_str()) {
            let ghost o = outcome@;
            stats.set(i, outcome);
            assert(stats_view(stats@) == before.update(i as int, o));
            return ;
        }
        i += 1;
    }
    let ghost o = outcome@;
    stats.push(outcome);
    assert(stats_view(stats@) == before.push(o));
}

/// Whether `label` is one of the four bookkeeping labels.
pub fn bookkeeping(label: &str) -> (b: bool)
    ensures
        b == is_bookkeeping(label@),
{
    same_text(label, "proposal") || same_text(label, "blocks_counted") || same_text(
        label,
        "height_start",
    ) || same_text(label, "height_end")
}

/// `text` without its double quotes.
pub fn unquote(text: &str) -> (r: Vec<char>)
    ensures
        r@ == unquoted(text@),
{
    let chars = chars_of(text);
    remove_char(&chars, '"')
}

/// Reads the statistics of a proposal out of the node's tally. The four
/// bookkeeping members must be there and are left out; every other member
/// must be a count, or a count and a percentage.
pub fn read_tally(tally: &Vec<TallyEntry>) -> (r: Result<Vec<Outcome>, IngestError>)
    ensures
        match proposal_stats(tally@) {
            Ok(stats) => r matches Ok(read) && stats_view(read@) == stats && distinct_labels(stats)
                && numeric_percentages(stats),
            Err(e) => r == Err::<Vec<Outcome>, IngestError>(e),
        },
{
    let mut stats: Vec<Outcome> = Vec::new();
    let mut malformed = false;
    let mut proposal = false;
    let mut blocks_counted = false;
    let mut height_start = false;
    let mut height_end = false;
    let mut i: usize = 0;
    assert(tally@.take(0) == Seq::<TallyEntry>::empty());
    assert(stats_view(stats@) == Seq::<OutcomeView>::empty());
    while i < tally.len()
        invariant
            i <= tally.len(),
            proposal == has_member(tally@.take(i as int), "proposal"@),
            blocks_counted == has_member(tally@.take(i as int), "blocks_counted"@),
            height_start == has_member(tally@.take(i as int), "height_start"@),
            height_end == has_member(tally@.take(i as int), "height_end"@),
            malformed <==> outcomes_of(tally@.take(i as int)) is None,
            !malformed ==> outcomes_of(tally@.take(i as int)) == Some(stats_view(stats@)),
        decreases tally.len() - i,
    {
        let ghost before = tally@.take(i as int);
        let ghost now = tally@.take(i + 1);
        assert(now.drop_last() == before);
        assert(now.last() == tally@[i as int]);
        let label_chars = unquote(tally[i].label.as_str());
        let label = string_of(&label_chars);
        proof {
            lemma_has_member_step(before, now, "proposal"@);
            lemma_has_member_step(before, now, "blocks_counted"@);
            lemma_has_member_step(before, now, "height_start"@);
            lemma_has_member_step(before, now, "height_end"@);
        }
        proposal = proposal || same_text(label.as_str(), "proposal");
        blocks_counted = blocks_counted || same_text(label.as_str(), "blocks_counted");
        height_start = height_start || same_text(label.as_str(), "height_start");
        height_end = height_end || same_text(label.as_str(), "height_end");
        if !malformed && !bookkeeping(label.as_str()) {
            let raw = unquote(tally[i].raw.as_str());
            match parse_tallyvotes_ratios(label, &raw) {
                None => {
                    malformed = true;
                },
                Some(outcome) => {
                    upsert(&mut stats, outcome);
                },
            }
        }
        i += 1;
    }
    assert(tally@.take(tally.len() as int) == tally@);
    proof {
        lemma_outcomes_well_formed(tally@);
    }
    if !(proposal && blocks_counted && height_start && height_end) {
        Err(IngestError::IncompleteTally)
    } else if malformed {
        Err(IngestError::MalformedTally)
    } else {
        Ok(stats)
    }
}

/// A member is among the first `n + 1` members if it is among the first `n`
/// or it is the last of them.
proof fn lemma_has_member_step(before: Seq<TallyEntry>, now: Seq<TallyEntry>, label: Seq<char>)
    requires
        now.len() > 0,
        now.drop_last() == before,
    ensures
        has_member(now, label) <==> has_member(before, label) || unquoted(now.last().label@)
            == label,
{
    if has_member(before, label) {
        let i = choose|i: int| 0 <= i < before.len() && unquoted(#[trigger] before[i].label@) == label;
        assert(now[i] == before[i]);
    }
    if unquoted(now.last().label@) == label {
        assert(now[now.len() - 1] == now.last());
    }
    if has_member(now, label) {
        let i = choose|i: int| 0 <= i < now.len() && unquoted(#[trigger] now[i].label@) == label;
        if i < before.len() {
            assert(now[i] == before[i]);
        }
    }
}

impl Vote {
    /// The proposal that this vote names, with the statistics read out of
    /// the node's tally for it.
    pub fn gen_proposal(&self, tally: &Vec<TallyEntry>) -> (r: Result<Proposal, IngestError>)
        ensures
            match proposal_of(*self, tally@) {
                Ok(view) => r matches Ok(proposal) && proposal@ == view && proposal.wf(),
                Err(e) => r == Err::<Proposal, IngestError>(e),
            },
    {
        match read_tally(tally) {
            Ok(stats) => Ok(Proposal { proposal_id: self.proposal_id, stats: stats }),
            Err(e) => Err(e),
        }
    }
}

} // verus!
