//! The move that each file calls for, the counters of a run, and the lines
//! that report both.

use vstd::prelude::*;
use vstd::string::*;
use crate::decimal::{decimal, decimal_string};
use crate::destination::{
    destination,
    destination_spec,
    directory,
    directory_spec,
    usable_timestamp,
    usable_timestamp_spec,
};
use crate::timestamp::{
    container_outcome,
    decoded_datetime_field,
    extract_timestamp,
    TimestampOutcome,
};

verus! {

/// How many files went to a dated bucket and how many to the unknown bucket.
#[derive(Clone, Copy, Debug, PartialEq, Eq, Structural)]
pub struct RunCounters {
    pub sorted: usize,
    pub unknown: usize,
}

/// One file to move: from `source` to `destination`, after `directory` and
/// its missing ancestors have been created.
#[derive(Clone, Debug, PartialEq, Eq)]
pub struct Relocation {
    pub source: String,
    pub directory: String,
    pub destination: String,
    pub dated: bool,
}

/// A discovered file together with the outcome of looking for its timestamp.
#[derive(Clone, Debug, PartialEq, Eq)]
pub struct Examined {
    pub source: String,
    pub file_name: String,
    pub outcome: TimestampOutcome,
}

/// Whether `relocation` is the move of the file at `source`, named
/// `file_name`, with outcome `outcome`, under the output root `root`.
pub open spec fn is_relocation_of(
    relocation: Relocation,
    root: Seq<char>,
    source: Seq<char>,
    file_name: Seq<char>,
    outcome: TimestampOutcome,
) -> bool {
    &&& relocation.source@ == source
    &&& relocation.directory@ == directory_spec(root, usable_timestamp_spec(outcome))
    &&& relocation.destination@ == destination_spec(
        root,
        usable_timestamp_spec(outcome),
        file_name,
    )
    &&& relocation.dated == (outcome is Decoded)
}

/// How many of `outcomes` carry a timestamp.
pub open spec fn dated_count(outcomes: Seq<TimestampOutcome>) -> nat
    decreases outcomes.len(),
{
    if outcomes.len() == 0 {
        0
    } else {
        dated_count(outcomes.drop_last()) + if outcomes.last() is Decoded {
            1nat
        } else {
            0nat
        }
    }
}

/// How many of `outcomes` carry no timestamp.
pub open spec fn unknown_count(outcomes: Seq<TimestampOutcome>) -> nat
    decreases outcomes.len(),
{
    if outcomes.len() == 0 {
        0
    } else {
        unknown_count(outcomes.drop_last()) + if outcomes.last() is Decoded {
            0nat
        } else {
            1nat
        }
    }
}

/// The outcomes of a list of examined files, in the list's order.
pub open spec fn outcomes_of(files: Seq<Examined>) -> Seq<TimestampOutcome> {
    Seq::new(files.len(), |i: int| files[i].outcome)
}

/// Every file falls in exactly one of the two buckets: the files with a
/// timestamp and the files without one add up to all files, and the counts
/// stay within the number of files.
pub proof fn every_file_in_one_bucket(outcomes: Seq<TimestampOutcome>)
    ensures
        dated_count(outcomes) + unknown_count(outcomes) == outcomes.len(),
        dated_count(outcomes) <= outcomes.len(),
        unknown_count(outcomes) <= outcomes.len(),
    decreases outcomes.len(),
{
    if outcomes.len() > 0 {
        every_file_in_one_bucket(outcomes.drop_last());
    }
}

/// Counting one more outcome adds one to the count of its bucket and leaves
/// the other count as it was.
pub proof fn counts_after_one_more(outcomes: Seq<TimestampOutcome>, next: TimestampOutcome)
    ensures
        dated_count(outcomes.push(next)) == dated_count(outcomes) + if next is Decoded {
            1nat
        } else {
            0nat
        },
        unknown_count(outcomes.push(next)) == unknown_count(outcomes) + if next is Decoded {
            0nat
        } else {
            1nat
        },
{
    assert(outcomes.push(next).drop_last() =~= outcomes);
}

impl RunCounters {
    /// The number of files counted so far.
    pub open spec fn processed(&self) -> nat {
        (self.sorted + self.unknown) as nat
    }

    /// Counters of a run in which no file has been processed.
    pub fn new() -> (counters: RunCounters)
        ensures
            counters.sorted == 0,
            counters.unknown == 0,
    {
        RunCounters { sorted: 0, unknown: 0 }
    }

    /// Counts one file: under `sorted` where its outcome carries a
    /// timestamp, under `unknown` where it does not.
    pub fn record(&mut self, outcome: TimestampOutcome)
        requires
            old(self).sorted < usize::MAX,
            old(self).unknown < usize::MAX,
        ensures
            final(self).sorted == old(self).sorted + if outcome is Decoded {
                1nat
            } else {
                0nat
            },
            final(self).unknown == old(self).unknown + if outcome is Decoded {
                0nat
            } else {
                1nat
            },
            final(self).processed() == old(self).processed() + 1,
    {
        match outcome {
            TimestampOutcome::Decoded(_) => {
                self.sorted = self.sorted + 1;
            },
            _ => {
                self.unknown = self.unknown + 1;
            },
        }
    }
}

/// The move that a file with this outcome calls for.
pub fn plan_relocation(
    output_root: &str,
    source: &str,
    file_name: &str,
    outcome: TimestampOutcome,
) -> (relocation: Relocation)
    ensures
        is_relocation_of(relocation, output_root@, source@, file_name@, outcome),
{
    let timestamp = usable_timestamp(outcome);
    Relocation {
        source: String::from_str(source),
        directory: directory(output_root, timestamp),
        destination: destination(output_root, timestamp, file_name),
        dated: timestamp.is_some(),
    }
}

/// Handles one file of a run: looks for the timestamp in its bytes, counts
/// the file, and returns the move to make. Bytes without a usable timestamp
/// send the file to the unknown bucket; nothing about them is an error.
pub fn process_file(
    output_root: &str,
    source: &str,
    file_name: &str,
    bytes: &[u8],
    counters: &mut RunCounters,
) -> (relocation: Relocation)
    requires
        old(counters).sorted < usize::MAX,
        old(counters).unknown < usize::MAX,
    ensures
        is_relocation_of(
            relocation,
            output_root@,
            source@,
            file_name@,
            container_outcome(decoded_datetime_field(bytes@)),
        ),
        final(counters).sorted == old(counters).sorted + if relocation.dated {
            1nat
        } else {
            0nat
        },
        final(counters).unknown == old(counters).unknown + if relocation.dated {
            0nat
        } else {
            1nat
        },
{
    let outcome = extract_timestamp(bytes);
    counters.record(outcome);
    plan_relocation(output_root, source, file_name, outcome)
}

/// Plans a whole run over files that have been examined: one move per file,
/// in the files' order, and the counters that the run ends with.
pub fn plan_batch(output_root: &str, files: &Vec<Examined>) -> (planned: (
    Vec<Relocation>,
    RunCounters,
))
    ensures
        planned.0.len() == files.len(),
        forall|i: int|
            0 <= i < files.len() ==> is_relocation_of(
                #[trigger] planned.0[i],
                output_root@,
                files[i].source@,
                files[i].file_name@,
                files[i].outcome,
            ),
        planned.1.sorted == dated_count(outcomes_of(files@)),
        planned.1.unknown == unknown_count(outcomes_of(files@)),
        planned.1.processed() == files.len(),
{
    let mut moves: Vec<Relocation> = Vec::new();
    let mut counters = RunCounters::new();
    let mut i: usize = 0;
    proof {
        assert(outcomes_of(files@).take(0) =~= Seq::<TimestampOutcome>::empty());
    }
    while i < files.len()
        invariant
            i <= files.len(),
            moves.len() == i,
            forall|j: int|
                0 <= j < i ==> is_relocation_of(
                    #[trigger] moves[j],
                    output_root@,
                    files[j].source@,
                    files[j].file_name@,
                    files[j].outcome,
                ),
            counters.sorted == dated_count(outcomes_of(files@).take(i as int)),
            counters.unknown == unknown_count(outcomes_of(files@).take(i as int)),
        decreases files.len() - i,
    {
        let file = &files[i];
        proof {
            let seen = outcomes_of(files@).take(i as int);
            every_file_in_one_bucket(seen);
            counts_after_one_more(seen, file.outcome);
            assert(outcomes_of(files@).take(i + 1) =~= seen.push(file.outcome));
        }
        counters.record(file.outcome);
        let relocation = plan_relocation(
            output_root,
            file.source.as_str(),
            file.file_name.as_str(),
            file.outcome,
        );
        moves.push(relocation);
        i = i + 1;
    }
    proof {
        assert(outcomes_of(files@).take(files.len() as int) =~= outcomes_of(files@));
        every_file_in_one_bucket(outcomes_of(files@));
    }
    (moves, counters)
}

/// The line that reports one move.
pub open spec fn moved_line_spec(file_name: Seq<char>, source: Seq<char>, destination: Seq<char>) -> Seq<
    char,
> {
    "Moved "@ + file_name + " from '"@ + source + "' to '"@ + destination + "'"@
}

/// The line that reports the totals of a run that took `seconds` seconds.
pub open spec fn summary_line_spec(counters: RunCounters, seconds: u64) -> Seq<char> {
    "Sorted "@ + decimal(counters.sorted as nat) + " photos with "@ + decimal(
        counters.unknown as nat,
    ) + " unknowns in "@ + decimal(seconds as nat) + " seconds."@
}

/// The line that reports how many files the walk found.
pub open spec fn fetched_line_spec(count: usize) -> Seq<char> {
    "Fetched "@ + decimal(count as nat) + " input files."@
}

/// Renders the count of the files found.
pub fn fetched_line(count: usize) -> (line: String)
    ensures
        line@ == fetched_line_spec(count),
{
    let found = decimal_string(count as u64);
    let mut line = String::from_str("Fetched ");
    line.append(found.as_str());
    line.append(" input files.");
    line
}

/// Renders the report of one move.
pub fn moved_line(relocation: &Relocation, file_name: &str) -> (line: String)
    ensures
        line@ == moved_line_spec(file_name@, relocation.source@, relocation.destination@),
{
    let mut line = String::from_str("Moved ");
    line.append(file_name);
    line.append(" from '");
    line.append(relocation.source.as_str());
    line.append("' to '");
    line.append(relocation.destination.as_str());
    line.append("'");
    line
}

/// Renders the summary of a run.
pub fn summary_line(counters: &RunCounters, seconds: u64) -> (line: String)
    ensures
        line@ == summary_line_spec(*counters, seconds),
{
    let sorted = decimal_string(counters.sorted as u64);
    let unknown = decimal_string(counters.unknown as u64);
    let elapsed = decimal_string(seconds);
    let mut line = String::from_str("Sorted ");
    line.append(sorted.as_str());
    line.append(" photos with ");
    line.append(unknown.as_str());
    line.append(" unknowns in ");
    line.append(elapsed.as_str());
    line.append(" seconds.");
    line
}

} // verus!
