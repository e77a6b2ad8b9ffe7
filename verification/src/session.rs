//! One run of the program: the order of its steps, what it counts and what it
//! says.
//!
//! The steps themselves are performed by the caller. It asks a [`Session`] for
//! the next one, performs it, tells what was read, and asks again.

use std::sync::atomic::{AtomicBool, Ordering};
use vstd::prelude::*;

use crate::cli::{Cli, IoReadModeArg, KeepIndexMode};
use crate::input;
use crate::input::{resolve_io_read_mode, InputKind};
use crate::output::OutputTarget;

verus! {

/// How many bytes are decompressed at once where they are handed on unseen.
pub const FAST_PATH_READ_SIZE: usize = 256 * 1024 * 1024;

/// How many bytes are decompressed at once where they are looked at.
pub const STREAM_BUFFER_SIZE: usize = 1024 * 1024;

/// Whether the user has cancelled the run: what a relaxed load of the given flag
/// gives. The flag may be set at any time by another thread, so which of the two
/// answers that is remains open.
pub fn is_cancelled(flag: &AtomicBool) -> (r: bool)
    ensures
        call_ensures(AtomicBool::load, (flag, Ordering::Relaxed), r),
{
    flag.load(Ordering::Relaxed)
}

/// How often `byte` occurs in `data`.
pub open spec fn occurrences(data: Seq<u8>, byte: u8) -> nat
    decreases data.len(),
{
    if data.len() == 0 {
        0
    } else {
        occurrences(data.drop_last(), byte) + if data.last() == byte {
            1nat
        } else {
            0nat
        }
    }
}

/// `bytecount::count`: how often a byte occurs in a slice.
pub assume_specification[ bytecount::count ](haystack: &[u8], needle: u8) -> (r: usize)
    ensures
        r == occurrences(haystack@, needle),
;

/// A byte occurs in two pieces of data put together as often as in both of them.
pub proof fn law_counts_add_up(first: Seq<u8>, second: Seq<u8>, byte: u8)
    ensures
        occurrences(first + second, byte) == occurrences(first, byte) + occurrences(second, byte),
    decreases second.len(),
{
    if second.len() == 0 {
        assert(first + second =~= first);
    } else {
        law_counts_add_up(first, second.drop_last(), byte);
        assert((first + second).drop_last() =~= first + second.drop_last());
    }
}

/// A byte occurs at most as often as there are bytes.
pub proof fn lemma_occurrences_bound(data: Seq<u8>, byte: u8)
    ensures
        occurrences(data, byte) <= data.len(),
    decreases data.len(),
{
    if data.len() > 0 {
        lemma_occurrences_bound(data.drop_last(), byte);
    }
}

/// What is done with the decompressed data.
#[derive(Copy, Clone, Debug, PartialEq, Eq, Structural)]
pub enum Job {
    /// Its bytes are counted.
    CountBytes,
    /// Its newlines are counted.
    CountLines,
    /// It is discarded, and the throughput is measured.
    Benchmark,
    /// It is written out.
    Decompress,
}

/// What the command line asks to be done with the decompressed data.
pub open spec fn job_for(cli: Cli) -> Job {
    if cli.count {
        Job::CountBytes
    } else if cli.count_lines {
        Job::CountLines
    } else if cli.benchmark_only {
        Job::Benchmark
    } else {
        Job::Decompress
    }
}

/// What the command line asks to be done with the decompressed data.
pub fn job_of(cli: &Cli) -> (r: Job)
    ensures
        r == job_for(*cli),
{
    if cli.count {
        Job::CountBytes
    } else if cli.count_lines {
        Job::CountLines
    } else if cli.benchmark_only {
        Job::Benchmark
    } else {
        Job::Decompress
    }
}

/// Whether the native reader is told to keep its index or to drop it, if it is
/// told anything: an index that is imported or exported is kept by default.
pub open spec fn keep_index_for(cli: Cli) -> Option<bool> {
    match cli.keep_index {
        KeepIndexMode::Auto => if cli.import_index is Some || cli.export_index is Some {
            Some(true)
        } else {
            None
        },
        KeepIndexMode::On => Some(true),
        KeepIndexMode::Off => Some(false),
    }
}

/// How the native reader is set up.
#[derive(Copy, Clone, Debug, PartialEq, Eq, Structural)]
pub struct ReaderConfig {
    pub parallelism: u32,
    pub chunk_size: u64,
    pub io_read_mode: IoReadModeArg,
    /// Whether the index is kept; the default of the reader where absent.
    pub keep_index: Option<bool>,
}

/// Decides how the native reader is set up for the given input.
pub fn reader_config(cli: &Cli, input_kind: &InputKind) -> (r: ReaderConfig)
    ensures
        r.parallelism == cli.parallelism,
        r.chunk_size == cli.chunk_size,
        r.io_read_mode == input::effective_mode(*cli, *input_kind),
        r.keep_index == keep_index_for(*cli),
{
    let keep_index: Option<bool> = match cli.keep_index {
        KeepIndexMode::Auto => {
            if cli.import_index.is_some() || cli.export_index.is_some() {
                Some(true)
            } else {
                None
            }
        },
        KeepIndexMode::On => Some(true),
        KeepIndexMode::Off => Some(false),
    };
    ReaderConfig {
        parallelism: cli.parallelism,
        chunk_size: cli.chunk_size,
        io_read_mode: resolve_io_read_mode(cli, input_kind),
        keep_index,
    }
}

/// A step of a run, in the order in which the steps come.
#[derive(Copy, Clone, Debug, PartialEq, Eq, Structural)]
pub enum Phase {
    /// Nothing has been done yet.
    Start,
    /// Open the input.
    Open,
    /// Import the index.
    ImportIndex,
    /// Prepare the output file.
    PrepareOutput,
    /// Decompress the next piece of data.
    Read,
    /// Print what was counted.
    Report,
    /// Give up, because the user cancelled the run.
    Abort,
    /// Put the output file into place.
    FinalizeOutput,
    /// Print the throughput.
    Summarize,
    /// Export the index.
    ExportIndex,
    /// All is done.
    Finish,
}

impl Phase {
    /// The place of the step in the order.
    pub open spec fn rank(self) -> nat {
        match self {
            Phase::Start => 0,
            Phase::Open => 1,
            Phase::ImportIndex => 2,
            Phase::PrepareOutput => 3,
            Phase::Read => 4,
            Phase::Report => 5,
            Phase::Abort => 6,
            Phase::FinalizeOutput => 7,
            Phase::Summarize => 8,
            Phase::ExportIndex => 9,
            Phase::Finish => 10,
        }
    }

    /// Whether no step follows.
    pub open spec fn is_last(self) -> bool {
        self == Phase::Abort || self == Phase::Finish
    }

    /// Whether the step may follow `earlier`: it comes later, or it is the
    /// reading of another piece.
    pub open spec fn may_follow(self, earlier: Phase) -> bool {
        earlier.rank() < self.rank() || (self == Phase::Read && earlier == Phase::Read)
    }
}

/// What the caller has to do next.
#[derive(Copy, Clone, Debug, PartialEq, Eq, Structural)]
pub enum Action {
    /// Open the input.
    Open,
    /// Import the index.
    ImportIndex,
    /// Prepare the output file.
    PrepareOutput,
    /// Decompress the next piece of data.
    Read,
    /// Print this number.
    Report(u64),
    /// Discard the output and exit with this code.
    Abort(i32),
    /// Put the output file into place.
    FinalizeOutput,
    /// Print the throughput for this many bytes.
    Summarize(u64),
    /// Export the index.
    ExportIndex,
    /// Nothing.
    Finish,
}

/// A run of the program.
#[derive(Debug)]
pub struct Session {
    /// The step that was asked for last.
    pub phase: Phase,
    /// What is done with the decompressed data.
    pub job: Job,
    /// Whether an index is imported.
    pub imports: bool,
    /// Whether the output goes into a file.
    pub to_file: bool,
    /// Whether the throughput is printed.
    pub summarizes: bool,
    /// Whether the index is exported.
    pub exports: bool,
    /// Whether the decompressed data has ended.
    pub ended: bool,
    /// How many bytes were decompressed.
    pub total_bytes: u64,
    /// How many newlines were among them, where they are counted.
    pub line_count: u64,
}

impl Session {
    /// No more newlines were counted than bytes.
    pub open spec fn wf(self) -> bool {
        self.line_count <= self.total_bytes
    }

    /// Whether a step belongs to this run, where `cancelled` says whether the
    /// user has cancelled it.
    pub open spec fn wants(self, phase: Phase, cancelled: bool) -> bool {
        match phase {
            Phase::Start => false,
            Phase::Open => true,
            Phase::ImportIndex => self.imports,
            Phase::PrepareOutput => self.to_file,
            Phase::Read => !cancelled && !self.ended,
            Phase::Report => self.job == Job::CountBytes || self.job == Job::CountLines,
            Phase::Abort => cancelled,
            Phase::FinalizeOutput => self.to_file,
            Phase::Summarize => self.summarizes,
            Phase::ExportIndex => self.exports,
            Phase::Finish => true,
        }
    }

    /// Whether `phase` is the step that comes next: the first one that may
    /// follow and belongs to the run.
    pub open spec fn comes_next(self, phase: Phase, cancelled: bool) -> bool {
        &&& phase.may_follow(self.phase)
        &&& self.wants(phase, cancelled)
        &&& forall|other: Phase|
            #![trigger other.rank()]
            other.may_follow(self.phase) && self.wants(other, cancelled) ==> phase.rank()
                <= other.rank()
    }

    /// What the caller has to do for a step.
    pub open spec fn action(self, phase: Phase) -> Action {
        match phase {
            Phase::Start => Action::Finish,
            Phase::Open => Action::Open,
            Phase::ImportIndex => Action::ImportIndex,
            Phase::PrepareOutput => Action::PrepareOutput,
            Phase::Read => Action::Read,
            Phase::Report => Action::Report(
                if self.job == Job::CountLines {
                    self.line_count
                } else {
                    self.total_bytes
                },
            ),
            Phase::Abort => Action::Abort(1),
            Phase::FinalizeOutput => Action::FinalizeOutput,
            Phase::Summarize => Action::Summarize(self.total_bytes),
            Phase::ExportIndex => Action::ExportIndex,
            Phase::Finish => Action::Finish,
        }
    }

    /// The run after a piece of data has been read and its newlines counted.
    pub open spec fn after_data(self, data: Seq<u8>) -> Session {
        Session {
            ended: self.ended || data.len() == 0,
            total_bytes: (self.total_bytes + data.len()) as u64,
            line_count: (self.line_count + occurrences(data, 10)) as u64,
            ..self
        }
    }

    /// The run after the given pieces of data have been read, one by one.
    pub open spec fn after_all(self, pieces: Seq<Seq<u8>>) -> Session
        decreases pieces.len(),
    {
        if pieces.len() == 0 {
            self
        } else {
            self.after_all(pieces.drop_last()).after_data(pieces.last())
        }
    }

    /// Starts a run whose output goes to `target`.
    pub fn new(cli: &Cli, target: &OutputTarget) -> (r: Session)
        ensures
            r.wf(),
            r.phase == Phase::Start,
            r.job == job_for(*cli),
            r.imports == (cli.import_index is Some),
            r.to_file == (target is File),
            r.summarizes == (cli.benchmark_only || cli.verbose),
            r.exports == (cli.export_index is Some),
            !r.ended,
            r.total_bytes == 0,
            r.line_count == 0,
    {
        let to_file: bool = match target {
            OutputTarget::File(_) => true,
            _ => false,
        };
        Session {
            phase: Phase::Start,
            job: job_of(cli),
            imports: cli.import_index.is_some(),
            to_file,
            summarizes: cli.benchmark_only || cli.verbose,
            exports: cli.export_index.is_some(),
            ended: false,
            total_bytes: 0,
            line_count: 0,
        }
    }

    /// Tells what to do next, once what was asked for before has been done.
    /// `cancelled` says whether the user has cancelled the run.
    pub fn next(&mut self, cancelled: bool) -> (r: Action)
        requires
            old(self).wf(),
        ensures
            final(self).wf(),
            *final(self) == (Session { phase: final(self).phase, ..*old(self) }),
            old(self).phase.is_last() ==> final(self).phase == old(self).phase,
            !old(self).phase.is_last() ==> old(self).comes_next(final(self).phase, cancelled),
            r == old(self).action(final(self).phase),
    {
        let phase: Phase = self.next_phase(cancelled);
        self.phase = phase;
        match phase {
            Phase::Start => Action::Finish,
            Phase::Open => Action::Open,
            Phase::ImportIndex => Action::ImportIndex,
            Phase::PrepareOutput => Action::PrepareOutput,
            Phase::Read => Action::Read,
            Phase::Report => {
                if self.job == Job::CountLines {
                    Action::Report(self.line_count)
                } else {
                    Action::Report(self.total_bytes)
                }
            },
            Phase::Abort => Action::Abort(1),
            Phase::FinalizeOutput => Action::FinalizeOutput,
            Phase::Summarize => Action::Summarize(self.total_bytes),
            Phase::ExportIndex => Action::ExportIndex,
            Phase::Finish => Action::Finish,
        }
    }

    /// The step that comes next.
    fn next_phase(&self, cancelled: bool) -> (r: Phase)
        ensures
            self.phase.is_last() ==> r == self.phase,
            !self.phase.is_last() ==> self.comes_next(r, cancelled),
    {
        let mut phase: Phase = self.phase;
        if phase == Phase::Abort || phase == Phase::Finish {
            return phase;
        }
        if phase == Phase::Start {
            return Phase::Open;
        }
        if phase == Phase::Open {
            if self.imports {
                return Phase::ImportIndex;
            }
            phase = Phase::ImportIndex;
        }
        if phase == Phase::ImportIndex {
            if self.to_file {
                return Phase::PrepareOutput;
            }
            phase = Phase::PrepareOutput;
        }
        if phase == Phase::PrepareOutput || phase == Phase::Read {
            if !cancelled && !self.ended {
                return Phase::Read;
            }
            if self.job == Job::CountBytes || self.job == Job::CountLines {
                return Phase::Report;
            }
            phase = Phase::Report;
        }
        if phase == Phase::Report {
            if cancelled {
                return Phase::Abort;
            }
            if self.to_file {
                return Phase::FinalizeOutput;
            }
            phase = Phase::FinalizeOutput;
        }
        if phase == Phase::FinalizeOutput {
            if self.summarizes {
                return Phase::Summarize;
            }
            phase = Phase::Summarize;
        }
        if phase == Phase::Summarize {
            if self.exports {
                return Phase::ExportIndex;
            }
        }
        Phase::Finish
    }

    /// Takes in the length of a piece of data that was read and handed on; a
    /// length of zero says that the data has ended.
    pub fn on_chunk(&mut self, bytes: usize)
        requires
            old(self).wf(),
            old(self).total_bytes + bytes <= u64::MAX,
        ensures
            final(self).wf(),
            *final(self) == (Session {
                ended: old(self).ended || bytes == 0,
                total_bytes: (old(self).total_bytes + bytes) as u64,
                ..*old(self)
            }),
    {
        if bytes == 0 {
            self.ended = true;
        } else {
            self.total_bytes = self.total_bytes + bytes as u64;
        }
    }

    /// Takes in a piece of data that was read, and counts its newlines; an empty
    /// piece says that the data has ended.
    pub fn on_data(&mut self, data: &[u8])
        requires
            old(self).wf(),
            old(self).total_bytes + data@.len() <= u64::MAX,
        ensures
            final(self).wf(),
            *final(self) == old(self).after_data(data@),
    {
        proof {
            lemma_occurrences_bound(data@, 10);
        }
        let lines: usize = bytecount::count(data, 10);
        self.on_chunk(data.len());
        self.line_count = self.line_count + lines as u64;
    }

    /// Takes in that a piece of data could not be written out. Where the user
    /// has cancelled the run the data counts as ended; else the failure stands,
    /// and the result is true.
    pub fn on_write_failure(&mut self, cancelled: bool) -> (r: bool)
        requires
            old(self).wf(),
        ensures
            final(self).wf(),
            r == !cancelled,
            *final(self) == (Session {
                ended: old(self).ended || cancelled,
                ..*old(self)
            }),
    {
        if cancelled {
            self.ended = true;
        }
        !cancelled
    }
}

/// A run that is cancelled before its output is in place never puts it there:
/// no step behind the giving up comes next.
pub proof fn law_cancelled_run_keeps_no_output(session: Session, phase: Phase)
    requires
        session.phase.rank() < Phase::Abort.rank(),
        session.comes_next(phase, true),
    ensures
        phase != Phase::Read,
        phase.rank() <= Phase::Abort.rank(),
{
    assert(Phase::Abort.may_follow(session.phase));
    assert(Phase::Abort.rank() == 6);
}

/// The output is put into place only once all the data has been read.
pub proof fn law_output_is_complete(session: Session, phase: Phase)
    requires
        session.phase.rank() <= Phase::Read.rank(),
        session.comes_next(phase, false),
        phase.rank() > Phase::Read.rank(),
    ensures
        session.ended,
{
    assert(Phase::Read.may_follow(session.phase));
    assert(Phase::Read.rank() == 4);
}

/// At most one step comes next, so that the steps of a run are determined by
/// what was asked for, what was read and when the user cancelled.
pub proof fn law_next_step_is_determined(
    session: Session,
    one: Phase,
    other: Phase,
    cancelled: bool,
)
    requires
        session.comes_next(one, cancelled),
        session.comes_next(other, cancelled),
    ensures
        one == other,
{
    assert(one.rank() <= other.rank());
    assert(other.rank() <= one.rank());
}

/// All the pieces of some data put together.
pub open spec fn joined(pieces: Seq<Seq<u8>>) -> Seq<u8>
    decreases pieces.len(),
{
    if pieces.len() == 0 {
        Seq::empty()
    } else {
        joined(pieces.drop_last()) + pieces.last()
    }
}

/// What a run has counted depends on the data alone and not on how it was cut
/// into pieces: it is the number of bytes and of newlines in all of it.
pub proof fn law_counts_are_those_of_the_data(session: Session, pieces: Seq<Seq<u8>>)
    requires
        session.wf(),
        session.total_bytes + joined(pieces).len() <= u64::MAX,
    ensures
        session.after_all(pieces).total_bytes == session.total_bytes + joined(pieces).len(),
        session.after_all(pieces).line_count == session.line_count + occurrences(
            joined(pieces),
            10,
        ),
        session.after_all(pieces).wf(),
    decreases pieces.len(),
{
    if pieces.len() > 0 {
        let (front, last) = (pieces.drop_last(), pieces.last());
        law_counts_are_those_of_the_data(session, front);
        law_counts_add_up(joined(front), last, 10);
        lemma_occurrences_bound(last, 10);
    }
}

} // verus!
