//! What every call that steers a run gives: which step comes next, what is counted,
//! and what is printed.

use vstd::prelude::*;

use crate::cli::{Cli, IoReadModeArg};
use crate::input::{resolve_io_read_mode, InputKind};
use crate::output::OutputTarget;
use crate::session;
use crate::session::{
    job_of, reader_config, Action, Job, Phase, ReaderConfig, Session, FAST_PATH_READ_SIZE,
    STREAM_BUFFER_SIZE,
};

verus! {

/// How many of the bytes are newlines.
pub open spec fn newlines(data: Seq<u8>) -> nat {
    data.filter(|byte: u8| byte == 10).len()
}

/// Counting byte by byte finds as many newlines as there are.
proof fn lemma_newlines(data: Seq<u8>)
    ensures
        session::occurrences(data, 10) == newlines(data),
    decreases data.len(),
{
    let is_newline = |byte: u8| byte == 10;
    reveal(Seq::filter);
    if data.len() == 0 {
        assert(data.filter(is_newline).len() == 0);
    } else {
        lemma_newlines(data.drop_last());
        assert(data.filter(is_newline) == if is_newline(data.last()) {
            data.drop_last().filter(is_newline).push(data.last())
        } else {
            data.drop_last().filter(is_newline)
        });
    }
}

/// What is done with the data is what the command line asks for: counting bytes
/// before counting lines, and both before measuring.
pub proof fn law_jobs_are_those_asked_for(cli: &Cli, r: Job)
    requires
        call_ensures(job_of, (cli,), r),
    ensures
        r is CountBytes <==> cli.count,
        r is CountLines <==> cli.count_lines && !cli.count,
        r is Benchmark <==> cli.benchmark_only && !cli.count && !cli.count_lines,
        r is Decompress <==> !cli.benchmark_only && !cli.count && !cli.count_lines,
{
}

/// A run starts with nothing done and nothing counted. It imports and exports an
/// index exactly if the command line asks for that, puts a file into place exactly
/// if the output goes into one, and prints the throughput where that is measured
/// or all details are wanted.
pub proof fn law_runs_do_what_is_asked_for(
    cli: &Cli,
    target: &OutputTarget,
    job: Job,
    r: Session,
)
    requires
        call_ensures(Session::new, (cli, target), r),
        call_ensures(job_of, (cli,), job),
    ensures
        r.wf(),
        r.phase is Start,
        r.job == job,
        r.imports <==> cli.import_index is Some,
        r.exports <==> cli.export_index is Some,
        r.to_file <==> *target is File,
        r.summarizes <==> cli.benchmark_only || cli.verbose,
        !r.ended,
        r.total_bytes == 0,
        r.line_count == 0,
{
}

/// The native reader gets the numbers of the command line and the mode in which
/// the input is read. It keeps its index where the user wants that, or where an
/// index is imported or exported and the user does not mind.
pub proof fn law_reader_is_set_up_as_asked_for(
    cli: &Cli,
    kind: &InputKind,
    mode: IoReadModeArg,
    r: ReaderConfig,
)
    requires
        call_ensures(reader_config, (cli, kind), r),
        call_ensures(resolve_io_read_mode, (cli, kind), mode),
    ensures
        r.parallelism == cli.parallelism,
        r.chunk_size == cli.chunk_size,
        r.io_read_mode == mode,
        r.keep_index == Some(true) <==> cli.keep_index is On || (cli.keep_index is Auto && (
        cli.import_index is Some || cli.export_index is Some)),
        r.keep_index == Some(false) <==> cli.keep_index is Off,
        r.keep_index is None <==> cli.keep_index is Auto && cli.import_index is None
            && cli.export_index is None,
{
}

/// A piece of data is never asked for empty, which would count as the end of the
/// data: 256 MiB are asked for unseen, and 1 MiB to be looked at.
pub proof fn law_pieces_have_room()
    ensures
        FAST_PATH_READ_SIZE == 0x1000_0000,
        STREAM_BUFFER_SIZE == 0x10_0000,
{
}

/// Going on changes nothing of a run but the step, and the caller has to do what
/// the step says. A finished or cancelled run stays where it is.
pub proof fn law_going_on_changes_the_step_only(s: &mut Session, cancelled: bool, r: Action)
    requires
        old(s).wf(),
        call_ensures(Session::next, (s, cancelled), r),
    ensures
        final(s).job == old(s).job,
        final(s).imports == old(s).imports,
        final(s).to_file == old(s).to_file,
        final(s).summarizes == old(s).summarizes,
        final(s).exports == old(s).exports,
        final(s).ended == old(s).ended,
        final(s).total_bytes == old(s).total_bytes,
        final(s).line_count == old(s).line_count,
        old(s).phase is Finish || old(s).phase is Abort ==> final(s).phase == old(s).phase,
        r is Open <==> final(s).phase is Open,
        r is ImportIndex <==> final(s).phase is ImportIndex,
        r is PrepareOutput <==> final(s).phase is PrepareOutput,
        r is Read <==> final(s).phase is Read,
        r is Report <==> final(s).phase is Report,
        r is Abort <==> final(s).phase is Abort,
        r is FinalizeOutput <==> final(s).phase is FinalizeOutput,
        r is Summarize <==> final(s).phase is Summarize,
        r is ExportIndex <==> final(s).phase is ExportIndex,
        r is Finish <==> final(s).phase is Finish,
{
    lemma_first_step(*s, cancelled);
}

/// What is printed is the number of newlines where lines are counted and the
/// number of bytes where bytes are, whatever else is asked for; the throughput is
/// that of all bytes; and a cancelled run exits with one.
pub proof fn law_the_right_number_is_printed(s: &mut Session, cancelled: bool, r: Action)
    requires
        old(s).wf(),
        call_ensures(Session::next, (s, cancelled), r),
    ensures
        r is Report && old(s).job is CountLines ==> r->Report_0 == old(s).line_count,
        r is Report && old(s).job is CountBytes ==> r->Report_0 == old(s).total_bytes,
        r is Summarize ==> r->Summarize_0 == old(s).total_bytes,
        r is Abort ==> r->Abort_0 == 1,
{
}

/// The number that a counting run prints, once it has read some pieces of data and
/// nothing else, is the number of newlines or of bytes in all of them.
pub proof fn law_printed_counts_are_those_of_the_data(
    first: Session,
    pieces: Seq<Seq<u8>>,
    s: &mut Session,
    cancelled: bool,
    r: Action,
)
    requires
        first.wf(),
        first.total_bytes == 0,
        first.line_count == 0,
        session::joined(pieces).len() <= u64::MAX,
        *old(s) == first.after_all(pieces),
        call_ensures(Session::next, (s, cancelled), r),
        r is Report,
    ensures
        first.job is CountLines ==> r->Report_0 == newlines(session::joined(pieces)),
        first.job is CountBytes ==> r->Report_0 == session::joined(pieces).len(),
{
    session::law_counts_are_those_of_the_data(first, pieces);
    lemma_newlines(session::joined(pieces));
    lemma_job_stays(first, pieces);
}

/// Reading changes nothing of what a run is asked to do.
proof fn lemma_job_stays(first: Session, pieces: Seq<Seq<u8>>)
    ensures
        first.after_all(pieces).job == first.job,
    decreases pieces.len(),
{
    if pieces.len() > 0 {
        lemma_job_stays(first, pieces.drop_last());
    }
}

/// A piece of data adds its length and its newlines to the counts, and an empty one
/// ends the data; nothing else changes.
pub proof fn law_data_is_counted(s: &mut Session, data: &[u8])
    requires
        old(s).wf(),
        old(s).total_bytes + data@.len() <= u64::MAX,
        call_ensures(Session::on_data, (s, data), ()),
    ensures
        final(s).total_bytes - old(s).total_bytes == data@.len(),
        final(s).line_count - old(s).line_count == newlines(data@),
        final(s).ended <==> old(s).ended || data@.len() == 0,
        *final(s) == (Session {
            total_bytes: final(s).total_bytes,
            line_count: final(s).line_count,
            ended: final(s).ended,
            ..*old(s)
        }),
{
    lemma_newlines(data@);
    session::lemma_occurrences_bound(data@, 10);
}

/// A chunk that is handed on unseen adds its length, and an empty one ends the
/// data; nothing else changes. A failure to write counts exactly if the run is not
/// cancelled, and else ends the data.
pub proof fn law_chunks_are_counted(
    s: &mut Session,
    bytes: usize,
    t: &mut Session,
    cancelled: bool,
    stands: bool,
)
    requires
        old(s).wf(),
        old(s).total_bytes + bytes <= u64::MAX,
        call_ensures(Session::on_chunk, (s, bytes), ()),
        old(t).wf(),
        call_ensures(Session::on_write_failure, (t, cancelled), stands),
    ensures
        final(s).total_bytes - old(s).total_bytes == bytes,
        final(s).ended <==> old(s).ended || bytes == 0,
        *final(s) == (Session {
            total_bytes: final(s).total_bytes,
            ended: final(s).ended,
            ..*old(s)
        }),
        stands <==> !cancelled,
        final(t).ended <==> old(t).ended || cancelled,
        *final(t) == (Session { ended: final(t).ended, ..*old(t) }),
{
}

/// Whether data may still be read after a step: nothing has been reported or put
/// into place yet.
pub open spec fn before_the_end_of_reading(phase: Phase) -> bool {
    phase is Open || phase is ImportIndex || phase is PrepareOutput || phase is Read
}

/// Whether a step comes only once a run is known not to be cancelled.
pub open spec fn behind_success(phase: Phase) -> bool {
    phase is FinalizeOutput || phase is Summarize || phase is ExportIndex || phase is Finish
}

/// The steps that a run wants, as facts on the next one.
proof fn lemma_first_step(s: Session, cancelled: bool)
    ensures
        forall|next: Phase|
            #![trigger s.comes_next(next, cancelled)]
            s.comes_next(next, cancelled) ==> {
                &&& next.rank() <= 10
                &&& s.phase is Start ==> next is Open
                &&& s.imports && s.phase.rank() < 2 ==> next.rank() <= 2
                &&& s.to_file && s.phase.rank() < 3 ==> next.rank() <= 3
                &&& !cancelled && !s.ended && s.phase.rank() <= 4 ==> next.rank() <= 4
                &&& (s.job is CountBytes || s.job is CountLines) && s.phase.rank() < 5
                    ==> next.rank() <= 5
                &&& cancelled && s.phase.rank() < 6 ==> next.rank() <= 6
                &&& s.to_file && s.phase.rank() < 7 ==> next.rank() <= 7
                &&& s.summarizes && s.phase.rank() < 8 ==> next.rank() <= 8
                &&& s.exports && s.phase.rank() < 9 ==> next.rank() <= 9
            },
{
    assert forall|next: Phase|
        #![trigger s.comes_next(next, cancelled)]
        s.comes_next(next, cancelled) implies {
        &&& next.rank() <= 10
        &&& s.phase is Start ==> next is Open
        &&& s.imports && s.phase.rank() < 2 ==> next.rank() <= 2
        &&& s.to_file && s.phase.rank() < 3 ==> next.rank() <= 3
        &&& !cancelled && !s.ended && s.phase.rank() <= 4 ==> next.rank() <= 4
        &&& (s.job is CountBytes || s.job is CountLines) && s.phase.rank() < 5 ==> next.rank() <= 5
        &&& cancelled && s.phase.rank() < 6 ==> next.rank() <= 6
        &&& s.to_file && s.phase.rank() < 7 ==> next.rank() <= 7
        &&& s.summarizes && s.phase.rank() < 8 ==> next.rank() <= 8
        &&& s.exports && s.phase.rank() < 9 ==> next.rank() <= 9
    } by {
        assert(Phase::Open.rank() == 1);
        assert(Phase::ImportIndex.rank() == 2);
        assert(Phase::PrepareOutput.rank() == 3);
        assert(Phase::Read.rank() == 4);
        assert(Phase::Report.rank() == 5);
        assert(Phase::Abort.rank() == 6);
        assert(Phase::FinalizeOutput.rank() == 7);
        assert(Phase::Summarize.rank() == 8);
        assert(Phase::ExportIndex.rank() == 9);
        assert(Phase::Finish.rank() == 10);
    }
}

/// A run begins with the opening of its input. Then an index is imported exactly
/// if one is to be, and then a file prepared exactly if the output goes into one,
/// both before anything is read.
pub proof fn law_input_and_output_are_made_ready_first(
    s: &mut Session,
    cancelled: bool,
    r: Action,
)
    requires
        old(s).wf(),
        call_ensures(Session::next, (s, cancelled), r),
    ensures
        r is Open <==> old(s).phase is Start,
        r is ImportIndex <==> old(s).phase is Open && old(s).imports,
        r is PrepareOutput <==> old(s).to_file && (old(s).phase is ImportIndex || (
        old(s).phase is Open && !old(s).imports)),
{
    lemma_first_step(*s, cancelled);
}

/// Once all is ready, data is read as long as it has not ended and the run is not
/// cancelled, and never else.
pub proof fn law_reading_goes_on_until_the_end(s: &mut Session, cancelled: bool, r: Action)
    requires
        old(s).wf(),
        call_ensures(Session::next, (s, cancelled), r),
    ensures
        r is Read <==> {
            &&& !cancelled
            &&& !old(s).ended
            &&& before_the_end_of_reading(old(s).phase)
            &&& !(r is ImportIndex)
            &&& !(r is PrepareOutput)
        },
{
    lemma_first_step(*s, cancelled);
}

/// A counting run prints what it counted exactly once, when it reads no more,
/// even if it is cancelled; no other run prints a count.
pub proof fn law_counts_are_printed_once(s: &mut Session, cancelled: bool, r: Action)
    requires
        old(s).wf(),
        call_ensures(Session::next, (s, cancelled), r),
    ensures
        r is Report <==> {
            &&& old(s).job is CountBytes || old(s).job is CountLines
            &&& before_the_end_of_reading(old(s).phase)
            &&& cancelled || old(s).ended
            &&& !(r is ImportIndex)
            &&& !(r is PrepareOutput)
        },
{
    lemma_first_step(*s, cancelled);
}

/// A run is given up exactly if it is found cancelled once it reads no more and has
/// printed what it has to: nothing is then put into place, measured or exported.
pub proof fn law_cancelled_runs_are_given_up(s: &mut Session, cancelled: bool, r: Action)
    requires
        old(s).wf(),
        !(old(s).phase is Abort),
        call_ensures(Session::next, (s, cancelled), r),
    ensures
        r is Abort <==> {
            &&& cancelled
            &&& before_the_end_of_reading(old(s).phase) || old(s).phase is Report
            &&& !(r is ImportIndex)
            &&& !(r is PrepareOutput)
            &&& !(r is Report)
        },
        cancelled && !behind_success(old(s).phase) ==> !behind_success(final(s).phase),
{
    lemma_first_step(*s, cancelled);
}

/// A run that is not cancelled leaves out nothing that it is asked for: it never
/// finishes without exporting an index that it is to export, nor exports or
/// finishes without printing the throughput that it is to print, nor does any of
/// these without putting the file into place that it is to write, whatever its
/// job is and wherever its output goes. And it does none of these unasked.
pub proof fn law_nothing_asked_for_is_left_out(s: &mut Session, cancelled: bool, r: Action)
    requires
        old(s).wf(),
        call_ensures(Session::next, (s, cancelled), r),
    ensures
        old(s).exports && !(old(s).phase is ExportIndex) && !(old(s).phase is Finish) ==> !(
        r is Finish),
        old(s).summarizes && !behind_success(old(s).phase) ==> !(r is ExportIndex) && !(
        r is Finish),
        old(s).summarizes && old(s).phase is FinalizeOutput ==> r is Summarize,
        old(s).to_file && !behind_success(old(s).phase) ==> !(r is Summarize) && !(
        r is ExportIndex) && !(r is Finish),
        r is ExportIndex ==> old(s).exports,
        r is Summarize ==> old(s).summarizes,
        r is FinalizeOutput ==> old(s).to_file,
{
    lemma_first_step(*s, cancelled);
}

/// No step comes twice but the reading of a piece, and none comes after one that
/// has to follow it.
pub proof fn law_steps_keep_their_order(s: &mut Session, cancelled: bool, r: Action)
    requires
        old(s).wf(),
        call_ensures(Session::next, (s, cancelled), r),
    ensures
        r is FinalizeOutput ==> before_the_end_of_reading(old(s).phase) || old(s).phase is Report,
        r is Summarize ==> before_the_end_of_reading(old(s).phase) || old(s).phase is Report
            || old(s).phase is FinalizeOutput,
        r is ExportIndex ==> before_the_end_of_reading(old(s).phase) || old(s).phase is Report
            || old(s).phase is FinalizeOutput || old(s).phase is Summarize,
        behind_success(final(s).phase) && !behind_success(old(s).phase) ==> !cancelled && (
        old(s).ended || old(s).phase is Report),
        old(s).phase is ExportIndex ==> r is Finish,
{
    lemma_first_step(*s, cancelled);
}

} // verus!
