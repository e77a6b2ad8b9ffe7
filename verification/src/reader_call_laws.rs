//! What every call of the reader over a remote file does to its fields and to the
//! caller's buffer. Each law speaks of any result that a call can have.

use vstd::prelude::*;

use crate::decimal;
use crate::error::{ErrorKind, ReadError};
use crate::fetch::RangeRequest;
use crate::http_reader::{
    checked_relative_seek, FetchEvent, FetchStep, HttpReader, ReadStep, SeekFrom,
};
use crate::probe::ProbeError;
use crate::reader_laws;

verus! {

/// Whether every byte that the reader holds is the byte of `content` at its
/// offset.
pub open spec fn reads_from(reader: HttpReader, content: Seq<u8>) -> bool {
    &&& content.len() == reader.size
    &&& forall|i: int|
        0 <= i < reader.buffer@.len() ==> {
            &&& reader.buffer_start + i < content.len()
            &&& #[trigger] reader.buffer@[i] == content[reader.buffer_start + i]
        }
}

/// Whether a reader reads the same file in the same manner as another.
pub open spec fn same_source(a: HttpReader, b: HttpReader) -> bool {
    a.url@ == b.url@ && a.size == b.size && a.fetch_size == b.fetch_size
}

/// Whether two readers hold the same bytes of the file.
pub open spec fn same_window(a: HttpReader, b: HttpReader) -> bool {
    a.buffer_start == b.buffer_start && a.buffer@ == b.buffer@
}

/// A fetch that is answered with the bytes of the file that it asked for leaves
/// the reader with bytes of the file at their own offsets, up to the last one
/// fetched, and at the same position. It asked for `fetch_size` bytes from the
/// position on, or for those that are left.
pub proof fn law_fetch_takes_bytes_of_the_file(
    reader: &mut HttpReader,
    body: Vec<u8>,
    content: Seq<u8>,
    r: Result<FetchStep, ReadError>,
)
    requires
        old(reader).wf(),
        reads_from(*old(reader), content),
        old(reader).position < old(reader).size,
        old(reader).position == old(reader).buffer_start + old(reader).buffer@.len(),
        body@ == content.subrange(
            old(reader).position as int,
            if old(reader).position + old(reader).fetch_size <= old(reader).size {
                old(reader).position + old(reader).fetch_size
            } else {
                old(reader).size as int
            },
        ),
        call_ensures(HttpReader::on_fetch, (reader, FetchEvent::Body(body)), r),
    ensures
        r == Ok::<FetchStep, ReadError>(FetchStep::Appended),
        reads_from(*final(reader), content),
        same_source(*final(reader), *old(reader)),
        final(reader).position == old(reader).position,
        final(reader).buffer_start <= final(reader).position,
        final(reader).buffer_start + final(reader).buffer@.len() == old(reader).position + body@.len(),
{
    let last = *final(reader);
    assert forall|i: int| 0 <= i < last.buffer@.len() implies {
        &&& last.buffer_start + i < content.len()
        &&& #[trigger] last.buffer@[i] == content[last.buffer_start + i]
    } by {
        let k = last.buffer_start + i - reader.buffer_start;
        if k < reader.buffer@.len() {
            assert(reader.buffer@[k] == content[reader.buffer_start + k]);
        }
    }
}

/// A fetch that is answered from the file serves a whole read as the laws on whole
/// reads have it.
pub proof fn law_fetches_serve_whole_reads(
    reader: &mut HttpReader,
    body: Vec<u8>,
    content: Seq<u8>,
    r: Result<FetchStep, ReadError>,
)
    requires
        old(reader).wf(),
        old(reader)@.awaits_fetch(),
        content.len() == old(reader).size,
        body@ == content.subrange(
            old(reader)@.request().from as int,
            old(reader)@.request().end + 1,
        ),
        call_ensures(HttpReader::on_fetch, (reader, FetchEvent::Body(body)), r),
    ensures
        r == Ok::<FetchStep, ReadError>(FetchStep::Appended),
        final(reader)@ == old(reader)@.served(content),
        old(reader)@.coherent(content) ==> final(reader)@.coherent(content),
{
    if reader@.coherent(content) {
        reader_laws::law_window_is_part_of_the_file(reader@, content, 0, 0);
    }
}

/// Going on with a read is a step of a whole read as the laws on whole reads have
/// it: its bytes come behind those given before, and it is over where that is.
pub proof fn law_steps_make_up_whole_reads(
    reader: &mut HttpReader,
    buf: &mut [u8],
    filled: usize,
    step: ReadStep,
)
    requires
        old(reader).wf(),
        filled <= old(buf)@.len() <= usize::MAX,
        call_ensures(HttpReader::continue_read, (reader, buf, filled), step),
    ensures
        ({
            let want = (old(buf)@.len() - filled) as nat;
            let n = old(reader)@.ready(want);
            &&& final(reader)@ == old(reader)@.read_on(want)
            &&& final(buf)@.subrange(filled as int, filled + n) == old(reader)@.bytes(n)
            &&& step is Done <==> old(reader)@.finishes(want)
        }),
{
    let want = (buf@.len() - filled) as nat;
    let n = reader@.ready(want);
    assert(final(buf)@.subrange(filled as int, filled + n) =~= reader@.bytes(n));
}

/// A fetch drops nothing while the window stays within four fetches and 128 MiB,
/// and leaves it within both. It keeps what it held up to two fetches behind the
/// position, or up to as much as fits into 128 MiB besides the fetched bytes.
pub proof fn law_fetch_keeps_a_bounded_tail(
    reader: &mut HttpReader,
    body: Vec<u8>,
    offset: int,
    r: Result<FetchStep, ReadError>,
)
    requires
        old(reader).wf(),
        old(reader).position < old(reader).size,
        old(reader).position == old(reader).buffer_start + old(reader).buffer@.len(),
        call_ensures(HttpReader::on_fetch, (reader, FetchEvent::Body(body)), r),
        r is Ok,
    ensures
        old(reader).buffer@.len() + body@.len() <= 4 * old(reader).fetch_size && old(reader).buffer@.len()
            + body@.len() <= 0x800_0000 ==> final(reader).buffer_start == old(reader).buffer_start
            && final(reader).buffer@ == old(reader).buffer@ + body@,
        old(reader).buffer@.len() <= 4 * old(reader).fetch_size && old(reader).buffer@.len() <= 0x800_0000
            ==> final(reader).buffer@.len() <= 4 * old(reader).fetch_size
            && final(reader).buffer@.len() <= 0x800_0000,
        old(reader).buffer_start <= offset <= old(reader).position && (offset + 2 * old(reader).fetch_size
            >= old(reader).position && offset + 0x800_0000 >= old(reader).position + body@.len())
            ==> final(reader).buffer_start <= offset,
{
    assert((reader.buffer@ + body@).skip(0) =~= reader.buffer@ + body@);
}

/// The bytes of a fetch are put right behind those that the reader holds, and
/// nothing else changes. There is no fetch at or behind the end of the file.
pub proof fn law_fetched_bytes_go_behind(
    reader: &mut HttpReader,
    from: u64,
    event: FetchEvent,
    r: Result<FetchStep, ReadError>,
)
    requires
        old(reader).wf(),
        from < old(reader).size ==> from == old(reader).buffer_start + old(reader).buffer@.len(),
        call_ensures(HttpReader::fetch_and_append, (reader, from, event), r),
    ensures
        same_source(*final(reader), *old(reader)),
        final(reader).position == old(reader).position,
        final(reader).buffer_start == old(reader).buffer_start,
        from >= old(reader).size || !(event is Body) || r is Err ==> final(reader).buffer@
            == old(reader).buffer@,
        from < old(reader).size && event is Body && r is Ok ==> final(reader).buffer@ == old(reader).buffer@
            + event->Body_0@,
        from >= old(reader).size ==> r == Ok::<FetchStep, ReadError>(FetchStep::Appended),
{
}

/// Of a range request only a reply of partial content with a body of exactly the
/// length of the range is taken: `fetch_size` bytes, or those that are left. One
/// byte more than that is read of a body. Every failure has its kind.
pub proof fn law_only_exact_partial_replies_are_taken(
    reader: &mut HttpReader,
    from: u64,
    event: FetchEvent,
    r: Result<FetchStep, ReadError>,
)
    requires
        old(reader).wf(),
        from < old(reader).size,
        from == old(reader).buffer_start + old(reader).buffer@.len(),
        call_ensures(HttpReader::fetch_and_append, (reader, from, event), r),
    ensures
        ({
            let length = if from + old(reader).fetch_size <= old(reader).size {
                old(reader).fetch_size as int
            } else {
                old(reader).size - from
            };
            match event {
                FetchEvent::RequestFailed(_) => r is Err && r->Err_0.kind == ErrorKind::Other,
                FetchEvent::BodyFailed(_) => r is Err && r->Err_0.kind == ErrorKind::Other,
                FetchEvent::Status(status) => if status == 206 {
                    &&& r is Ok
                    &&& r->Ok_0 is ReadBody
                    &&& r->Ok_0->limit == length + 1
                } else {
                    r is Err && r->Err_0.kind == ErrorKind::InvalidData
                },
                FetchEvent::Body(body) => if body@.len() == length {
                    r == Ok::<FetchStep, ReadError>(FetchStep::Appended)
                } else {
                    r is Err && r->Err_0.kind == ErrorKind::UnexpectedEof
                },
            }
        }),
{
}

/// What a failed fetch says names the range that was asked for, its position, and
/// what went wrong.
pub proof fn law_failed_fetches_name_the_range(
    reader: &mut HttpReader,
    event: FetchEvent,
    r: Result<FetchStep, ReadError>,
)
    requires
        old(reader).wf(),
        old(reader).position < old(reader).size,
        old(reader).position == old(reader).buffer_start + old(reader).buffer@.len(),
        call_ensures(HttpReader::on_fetch, (reader, event), r),
        r is Err,
    ensures
        ({
            let from = old(reader).position as nat;
            let behind = if from + old(reader).fetch_size <= old(reader).size {
                from + old(reader).fetch_size
            } else {
                old(reader).size as int
            };
            let range = "bytes="@ + decimal::text(from) + "-"@ + decimal::text(
                (behind - 1) as nat,
            );
            r->Err_0.message@ == match event {
                FetchEvent::RequestFailed(cause) => "HTTP request failed for range "@ + range
                    + " at position "@ + decimal::text(from) + ": "@ + cause@,
                FetchEvent::Status(status) => "Expected HTTP 206 Partial Content, but got "@
                    + decimal::text(status as nat)
                    + ". The server might be ignoring Range headers."@,
                FetchEvent::BodyFailed(cause) => "Failed to read HTTP response body for range "@
                    + range + " at position "@ + decimal::text(from) + ": "@ + cause@,
                FetchEvent::Body(body) => "HTTP body length mismatch for range "@ + range
                    + ": expected "@ + decimal::text((behind - from) as nat) + " bytes, got "@
                    + decimal::text(body@.len()),
            }
        }),
{
}

/// Taking in an event of a fetch answers as appending it does, and changes the
/// reader only where a body is taken.
pub proof fn law_fetch_answers_as_appending_does(
    reader: &mut HttpReader,
    event: FetchEvent,
    r: Result<FetchStep, ReadError>,
)
    requires
        old(reader).wf(),
        old(reader).position < old(reader).size ==> old(reader).position == old(reader).buffer_start
            + old(reader).buffer@.len(),
        call_ensures(HttpReader::on_fetch, (reader, event), r),
    ensures
        same_source(*final(reader), *old(reader)),
        final(reader).position == old(reader).position,
        old(reader).position >= old(reader).size || r is Err || !(event is Body) ==> same_window(
            *final(reader),
            *old(reader),
        ),
        old(reader).position >= old(reader).size ==> r == Ok::<FetchStep, ReadError>(FetchStep::Appended),
        old(reader).position < old(reader).size ==> match event {
            FetchEvent::Status(status) => if status == 206 {
                r is Ok && r->Ok_0 is ReadBody
            } else {
                r is Err && r->Err_0.kind == ErrorKind::InvalidData
            },
            FetchEvent::Body(body) => r is Ok <==> body@.len() == if old(reader).position
                + old(reader).fetch_size <= old(reader).size {
                old(reader).fetch_size as int
            } else {
                old(reader).size - old(reader).position
            },
            _ => r is Err && r->Err_0.kind == ErrorKind::Other,
        },
{
}

/// What going on with a read does, in bytes of the file: it fills the buffer from
/// `filled` on with the bytes at the position, moves the position behind them,
/// and leaves the rest of the buffer alone. What the window holds at the position
/// is given at once. The read is over exactly if the buffer is full or the file
/// has ended; else the next bytes of the file are asked for, and a window that
/// does not reach up to them is dropped.
pub open spec fn gives_bytes_of(
    before: HttpReader,
    after: HttpReader,
    buf: Seq<u8>,
    next_buf: Seq<u8>,
    filled: int,
    step: ReadStep,
    content: Seq<u8>,
) -> bool {
    let n = after.position - before.position;
    let end = before.buffer_start + before.buffer@.len();
    let room = buf.len() - filled;
    &&& same_source(after, before)
    &&& reads_from(after, content)
    &&& 0 <= n <= room
    &&& next_buf.len() == buf.len()
    &&& forall|i: int|
        0 <= i < buf.len() ==> #[trigger] next_buf[i] == if filled <= i < filled + n {
            content[before.position + (i - filled)]
        } else {
            buf[i]
        }
    &&& before.buffer_start <= before.position < end ==> n == if end - before.position <= room {
        end - before.position
    } else {
        room
    }
    &&& match step {
        ReadStep::Done(count) => {
            &&& count == filled + n
            &&& count == buf.len() || after.position >= after.size
            &&& same_window(after, before)
        },
        ReadStep::Fetch { filled: count, request } => {
            &&& count == filled + n
            &&& count < buf.len()
            &&& after.position < after.size
            &&& request.from == after.position
            &&& request.end + 1 == if after.position + after.fetch_size <= after.size {
                after.position + after.fetch_size
            } else {
                after.size as int
            }
            &&& after.buffer_start + after.buffer@.len() == after.position
            &&& after.position == end && before.buffer@.len() > 0 ==> same_window(after, before)
            &&& after.position != end ==> after.buffer@.len() == 0
        },
    }
}

/// Going on with a read gives bytes of the file.
pub proof fn law_continued_read_gives_bytes_of_the_file(
    reader: &mut HttpReader,
    buf: &mut [u8],
    filled: usize,
    step: ReadStep,
    content: Seq<u8>,
)
    requires
        old(reader).wf(),
        filled <= old(buf)@.len() <= usize::MAX,
        reads_from(*old(reader), content),
        call_ensures(HttpReader::continue_read, (reader, buf, filled), step),
    ensures
        gives_bytes_of(
            *old(reader),
            *final(reader),
            old(buf)@,
            final(buf)@,
            filled as int,
            step,
            content,
        ),
{
    lemma_step_gives_bytes_of_the_file(
        *reader,
        *final(reader),
        buf@,
        final(buf)@,
        filled as nat,
        step,
        content,
    );
}

/// A step of a read over bytes of the file gives bytes of the file.
proof fn lemma_step_gives_bytes_of_the_file(
    before: HttpReader,
    after: HttpReader,
    buf: Seq<u8>,
    next_buf: Seq<u8>,
    filled: nat,
    step: ReadStep,
    content: Seq<u8>,
)
    requires
        before.wf(),
        reads_from(before, content),
        filled <= buf.len() <= usize::MAX,
        after.url == before.url,
        before@.gives(buf, filled, after@, next_buf, step),
    ensures
        gives_bytes_of(before, after, buf, next_buf, filled as int, step, content),
{
    let n = after.position - before.position;
    assert forall|i: int| 0 <= i < buf.len() implies #[trigger] next_buf[i] == if filled <= i
        < filled + n {
        content[before.position + (i - filled)]
    } else {
        buf[i]
    } by {
        if filled <= i < filled + n {
            let k = before.position - before.buffer_start + (i - filled);
            assert(before.buffer@[k] == content[before.buffer_start + k]);
        }
    }
    assert forall|i: int| 0 <= i < after.buffer@.len() implies {
        &&& after.buffer_start + i < content.len()
        &&& #[trigger] after.buffer@[i] == content[after.buffer_start + i]
    } by {
        assert(before.buffer@[i] == content[before.buffer_start + i]);
    }
}

/// A read gives bytes of the file from the position on. It is refused where the
/// user has cancelled the run, unless there is nothing to read anyway.
pub proof fn law_read_gives_bytes_of_the_file(
    reader: &mut HttpReader,
    buf: &mut [u8],
    cancelled: bool,
    r: Result<ReadStep, ReadError>,
    content: Seq<u8>,
)
    requires
        old(reader).wf(),
        reads_from(*old(reader), content),
        old(buf)@.len() <= usize::MAX,
        call_ensures(HttpReader::read, (reader, buf, cancelled), r),
    ensures
        r is Err <==> cancelled && old(buf)@.len() > 0 && old(reader).position < old(reader).size,
        r is Err ==> {
            &&& r->Err_0.kind == ErrorKind::Interrupted
            &&& r->Err_0.message@ == "Interrupted by user"@
            &&& same_source(*final(reader), *old(reader))
            &&& same_window(*final(reader), *old(reader))
            &&& final(reader).position == old(reader).position
            &&& final(buf)@ == old(buf)@
        },
        r is Ok ==> gives_bytes_of(
            *old(reader),
            *final(reader),
            old(buf)@,
            final(buf)@,
            0,
            r->Ok_0,
            content,
        ),
{
    if r is Ok && buf@.len() > 0 && reader.position < reader.size {
        lemma_step_gives_bytes_of_the_file(
            *reader,
            *final(reader),
            buf@,
            final(buf)@,
            0,
            r->Ok_0,
            content,
        );
    }
}

/// A request is named exactly if the next byte exists and is not held. It starts
/// at the position, where the window then ends.
pub proof fn law_a_request_is_named_for_a_missing_byte(
    reader: &mut HttpReader,
    r: Option<RangeRequest>,
)
    requires
        old(reader).wf(),
        call_ensures(HttpReader::ensure_buffered, (reader,), r),
    ensures
        same_source(*final(reader), *old(reader)),
        final(reader).position == old(reader).position,
        r is Some <==> {
            &&& old(reader).position < old(reader).size
            &&& !(old(reader).buffer_start <= old(reader).position < old(reader).buffer_start
                + old(reader).buffer@.len())
        },
        r is None ==> same_window(*final(reader), *old(reader)),
        r is Some ==> {
            &&& r->0.from == old(reader).position
            &&& r->0.end + 1 == if old(reader).position + old(reader).fetch_size <= old(reader).size {
                old(reader).position + old(reader).fetch_size
            } else {
                old(reader).size as int
            }
            &&& final(reader).buffer_start + final(reader).buffer@.len() == old(reader).position
            &&& old(reader).buffer@.len() > 0 && old(reader).position == old(reader).buffer_start
                + old(reader).buffer@.len() ==> same_window(*final(reader), *old(reader))
            &&& old(reader).position != old(reader).buffer_start + old(reader).buffer@.len()
                ==> final(reader).buffer@.len() == 0
        },
{
}

/// Dropping the front of the window takes nothing but a front: what is left keeps
/// its offsets. Nothing is dropped of a window within four fetches and 128 MiB, nor
/// of what lies within two fetches before the position, as far as these fit into
/// 128 MiB besides what lies ahead of it; of a larger window all the rest is.
pub proof fn law_eviction_takes_the_far_front(reader: &mut HttpReader)
    requires
        old(reader).wf(),
        old(reader).buffer_start <= old(reader).position <= old(reader).buffer_start + old(reader).buffer@.len(),
        call_ensures(HttpReader::maybe_evict, (reader,), ()),
    ensures
        same_source(*final(reader), *old(reader)),
        final(reader).position == old(reader).position,
        old(reader).buffer_start <= final(reader).buffer_start <= old(reader).position,
        final(reader).buffer@ == old(reader).buffer@.skip(
            final(reader).buffer_start - old(reader).buffer_start,
        ),
        old(reader).buffer@.len() <= 4 * old(reader).fetch_size && old(reader).buffer@.len() <= 0x800_0000
            ==> final(reader).buffer_start == old(reader).buffer_start,
        ({
            let ahead = old(reader).buffer_start + old(reader).buffer@.len() - old(reader).position;
            let far = old(reader).position - 2 * old(reader).fetch_size;
            &&& old(reader).position - old(reader).buffer_start <= 2 * old(reader).fetch_size && 2
                * old(reader).fetch_size + ahead <= 0x800_0000 ==> final(reader).buffer_start
                == old(reader).buffer_start
            &&& 2 * old(reader).fetch_size + ahead <= 0x800_0000 && far >= old(reader).buffer_start && (
            old(reader).buffer@.len() > 4 * old(reader).fetch_size || old(reader).buffer@.len() > 0x800_0000)
                ==> final(reader).buffer_start == far
            &&& 2 * old(reader).fetch_size + ahead > 0x800_0000 && ahead <= 0x400_0000
                && old(reader).buffer@.len() > 0x800_0000 ==> final(reader).buffer@.len()
                == 0x800_0000
            &&& ahead <= old(reader).fetch_size ==> final(reader).buffer@.len() <= 0x800_0000
        }),
{
    assert(reader.buffer@.skip(0) =~= reader.buffer@);
}

/// A seek goes to the given offset, counted from the start, the end or the
/// position, and changes nothing else; one that leaves the range of offsets is
/// refused and changes nothing.
pub proof fn law_seek_goes_where_it_says(
    reader: &mut HttpReader,
    pos: SeekFrom,
    r: Result<u64, ReadError>,
)
    requires
        old(reader).wf(),
        call_ensures(HttpReader::seek, (reader, pos), r),
    ensures
        same_source(*final(reader), *old(reader)),
        same_window(*final(reader), *old(reader)),
        r is Ok ==> r->Ok_0 == final(reader).position,
        r is Err ==> {
            &&& final(reader).position == old(reader).position
            &&& r->Err_0.kind == ErrorKind::InvalidInput
        },
        match pos {
            SeekFrom::Start(offset) => r is Ok && final(reader).position == offset,
            SeekFrom::Current(distance) => {
                &&& r is Ok ==> final(reader).position - old(reader).position == distance
                &&& r is Err <==> !(0 <= old(reader).position + distance <= u64::MAX)
            },
            SeekFrom::End(distance) => {
                &&& r is Ok ==> final(reader).position - old(reader).size == distance
                &&& r is Err <==> !(0 <= old(reader).size + distance <= u64::MAX)
            },
        },
{
}

/// A distance is added to an offset where the sum is an offset, and refused with
/// the name of what is sought in where it is not.
pub proof fn law_relative_seek_adds(base: u64, offset: i64, label: &str, r: Result<u64, ReadError>)
    requires
        call_ensures(checked_relative_seek, (base, offset, label), r),
    ensures
        r is Ok ==> r->Ok_0 - base == offset,
        r is Err <==> base + offset < 0 || base + offset > u64::MAX,
        r is Err ==> {
            &&& r->Err_0.kind == ErrorKind::InvalidInput
            &&& offset > 0 ==> r->Err_0.message@ == "Seek overflow for "@ + label@
            &&& offset < 0 ==> r->Err_0.message@ == "Seek before start of "@ + label@
        },
{
}

/// A new reader stands at the start of a file of the probed length and holds
/// nothing; without a length there is none, for the reason that the probe gave.
pub proof fn law_readers_start_at_the_start(
    url: String,
    chunk_size: u64,
    parallelism: u32,
    available: Option<usize>,
    probed: Result<u64, ProbeError>,
    r: Result<HttpReader, ProbeError>,
)
    requires
        call_ensures(HttpReader::new, (url, chunk_size, parallelism, available, probed), r),
    ensures
        probed is Err ==> r is Err && r->Err_0 == probed->Err_0,
        probed is Ok ==> {
            &&& r is Ok
            &&& r->Ok_0.wf()
            &&& r->Ok_0.url@ == url@
            &&& r->Ok_0.size == probed->Ok_0
            &&& r->Ok_0.position == 0
            &&& r->Ok_0.buffer@.len() == 0
        },
{
}

/// A fork reads the same file from the same position on and holds nothing.
pub proof fn law_forks_start_at_the_position(reader: &HttpReader, r: HttpReader)
    requires
        reader.wf(),
        call_ensures(HttpReader::fork, (reader,), r),
    ensures
        r.wf(),
        same_source(r, *reader),
        r.position == reader.position,
        r.buffer@.len() == 0,
        r.buffer_start == r.position,
{
}

/// The end of the window lies its length behind its start.
pub proof fn law_buffer_end_is_behind_the_window(reader: &HttpReader, r: u64)
    requires
        reader.wf(),
        call_ensures(HttpReader::buffer_end, (reader,), r),
    ensures
        r - reader.buffer_start == reader.buffer@.len(),
{
}

} // verus!
