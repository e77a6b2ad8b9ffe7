//! A reader over a remote file that fetches ranges of it and keeps a sliding
//! window of them in memory.
//!
//! The reader makes no request itself. Reading either finishes from the window
//! or names the range that has to be fetched; the caller performs the request
//! and hands the reply back.

use vstd::prelude::*;

use crate::error::{ErrorKind, ReadError};
use crate::fetch;
use crate::fetch::{
    body_limit, check_range_status, compute_fetch_size, read_response_body, request_failed,
    RangeRequest, MAX_FETCH_SIZE, MIN_FETCH_SIZE,
};
use crate::probe::ProbeError;

verus! {

/// How many fetches to keep behind the current position, as far as the window
/// has room for them. Seeks back within this distance are served from the
/// window.
pub const KEEP_BEHIND_FETCH_BLOCKS: usize = 2;

/// How many fetches the window holds before its front is dropped.
pub const MAX_WINDOW_FETCH_BLOCKS: usize = 4;

/// The most bytes that the window holds, whatever the size of a fetch.
pub const MAX_WINDOW_BYTES: usize = 128 * 1024 * 1024;

/// The abstract state of an [`HttpReader`]: where the next read starts, how
/// long the remote file is, how much a fetch asks for, and the window, which is
/// the bytes of the file from `start` on.
pub struct ReaderState {
    pub position: nat,
    pub size: nat,
    pub fetch_size: nat,
    pub start: nat,
    pub window: Seq<u8>,
}

impl ReaderState {
    /// The offset just behind the window.
    pub open spec fn end(self) -> nat {
        self.start + self.window.len()
    }

    /// Whether the window holds the byte at `offset`.
    pub open spec fn covers(self, offset: nat) -> bool {
        self.start <= offset < self.end()
    }

    /// Whether the next byte to read exists and is not in the window.
    pub open spec fn needs_fetch(self) -> bool {
        self.position < self.size && !self.covers(self.position)
    }

    /// Whether the next fetched bytes belong right behind the window and start
    /// at the position.
    pub open spec fn awaits_fetch(self) -> bool {
        self.position < self.size && self.position == self.end()
    }

    /// The state made ready for a fetch at the position: a window that ends
    /// there is kept, any other is dropped.
    pub open spec fn aligned(self) -> ReaderState {
        if self.window.len() == 0 || self.position != self.end() {
            ReaderState { start: self.position, window: Seq::empty(), ..self }
        } else {
            self
        }
    }

    /// The range of a fetch that starts at `from`.
    pub open spec fn request_at(self, from: nat) -> RangeRequest {
        RangeRequest::next(from, self.fetch_size, self.size)
    }

    /// The range to fetch next.
    pub open spec fn request(self) -> RangeRequest {
        self.request_at(self.position)
    }

    /// The state with `body` put behind the window.
    pub open spec fn appended(self, body: Seq<u8>) -> ReaderState {
        ReaderState { window: self.window + body, ..self }
    }

    /// How many bytes the window may hold.
    pub open spec fn max_window(self) -> int {
        fetch::min(self.fetch_size * MAX_WINDOW_FETCH_BLOCKS, MAX_WINDOW_BYTES as int)
    }

    /// How many bytes of the window lie ahead of the position.
    pub open spec fn ahead(self) -> int {
        fetch::max(0, self.end() - self.position)
    }

    /// How many bytes behind the position the window has room for besides what
    /// lies ahead of it: never less than half of what it holds at most.
    pub open spec fn room_behind(self) -> int {
        fetch::max((MAX_WINDOW_BYTES / 2) as int, MAX_WINDOW_BYTES - self.ahead())
    }

    /// How many bytes behind the position are never dropped:
    /// `KEEP_BEHIND_FETCH_BLOCKS` fetches, or as many as there is room for.
    pub open spec fn keep_behind(self) -> int {
        fetch::min(self.fetch_size * KEEP_BEHIND_FETCH_BLOCKS, self.room_behind())
    }

    /// How many bytes the front of the window is over the limit by: none while
    /// the window is within its limit, else all that lie further behind the
    /// position than what is kept.
    pub open spec fn evictable(self) -> int {
        if self.window.len() <= self.max_window() {
            0
        } else {
            fetch::max(0, self.position - self.start - self.keep_behind())
        }
    }

    /// The state with the front of an overfull window dropped.
    pub open spec fn evicted(self) -> ReaderState {
        ReaderState {
            start: (self.start + self.evictable()) as nat,
            window: self.window.skip(self.evictable()),
            ..self
        }
    }

    /// How many of `want` bytes the window gives without a fetch.
    pub open spec fn ready(self, want: nat) -> nat {
        if self.position < self.size && self.covers(self.position) {
            fetch::min(self.end() - self.position, want as int) as nat
        } else {
            0
        }
    }

    /// The `n` bytes of the window at the position.
    pub open spec fn bytes(self, n: nat) -> Seq<u8> {
        Seq::new(n, |i: int| self.window[self.position - self.start + i])
    }

    /// The state with the position moved to `offset`.
    pub open spec fn at(self, offset: nat) -> ReaderState {
        ReaderState { position: offset, ..self }
    }

    /// The state with the position moved on by `n`.
    pub open spec fn advanced(self, n: nat) -> ReaderState {
        self.at(self.position + n)
    }

    /// Whether a read of `want` bytes is over once the window has given what it
    /// has.
    pub open spec fn finishes(self, want: nat) -> bool {
        let n = self.ready(want);
        n == want || self.position + n >= self.size
    }

    /// Whether `r` answers an event of a fetch that starts at `from`: every
    /// failure is reported, partial content leads on to its body, and a body of
    /// exactly the range asked for ends the fetch.
    pub open spec fn answers(
        self,
        from: nat,
        event: FetchEvent,
        r: Result<FetchStep, ReadError>,
    ) -> bool {
        let request = self.request_at(from);
        let range = fetch::range_text(request.from as nat, request.end as nat);
        match event {
            FetchEvent::RequestFailed(cause) => {
                &&& r is Err
                &&& r->Err_0.says(
                    ErrorKind::Other,
                    fetch::request_failed_text(range, from, cause@),
                )
            },
            FetchEvent::Status(status) => if status == 206 {
                r == Ok::<FetchStep, ReadError>(
                    FetchStep::ReadBody { limit: (request.len() + 1) as u64 },
                )
            } else {
                &&& r is Err
                &&& r->Err_0.says(
                    ErrorKind::InvalidData,
                    fetch::not_partial_text(status as nat),
                )
            },
            FetchEvent::BodyFailed(cause) => {
                &&& r is Err
                &&& r->Err_0.says(ErrorKind::Other, fetch::body_failed_text(range, from, cause@))
            },
            FetchEvent::Body(body) => if body@.len() == request.len() {
                r == Ok::<FetchStep, ReadError>(FetchStep::Appended)
            } else {
                &&& r is Err
                &&& r->Err_0.says(
                    ErrorKind::UnexpectedEof,
                    fetch::body_length_text(range, request.len(), body@.len()),
                )
            },
        }
    }

    /// The state after an event of a fetch that starts at `from`: only a body of
    /// exactly the range asked for changes it.
    pub open spec fn after_event(self, from: nat, event: FetchEvent) -> ReaderState {
        match event {
            FetchEvent::Body(body) => if body@.len() == self.request_at(from).len() {
                self.appended(body@)
            } else {
                self
            },
            _ => self,
        }
    }

    /// The state after the window has given what it has of `want` bytes, ready
    /// for a fetch if more are owed.
    pub open spec fn read_on(self, want: nat) -> ReaderState {
        let moved = self.advanced(self.ready(want));
        if self.finishes(want) {
            moved
        } else {
            moved.aligned()
        }
    }

    /// What going on with a read does, of which `filled` bytes are in `buf`: the
    /// bytes that the window has are put behind those, up to the end of `buf`;
    /// the position moves on by as many; and the read is over unless both `buf`
    /// and the file go on.
    pub open spec fn gives(
        self,
        buf: Seq<u8>,
        filled: nat,
        next: ReaderState,
        next_buf: Seq<u8>,
        step: ReadStep,
    ) -> bool {
        let want = (buf.len() - filled) as nat;
        let n = self.ready(want);
        &&& next == self.read_on(want)
        &&& next_buf == buf.take(filled as int) + self.bytes(n) + buf.skip((filled + n) as int)
        &&& step == if self.finishes(want) {
            ReadStep::Done((filled + n) as usize)
        } else {
            ReadStep::Fetch { filled: (filled + n) as usize, request: next.request() }
        }
        &&& !self.finishes(want) ==> next.awaits_fetch() && next.request().wf()
    }

    /// Where a seek goes, which may be no valid offset.
    pub open spec fn seek_target(self, pos: SeekFrom) -> int {
        match pos {
            SeekFrom::Start(offset) => offset as int,
            SeekFrom::End(offset) => self.size + offset,
            SeekFrom::Current(offset) => self.position + offset,
        }
    }
}

/// What remains to be done for a read.
#[derive(Copy, Clone, Debug, PartialEq, Eq, Structural)]
pub enum ReadStep {
    /// The read is over and gave this many bytes.
    Done(usize),
    /// `filled` bytes have been given so far; the next ones have to be fetched.
    Fetch { filled: usize, request: RangeRequest },
}

/// What came of performing a range request, one step at a time.
pub enum FetchEvent {
    /// The request got no reply; the text says why.
    RequestFailed(String),
    /// A reply came, with this status.
    Status(u16),
    /// The body of the reply could not be read; the text says why.
    BodyFailed(String),
    /// The body of the reply.
    Body(Vec<u8>),
}

/// What remains to be done for a fetch.
#[derive(Copy, Clone, Debug, PartialEq, Eq, Structural)]
pub enum FetchStep {
    /// Read the body of the reply, up to `limit` bytes.
    ReadBody { limit: u64 },
    /// Nothing: the fetched bytes, if there were any to fetch, are in the window.
    Appended,
}

/// Where a seek goes.
#[derive(Copy, Clone, Debug, PartialEq, Eq, Structural)]
pub enum SeekFrom {
    /// To an offset from the start.
    Start(u64),
    /// To an offset from the end.
    End(i64),
    /// To an offset from the current position.
    Current(i64),
}

/// What is said of a seek past the largest offset.
pub open spec fn seek_overflow_text(label: Seq<char>) -> Seq<char> {
    "Seek overflow for "@ + label
}

/// What is said of a seek to before the first byte.
pub open spec fn seek_before_start_text(label: Seq<char>) -> Seq<char> {
    "Seek before start of "@ + label
}

/// The offset `offset` bytes away from `base`; `label` names what is sought in.
pub fn checked_relative_seek(base: u64, offset: i64, label: &str) -> (r: Result<u64, ReadError>)
    ensures
        r is Ok <==> 0 <= base + offset <= u64::MAX,
        r matches Ok(target) ==> target == base + offset,
        base + offset > u64::MAX ==> r->Err_0.says(
            ErrorKind::InvalidInput,
            seek_overflow_text(label@),
        ),
        base + offset < 0 ==> r->Err_0.says(
            ErrorKind::InvalidInput,
            seek_before_start_text(label@),
        ),
{
    if offset >= 0 {
        match base.checked_add(offset as u64) {
            Some(target) => Ok(target),
            None => {
                let mut message = String::new();
                message.append("Seek overflow for ");
                message.append(label);
                Err(ReadError { kind: ErrorKind::InvalidInput, message })
            },
        }
    } else {
        let distance: u64 = (-(offset + 1)) as u64 + 1;
        match base.checked_sub(distance) {
            Some(target) => Ok(target),
            None => {
                let mut message = String::new();
                message.append("Seek before start of ");
                message.append(label);
                Err(ReadError { kind: ErrorKind::InvalidInput, message })
            },
        }
    }
}

/// A reader over the remote file at `url` with a sliding window of it in memory.
#[derive(Debug)]
pub struct HttpReader {
    pub url: String,
    pub position: u64,
    pub size: u64,
    pub fetch_size: usize,
    /// The offset of `buffer[0]` in the remote file.
    pub buffer_start: u64,
    /// The bytes of the remote file from `buffer_start` on.
    pub buffer: Vec<u8>,
}

impl View for HttpReader {
    type V = ReaderState;

    open spec fn view(&self) -> ReaderState {
        ReaderState {
            position: self.position as nat,
            size: self.size as nat,
            fetch_size: self.fetch_size as nat,
            start: self.buffer_start as nat,
            window: self.buffer@,
        }
    }
}

impl HttpReader {
    /// A window that is not empty lies within the file, and a fetch asks for a
    /// sensible number of bytes.
    pub open spec fn wf(self) -> bool {
        &&& MIN_FETCH_SIZE <= self.fetch_size <= MAX_FETCH_SIZE
        &&& self@.window.len() > 0 ==> self@.end() <= self.size
    }

    /// A reader over the start of the file at `url`, given what the probe of its
    /// server found: the length of the file, or why it cannot be read.
    pub fn new(
        url: String,
        chunk_size: u64,
        parallelism: u32,
        available: Option<usize>,
        probed: Result<u64, ProbeError>,
    ) -> (r: Result<HttpReader, ProbeError>)
        ensures
            r is Ok <==> probed is Ok,
            r is Err ==> r->Err_0 == probed->Err_0,
            r matches Ok(reader) ==> {
                &&& reader.wf()
                &&& reader.url == url
                &&& reader@ == (ReaderState {
                    position: 0,
                    size: probed->Ok_0 as nat,
                    fetch_size: fetch::fetch_size_for(
                        chunk_size as nat,
                        fetch::planned_workers(parallelism, available),
                    ) as nat,
                    start: 0,
                    window: Seq::empty(),
                })
            },
    {
        let fetch_size: usize = compute_fetch_size(chunk_size, parallelism, available);
        match probed {
            Err(error) => Err(error),
            Ok(size) => Ok(
                HttpReader {
                    url,
                    position: 0,
                    size,
                    fetch_size,
                    buffer_start: 0,
                    buffer: Vec::new(),
                },
            ),
        }
    }

    /// The offset just behind the window.
    pub fn buffer_end(&self) -> (r: u64)
        requires
            self.wf(),
        ensures
            r == self@.end(),
    {
        self.buffer_start + self.buffer.len() as u64
    }

    /// Makes sure that the next byte to read is in the window, as far as that
    /// needs no request: names the range to fetch where it is not there.
    pub fn ensure_buffered(&mut self) -> (r: Option<RangeRequest>)
        requires
            old(self).wf(),
        ensures
            final(self).wf(),
            final(self).url == old(self).url,
            r is Some <==> old(self)@.needs_fetch(),
            r is None ==> final(self)@ == old(self)@,
            r matches Some(request) ==> {
                &&& final(self)@ == old(self)@.aligned()
                &&& final(self)@.awaits_fetch()
                &&& request == final(self)@.request()
                &&& request.wf()
            },
    {
        if self.position >= self.size {
            return None;
        }
        if self.position >= self.buffer_start && self.position < self.buffer_end() {
            return None;
        }
        if self.buffer.is_empty() || self.position != self.buffer_end() {
            self.buffer.clear();
            self.buffer_start = self.position;
        }
        Some(RangeRequest::new(self.buffer_end(), self.fetch_size, self.size))
    }

    /// Drops the front of an overfull window, but nothing that lies within
    /// `KEEP_BEHIND_FETCH_BLOCKS` fetches behind the position, as far as these
    /// and what lies ahead of the position fit into `MAX_WINDOW_BYTES`.
    pub fn maybe_evict(&mut self)
        requires
            old(self).wf(),
            old(self)@.evictable() <= old(self)@.window.len(),
        ensures
            final(self).wf(),
            final(self).url == old(self).url,
            final(self)@ == old(self)@.evicted(),
    {
        let max_window: usize = if self.fetch_size <= MAX_WINDOW_BYTES / MAX_WINDOW_FETCH_BLOCKS {
            self.fetch_size * MAX_WINDOW_FETCH_BLOCKS
        } else {
            MAX_WINDOW_BYTES
        };
        if self.buffer.len() <= max_window {
            assert(self@.window.skip(0) =~= self@.window);
            return;
        }
        let ahead: u64 = self.buffer_end().saturating_sub(self.position);
        let half: usize = MAX_WINDOW_BYTES / 2;
        let room: usize = if ahead <= half as u64 {
            MAX_WINDOW_BYTES - ahead as usize
        } else {
            half
        };
        let wanted: usize = self.fetch_size * KEEP_BEHIND_FETCH_BLOCKS;
        let keep_behind: usize = if wanted <= room {
            wanted
        } else {
            room
        };
        let current_offset: u64 = self.position.saturating_sub(self.buffer_start);
        let evictable: u64 = current_offset.saturating_sub(keep_behind as u64);
        if evictable == 0 {
            assert(self@.window.skip(0) =~= self@.window);
            return;
        }
        let kept: Vec<u8> = self.buffer.split_off(evictable as usize);
        self.buffer = kept;
        self.buffer_start = self.buffer_start + evictable;
    }

    /// Takes in one event of the fetch of the bytes from `from` on, which is the
    /// end of the window. Only a body of exactly the range asked for is put behind
    /// the window; on every failure the reader is left as it was. At or behind
    /// the end of the file there is nothing to fetch, and nothing is changed.
    pub fn fetch_and_append(&mut self, from: u64, event: FetchEvent) -> (r: Result<
        FetchStep,
        ReadError,
    >)
        requires
            old(self).wf(),
            from < old(self).size ==> from == old(self)@.end(),
        ensures
            final(self).wf(),
            final(self).url == old(self).url,
            from >= old(self).size ==> {
                &&& r == Ok::<FetchStep, ReadError>(FetchStep::Appended)
                &&& final(self)@ == old(self)@
            },
            from < old(self).size ==> {
                &&& old(self)@.answers(from as nat, event, r)
                &&& final(self)@ == old(self)@.after_event(from as nat, event)
            },
    {
        if from >= self.size {
            return Ok(FetchStep::Appended);
        }
        let request: RangeRequest = RangeRequest::new(from, self.fetch_size, self.size);
        let expected: usize = request.expected_response_bytes();
        let range_header = request.header();
        match event {
            FetchEvent::RequestFailed(cause) => Err(
                request_failed(range_header.as_str(), from, cause.as_str()),
            ),
            FetchEvent::Status(status) => match check_range_status(status) {
                Err(error) => Err(error),
                Ok(()) => Ok(FetchStep::ReadBody { limit: body_limit(expected) }),
            },
            FetchEvent::BodyFailed(cause) => match read_response_body(
                Err(cause),
                expected,
                range_header.as_str(),
                from,
            ) {
                Err(error) => Err(error),
                Ok(_) => Ok(FetchStep::Appended),
            },
            FetchEvent::Body(bytes) => match read_response_body(
                Ok(bytes),
                expected,
                range_header.as_str(),
                from,
            ) {
                Err(error) => Err(error),
                Ok(body) => {
                    let mut body = body;
                    self.buffer.append(&mut body);
                    Ok(FetchStep::Appended)
                },
            },
        }
    }

    /// Takes in one event of the fetch that [`HttpReader::ensure_buffered`]
    /// asked for, and drops the front of a window that the fetched bytes make
    /// overfull. At or behind the end of the file nothing is changed.
    pub fn on_fetch(&mut self, event: FetchEvent) -> (r: Result<FetchStep, ReadError>)
        requires
            old(self).wf(),
            old(self)@.position < old(self)@.size ==> old(self)@.awaits_fetch(),
        ensures
            final(self).wf(),
            final(self).url == old(self).url,
            old(self)@.position >= old(self)@.size ==> {
                &&& r == Ok::<FetchStep, ReadError>(FetchStep::Appended)
                &&& final(self)@ == old(self)@
            },
            old(self)@.position < old(self)@.size ==> {
                &&& old(self)@.answers(old(self)@.position, event, r)
                &&& final(self)@ == if r == Ok::<FetchStep, ReadError>(FetchStep::Appended) {
                    old(self)@.after_event(old(self)@.position, event).evicted()
                } else {
                    old(self)@
                }
            },
    {
        let step: FetchStep = match self.fetch_and_append(self.position, event) {
            Err(error) => return Err(error),
            Ok(step) => step,
        };
        if step == FetchStep::Appended && self.position < self.size {
            self.maybe_evict();
        }
        Ok(step)
    }

    /// Starts a read into `buf`; `cancelled` says whether the user has cancelled
    /// the run. At the end of the file, or with no room in `buf`, the read is
    /// over at once.
    pub fn read(&mut self, buf: &mut [u8], cancelled: bool) -> (r: Result<ReadStep, ReadError>)
        requires
            old(self).wf(),
        ensures
            final(self).wf(),
            final(self).url == old(self).url,
            (old(buf)@.len() == 0 || old(self)@.position >= old(self)@.size) ==> {
                &&& r == Ok::<ReadStep, ReadError>(ReadStep::Done(0))
                &&& final(self)@ == old(self)@
                &&& final(buf)@ == old(buf)@
            },
            (old(buf)@.len() > 0 && old(self)@.position < old(self)@.size && cancelled) ==> {
                &&& r matches Err(e)
                &&& e.says(ErrorKind::Interrupted, "Interrupted by user"@)
                &&& final(self)@ == old(self)@
                &&& final(buf)@ == old(buf)@
            },
            (old(buf)@.len() > 0 && old(self)@.position < old(self)@.size && !cancelled) ==> {
                &&& r is Ok
                &&& old(self)@.gives(old(buf)@, 0, final(self)@, final(buf)@, r->Ok_0)
            },
    {
        if buf.is_empty() || self.position >= self.size {
            return Ok(ReadStep::Done(0));
        }
        if cancelled {
            let mut message = String::new();
            message.append("Interrupted by user");
            return Err(ReadError { kind: ErrorKind::Interrupted, message });
        }
        Ok(self.continue_read(buf, 0))
    }

    /// Goes on with a read into `buf` of which the first `filled` bytes have been
    /// given: copies what the window has, and names the range to fetch where that
    /// does not finish the read.
    pub fn continue_read(&mut self, buf: &mut [u8], filled: usize) -> (r: ReadStep)
        requires
            old(self).wf(),
            filled <= old(buf)@.len(),
        ensures
            final(self).wf(),
            final(self).url == old(self).url,
            old(self)@.gives(old(buf)@, filled as nat, final(self)@, final(buf)@, r),
    {
        let ghost start = self@;
        let ghost given = filled as int;
        let mut filled: usize = filled;
        if filled < buf.len() && self.position < self.size && self.position >= self.buffer_start
            && self.position < self.buffer_end() {
            let offset: usize = (self.position - self.buffer_start) as usize;
            let available: usize = self.buffer.len() - offset;
            let room: usize = buf.len() - filled;
            let to_copy: usize = if available < room {
                available
            } else {
                room
            };
            copy_bytes(buf, filled, &self.buffer, offset, to_copy);
            assert(self.buffer@.subrange(offset as int, offset + to_copy) =~= start.bytes(
                to_copy as nat,
            ));
            filled = filled + to_copy;
            self.position = self.position + to_copy as u64;
        } else {
            assert(buf@ =~= buf@.take(given) + start.bytes(0) + buf@.skip(given));
        }
        if filled == buf.len() || self.position >= self.size {
            return ReadStep::Done(filled);
        }
        match self.ensure_buffered() {
            Some(request) => ReadStep::Fetch { filled, request },
            None => ReadStep::Done(filled),
        }
    }

    /// Moves the position. It may go past the end of the file; the window stays
    /// as it is.
    pub fn seek(&mut self, pos: SeekFrom) -> (r: Result<u64, ReadError>)
        requires
            old(self).wf(),
        ensures
            final(self).wf(),
            final(self).url == old(self).url,
            r is Ok <==> 0 <= old(self)@.seek_target(pos) <= u64::MAX,
            r matches Ok(offset) ==> {
                &&& offset == old(self)@.seek_target(pos)
                &&& final(self)@ == old(self)@.at(offset as nat)
            },
            r is Err ==> final(self)@ == old(self)@,
            old(self)@.seek_target(pos) > u64::MAX ==> r->Err_0.says(
                ErrorKind::InvalidInput,
                seek_overflow_text("stream"@),
            ),
            old(self)@.seek_target(pos) < 0 ==> r->Err_0.says(
                ErrorKind::InvalidInput,
                seek_before_start_text("stream"@),
            ),
    {
        let target: Result<u64, ReadError> = match pos {
            SeekFrom::Start(offset) => Ok(offset),
            SeekFrom::Current(offset) => checked_relative_seek(self.position, offset, "stream"),
            SeekFrom::End(offset) => checked_relative_seek(self.size, offset, "stream"),
        };
        match target {
            Ok(offset) => {
                self.position = offset;
                Ok(offset)
            },
            Err(error) => Err(error),
        }
    }

    /// A reader over the same file at the same position, with a window of its
    /// own that is still empty.
    pub fn fork(&self) -> (r: HttpReader)
        requires
            self.wf(),
        ensures
            r.wf(),
            r.url@ == self.url@,
            r@ == (ReaderState {
                start: self@.position,
                window: Seq::empty(),
                ..self@
            }),
    {
        HttpReader {
            url: self.url.clone(),
            position: self.position,
            size: self.size,
            fetch_size: self.fetch_size,
            buffer_start: self.position,
            buffer: Vec::new(),
        }
    }
}

/// Copies `count` bytes of `source` from `offset` on into `target` at `at`.
fn copy_bytes(target: &mut [u8], at: usize, source: &Vec<u8>, offset: usize, count: usize)
    requires
        at + count <= old(target)@.len(),
        offset + count <= source@.len(),
    ensures
        final(target)@ == old(target)@.take(at as int) + source@.subrange(
            offset as int,
            offset + count,
        ) + old(target)@.skip(at + count),
{
    let ghost before = target@;
    let mut i: usize = 0;
    while i < count
        invariant
            i <= count,
            at + count <= before.len() == target.len(),
            offset + count <= source.len(),
            target@ == before.take(at as int) + source@.subrange(offset as int, offset + i)
                + before.skip(at + i),
        decreases count - i,
    {
        target[at + i] = source[offset + i];
        i = i + 1;
        assert(target@ =~= before.take(at as int) + source@.subrange(offset as int, offset + i)
            + before.skip(at + i));
    }
}

} // verus!
