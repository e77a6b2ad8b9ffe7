//! What holds of reading a remote file as a whole: over any number of reads,
//! seeks and fetches.

use vstd::prelude::*;

use crate::fetch;
use crate::fetch::{MAX_FETCH_SIZE, MIN_FETCH_SIZE};
use crate::http_reader::{
    HttpReader, ReaderState, SeekFrom, KEEP_BEHIND_FETCH_BLOCKS, MAX_WINDOW_BYTES,
};

verus! {

impl ReaderState {
    /// Whether a reader can be in this state: its numbers are offsets, and a
    /// window that is not empty lies within the file.
    pub open spec fn valid(self) -> bool {
        &&& self.position <= u64::MAX
        &&& self.size <= u64::MAX
        &&& MIN_FETCH_SIZE <= self.fetch_size <= MAX_FETCH_SIZE
        &&& self.window.len() > 0 ==> self.end() <= self.size
    }

    /// Whether the remote file is `content` and the window holds bytes of it.
    pub open spec fn coherent(self, content: Seq<u8>) -> bool {
        &&& content.len() == self.size
        &&& self.window.len() > 0 ==> self.window == content.subrange(
            self.start as int,
            self.end() as int,
        )
    }

    /// Whether the window is within its limit.
    pub open spec fn bounded(self) -> bool {
        self.window.len() <= self.max_window()
    }

    /// The state after the next request has been answered with the bytes of
    /// `content` that it asks for.
    pub open spec fn served(self, content: Seq<u8>) -> ReaderState {
        self.appended(
            content.subrange(self.request().from as int, self.request().end + 1),
        ).evicted()
    }

    /// A read of `want` bytes, every request of which is answered with bytes of
    /// `content`: the bytes that it gives and the state that it leaves.
    pub open spec fn whole_read(self, content: Seq<u8>, want: nat) -> (Seq<u8>, ReaderState)
        decreases want, (if self.covers(self.position) {
            0nat
        } else {
            1nat
        }),
        when self.valid() && content.len() == self.size
    {
        proof {
            if !self.finishes(want) {
                lemma_read_on(self, want);
                lemma_served(self.read_on(want), content);
            }
        }
        let n = self.ready(want);
        let next = self.read_on(want);
        if self.finishes(want) {
            (self.bytes(n), next)
        } else {
            let (rest, last) = next.served(content).whole_read(content, (want - n) as nat);
            (self.bytes(n) + rest, last)
        }
    }

    /// Where a read of `want` bytes stops: `want` bytes on, or at the end of the
    /// file.
    pub open spec fn read_end(self, want: nat) -> nat {
        if self.position >= self.size {
            self.position
        } else {
            fetch::min((self.position + want) as int, self.size as int) as nat
        }
    }

    /// The bytes of `content` that a read of `want` bytes is owed.
    pub open spec fn owed(self, content: Seq<u8>, want: nat) -> Seq<u8> {
        if self.position >= self.size {
            Seq::empty()
        } else {
            content.subrange(self.position as int, self.read_end(want) as int)
        }
    }
}

/// The state of a well-formed reader is valid, so that the laws below speak of
/// every such reader.
pub proof fn law_readers_are_valid(reader: HttpReader)
    requires
        reader.wf(),
    ensures
        reader@.valid(),
{
}

/// Going on with a read keeps a state valid, and leaves it awaiting a fetch
/// where the read is not over.
pub proof fn lemma_read_on(s: ReaderState, want: nat)
    requires
        s.valid(),
    ensures
        s.read_on(want).valid(),
        s.read_on(want).size == s.size,
        s.read_on(want).position == s.position + s.ready(want),
        !s.finishes(want) ==> s.read_on(want).awaits_fetch(),
{
}

/// An answered request puts the position into the window and changes nothing
/// else of what a read depends on.
pub proof fn lemma_served(s: ReaderState, content: Seq<u8>)
    requires
        s.valid(),
        s.awaits_fetch(),
        content.len() == s.size,
    ensures
        s.served(content).valid(),
        s.served(content).covers(s.position),
        s.served(content).position == s.position,
        s.served(content).size == s.size,
        s.served(content).fetch_size == s.fetch_size,
{
}

/// Answers from the file keep the window a part of the file.
proof fn lemma_served_coherent(s: ReaderState, content: Seq<u8>)
    requires
        s.valid(),
        s.awaits_fetch(),
        s.coherent(content),
    ensures
        s.served(content).coherent(content),
{
    let body = content.subrange(s.request().from as int, s.request().end + 1);
    let full = s.appended(body);
    assert(full.window =~= content.subrange(full.start as int, full.end() as int));
    let last = s.served(content);
    assert(last.window =~= content.subrange(last.start as int, last.end() as int));
}

/// No operation ever makes the window anything but a part of the file: neither a
/// seek, nor a step of a read, nor an answer from the file, nor a fork, whose
/// window is empty.
pub proof fn law_window_is_part_of_the_file(
    s: ReaderState,
    content: Seq<u8>,
    offset: nat,
    want: nat,
)
    requires
        s.valid(),
        s.coherent(content),
        offset <= u64::MAX,
    ensures
        s.at(offset).valid() && s.at(offset).coherent(content),
        s.aligned().valid() && s.aligned().coherent(content),
        s.read_on(want).valid() && s.read_on(want).coherent(content),
        s.awaits_fetch() ==> s.served(content).valid() && s.served(content).coherent(content),
        (ReaderState { start: s.position, window: Seq::empty(), ..s }).coherent(content),
{
    lemma_read_on(s, want);
    if s.awaits_fetch() {
        lemma_served(s, content);
        lemma_served_coherent(s, content);
    }
}

/// A read whose requests are answered from the file gives exactly the bytes of
/// the file from the position on, as many as asked for or as there are, moves
/// the position behind them, and keeps the window a part of the file.
pub proof fn law_read_delivers_content(s: ReaderState, content: Seq<u8>, want: nat)
    requires
        s.valid(),
        s.coherent(content),
    ensures
        s.whole_read(content, want).0 == s.owed(content, want),
        s.whole_read(content, want).1.position == s.read_end(want),
        s.whole_read(content, want).1.size == s.size,
        s.whole_read(content, want).1.valid(),
        s.whole_read(content, want).1.coherent(content),
    decreases want, (if s.covers(s.position) {
        0nat
    } else {
        1nat
    }),
{
    let n = s.ready(want);
    let next = s.read_on(want);
    lemma_read_on(s, want);
    assert(next.coherent(content));
    if n > 0 {
        assert(s.bytes(n) =~= content.subrange(s.position as int, (s.position + n) as int));
    }
    if s.finishes(want) {
        if s.position < s.size {
            assert(s.bytes(n) =~= content.subrange(
                s.position as int,
                s.read_end(want) as int,
            ));
        } else {
            assert(s.bytes(n) =~= Seq::empty());
        }
    } else {
        lemma_served(next, content);
        lemma_served_coherent(next, content);
        let after = next.served(content);
        law_read_delivers_content(after, content, (want - n) as nat);
        assert(s.bytes(n) + after.whole_read(content, (want - n) as nat).0 =~= content.subrange(
            s.position as int,
            s.read_end(want) as int,
        ));
    }
}

/// What two reads one after the other are owed is what one read of both lengths
/// is owed.
proof fn lemma_owed_concatenates(
    s: ReaderState,
    mid: ReaderState,
    content: Seq<u8>,
    first: nat,
    second: nat,
)
    requires
        content.len() == s.size,
        mid.position == s.read_end(first),
        mid.size == s.size,
    ensures
        s.owed(content, first) + mid.owed(content, second) == s.owed(content, first + second),
{
    assert(s.owed(content, first) + mid.owed(content, second) =~= s.owed(
        content,
        first + second,
    ));
}

/// Two reads one after the other give what one read of both lengths gives.
pub proof fn law_reads_concatenate(s: ReaderState, content: Seq<u8>, first: nat, second: nat)
    requires
        s.valid(),
        s.coherent(content),
    ensures
        s.whole_read(content, first).0 + s.whole_read(content, first).1.whole_read(
            content,
            second,
        ).0 == s.whole_read(content, first + second).0,
{
    law_read_delivers_content(s, content, first);
    law_read_delivers_content(s, content, first + second);
    let mid = s.whole_read(content, first).1;
    law_read_delivers_content(mid, content, second);
    lemma_owed_concatenates(s, mid, content, first, second);
}

/// What a read gives depends on the file and the position alone, not on what the
/// window happens to hold; so a forked reader gives what its origin gives.
pub proof fn law_window_never_shows(a: ReaderState, b: ReaderState, content: Seq<u8>, want: nat)
    requires
        a.valid(),
        b.valid(),
        a.coherent(content),
        b.coherent(content),
        a.position == b.position,
    ensures
        a.whole_read(content, want).0 == b.whole_read(content, want).0,
        a.whole_read(content, want).1.position == b.whole_read(content, want).1.position,
{
    law_read_delivers_content(a, content, want);
    law_read_delivers_content(b, content, want);
}

/// A read before the end of the file never ends empty-handed: it gives a byte
/// from the window, or it asks for the range that starts at the position.
pub proof fn law_no_false_end_of_file(s: ReaderState, want: nat)
    requires
        s.valid(),
        s.position < s.size,
        want > 0,
    ensures
        s.finishes(want) ==> s.ready(want) > 0,
        s.ready(want) == 0 ==> {
            &&& !s.finishes(want)
            &&& s.read_on(want).request().from == s.position
            &&& s.read_on(want).awaits_fetch()
        },
{
}

/// A read that misses the window asks for the range at the position. It keeps
/// the window only where that ends at the position; any other is dropped whole.
pub proof fn law_miss_fetches_at_the_position(s: ReaderState)
    requires
        s.valid(),
        s.needs_fetch(),
    ensures
        s.aligned().request().from == s.position,
        s.aligned().end() == s.position,
        s.position == s.end() ==> s.aligned().window == s.window,
        s.position != s.end() ==> s.aligned().window.len() == 0,
{
}

/// Reading on without a seek asks for each byte at most once: the next request
/// starts right behind the last one.
pub proof fn law_requests_are_contiguous(s: ReaderState, content: Seq<u8>, want: nat)
    requires
        s.valid(),
        s.awaits_fetch(),
        content.len() == s.size,
        !s.served(content).finishes(want),
    ensures
        s.served(content).read_on(want).request().from == s.request().end + 1,
{
    lemma_served(s, content);
}

/// After any fetch, a seek back by at most what is kept behind the position to a
/// byte that the window held before is still served from the window, and with
/// that byte. What is kept is two fetches, unless these and the one just made
/// are more than a window may hold.
pub proof fn law_short_seek_back_survives_fetch(s: ReaderState, content: Seq<u8>, offset: nat)
    requires
        s.valid(),
        s.awaits_fetch(),
        s.coherent(content),
        s.covers(offset),
        offset >= s.position - fetch::min(
            s.fetch_size * KEEP_BEHIND_FETCH_BLOCKS,
            MAX_WINDOW_BYTES - s.request().len(),
        ),
    ensures
        s.served(content).covers(offset),
        !s.served(content).at(offset).needs_fetch(),
        s.served(content).at(offset).bytes(1)[0] == content[offset as int],
{
    lemma_served_coherent(s, content);
}

/// Dropping the front of the window keeps every byte that lies at most
/// `keep_behind` before the position, and everything from the position on.
pub proof fn law_eviction_keeps_tail(s: ReaderState, offset: nat)
    requires
        s.valid(),
        s.evictable() <= s.window.len(),
        s.covers(offset),
        offset >= s.position - s.keep_behind(),
    ensures
        s.evicted().covers(offset),
        s.evicted().window[offset - s.evicted().start] == s.window[offset - s.start],
{
}

/// Dropping the front of the window keeps every byte within
/// `KEEP_BEHIND_FETCH_BLOCKS` fetches before the position, wherever these and
/// what lies ahead of the position fit into `MAX_WINDOW_BYTES`.
pub proof fn law_eviction_keeps_whole_fetches(s: ReaderState, offset: nat)
    requires
        s.valid(),
        s.evictable() <= s.window.len(),
        s.covers(offset),
        offset >= s.position - s.fetch_size * KEEP_BEHIND_FETCH_BLOCKS,
        s.fetch_size * KEEP_BEHIND_FETCH_BLOCKS + s.ahead() <= MAX_WINDOW_BYTES,
    ensures
        s.evicted().covers(offset),
        s.evicted().window[offset - s.evicted().start] == s.window[offset - s.start],
{
    law_eviction_keeps_tail(s, offset);
}

/// A seek to any byte of the window is served from it: the read needs no fetch
/// for its first byte.
pub proof fn law_seek_into_window_is_a_hit(s: ReaderState, offset: nat, want: nat)
    requires
        s.valid(),
        s.covers(offset),
        want > 0,
    ensures
        !s.at(offset).needs_fetch(),
        s.at(offset).ready(want) == fetch::min(s.end() - offset, want as int),
        s.at(offset).ready(want) > 0,
        s.at(offset).bytes(1)[0] == s.window[offset - s.start],
{
}

/// Seeking by a distance and back by the same distance restores the state.
pub proof fn law_seek_back_restores(s: ReaderState, distance: i64)
    requires
        s.valid(),
        distance != i64::MIN,
        0 <= s.seek_target(SeekFrom::Current(distance)),
    ensures
        s.at(s.seek_target(SeekFrom::Current(distance)) as nat).seek_target(
            SeekFrom::Current((-distance) as i64),
        ) == s.position,
        s.at(s.seek_target(SeekFrom::Current(distance)) as nat).at(s.position) == s,
{
}

/// Seeks, reads and answered requests keep the window within its limit, which
/// is never more than `MAX_WINDOW_BYTES`.
pub proof fn law_window_stays_bounded(s: ReaderState, content: Seq<u8>, want: nat, offset: nat)
    requires
        s.valid(),
        s.bounded(),
        content.len() == s.size,
    ensures
        s.window.len() <= MAX_WINDOW_BYTES,
        s.at(offset).bounded(),
        s.read_on(want).bounded(),
        s.awaits_fetch() ==> s.served(content).bounded(),
        s.whole_read(content, want).1.bounded(),
    decreases want, (if s.covers(s.position) {
        0nat
    } else {
        1nat
    }),
{
    lemma_read_on(s, want);
    if !s.finishes(want) {
        let next = s.read_on(want);
        lemma_served(next, content);
        law_window_stays_bounded(
            next.served(content),
            content,
            (want - s.ready(want)) as nat,
            offset,
        );
    }
}

} // verus!
