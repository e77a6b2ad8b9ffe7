use rapidgzip_cli::error::{ErrorKind, ReadError};
use rapidgzip_cli::fetch::{
    body_limit, check_range_status, compute_fetch_size, read_response_body, request_failed,
    RangeRequest, MAX_FETCH_SIZE, MIN_FETCH_SIZE,
};
use rapidgzip_cli::headers::{parse_content_length, parse_content_range_total, range_total};
use rapidgzip_cli::http_reader::{
    checked_relative_seek, FetchEvent, FetchStep, HttpReader, ReadStep, SeekFrom,
    KEEP_BEHIND_FETCH_BLOCKS, MAX_WINDOW_BYTES, MAX_WINDOW_FETCH_BLOCKS,
};
use rapidgzip_cli::probe::{
    decide_probe, probe_size_and_range_support, ProbeError, ProbeState, ProbeStep,
};

fn test_reader(position: u64, size: u64) -> HttpReader {
    HttpReader {
        url: "https://example.invalid/test.gz".into(),
        position,
        size,
        fetch_size: MIN_FETCH_SIZE,
        buffer_start: 0,
        buffer: Vec::new(),
    }
}

fn reader_with_buffer(position: u64, buffer_start: u64, buffer: Vec<u8>) -> HttpReader {
    let size = buffer_start + buffer.len() as u64 + 1024;
    HttpReader {
        url: "https://example.invalid/test.gz".into(),
        position,
        size,
        fetch_size: MIN_FETCH_SIZE,
        buffer_start,
        buffer,
    }
}

/// Reads with a network on which every request fails.
fn read_offline(reader: &mut HttpReader, buf: &mut [u8]) -> Result<usize, ReadError> {
    let mut step = reader.read(buf, false)?;
    loop {
        match step {
            ReadStep::Done(n) => return Ok(n),
            ReadStep::Fetch { filled, .. } => {
                reader.on_fetch(FetchEvent::RequestFailed("no network".into()))?;
                step = reader.continue_read(buf, filled);
            }
        }
    }
}

/// Reads from a server that answers every range request from `content`, and
/// notes the requests.
fn read_online(
    reader: &mut HttpReader,
    buf: &mut [u8],
    content: &[u8],
    requests: &mut Vec<RangeRequest>,
) -> Result<usize, ReadError> {
    let mut step = reader.read(buf, false)?;
    loop {
        match step {
            ReadStep::Done(n) => return Ok(n),
            ReadStep::Fetch { filled, request } => {
                requests.push(request);
                let limit = match reader.on_fetch(FetchEvent::Status(206))? {
                    FetchStep::ReadBody { limit } => limit,
                    FetchStep::Appended => panic!("no body was read"),
                };
                let body = content[request.from as usize..=request.end as usize].to_vec();
                assert_eq!(limit, body.len() as u64 + 1);
                assert_eq!(
                    reader.on_fetch(FetchEvent::Body(body))?,
                    FetchStep::Appended
                );
                step = reader.continue_read(buf, filled);
            }
        }
    }
}

fn pattern(len: usize) -> Vec<u8> {
    (0..len).map(|index| (index % 251) as u8).collect()
}

#[test]
fn current_seek_rejects_overflow() {
    let mut reader = test_reader(u64::MAX - 1, u64::MAX - 1);
    let error = reader.seek(SeekFrom::Current(5)).unwrap_err();
    assert_eq!(error.kind(), ErrorKind::InvalidInput);
    assert_eq!(error.message, "Seek overflow for stream");
    assert_eq!(reader.position, u64::MAX - 1);
}

#[test]
fn end_seek_rejects_overflow() {
    let mut reader = test_reader(0, u64::MAX - 1);
    let error = reader.seek(SeekFrom::End(5)).unwrap_err();
    assert_eq!(error.kind(), ErrorKind::InvalidInput);
}

#[test]
fn current_seek_rejects_underflow() {
    let mut reader = test_reader(2, 10);
    let error = reader.seek(SeekFrom::Current(-3)).unwrap_err();
    assert_eq!(error.kind(), ErrorKind::InvalidInput);
    assert_eq!(error.message, "Seek before start of stream");
    assert_eq!(reader.position, 2);
}

#[test]
fn seeks_go_where_they_say() {
    let mut reader = test_reader(2, 10);
    assert_eq!(reader.seek(SeekFrom::Start(7)).unwrap(), 7);
    assert_eq!(reader.seek(SeekFrom::Current(-4)).unwrap(), 3);
    assert_eq!(reader.seek(SeekFrom::Current(4)).unwrap(), 7);
    assert_eq!(reader.seek(SeekFrom::End(-1)).unwrap(), 9);
    assert_eq!(reader.seek(SeekFrom::End(90)).unwrap(), 100);
    let mut buf = [0u8; 4];
    assert_eq!(read_offline(&mut reader, &mut buf).unwrap(), 0);
}

#[test]
fn relative_seeks_cover_the_whole_range() {
    assert_eq!(checked_relative_seek(0, 0, "x").unwrap(), 0);
    assert_eq!(
        checked_relative_seek(1 << 63, i64::MIN, "x").unwrap(),
        0
    );
    let error = checked_relative_seek((1 << 63) - 1, i64::MIN, "file").unwrap_err();
    assert_eq!(error.message, "Seek before start of file");
    assert_eq!(
        checked_relative_seek(u64::MAX - 9, 9, "x").unwrap(),
        u64::MAX
    );
}

#[test]
fn fetch_size_has_minimum_and_cap() {
    assert_eq!(compute_fetch_size(1, 1, None), MIN_FETCH_SIZE);
    assert_eq!(compute_fetch_size(u64::MAX, u32::MAX, None), MAX_FETCH_SIZE);
}

#[test]
fn fetch_size_uses_chunk_size_and_parallelism() {
    assert_eq!(
        compute_fetch_size(4 * 1024 * 1024, 2, None),
        16 * 1024 * 1024
    );
}

#[test]
fn fetch_size_falls_back_to_the_machine() {
    let chunk = 1024 * 1024;
    assert_eq!(compute_fetch_size(chunk, 0, Some(3)), 6 * 1024 * 1024);
    assert_eq!(compute_fetch_size(chunk, 0, None), 2 * 1024 * 1024);
    assert_eq!(compute_fetch_size(chunk, 1, Some(30)), 2 * 1024 * 1024);
    assert!(compute_fetch_size(chunk, 2, None) <= compute_fetch_size(2 * chunk, 3, None));
}

#[test]
fn parse_total_size_from_content_range() {
    let resp = ureq::http::Response::builder()
        .status(206)
        .header("Content-Range", "bytes 0-0/12345")
        .body(())
        .unwrap();
    assert_eq!(parse_content_range_total(resp.headers()), Some(12345));
}

#[test]
fn lengths_are_read_from_headers() {
    let resp = ureq::http::Response::builder()
        .header("Content-Length", "00042")
        .header("Content-Length", "7")
        .header("Content-Range", "bytes 0-0/*")
        .body(())
        .unwrap();
    assert_eq!(parse_content_length(resp.headers()), Some(42));
    assert_eq!(parse_content_range_total(resp.headers()), None);

    let bare = ureq::http::Response::builder().body(()).unwrap();
    assert_eq!(parse_content_length(bare.headers()), None);
    assert_eq!(parse_content_range_total(bare.headers()), None);

    let value = ureq::http::HeaderValue::from_bytes(b"1\xff").unwrap();
    let strange = ureq::http::Response::builder()
        .header("Content-Length", value)
        .body(())
        .unwrap();
    assert_eq!(parse_content_length(strange.headers()), None);
}

#[test]
fn range_totals_are_read_behind_the_last_slash() {
    assert_eq!(range_total("bytes 0-0/5"), Some(5));
    assert_eq!(range_total("a/b/6"), Some(6));
    assert_eq!(range_total("12"), None);
    assert_eq!(range_total("bytes 0-0/"), None);
    assert_eq!(range_total("bytes 0-0/ 5"), None);
    assert_eq!(
        range_total(&format!("bytes 0-0/{}", u64::MAX)),
        Some(u64::MAX)
    );
}

#[test]
fn large_http_range_reads_are_not_limited_by_ureq_default_cap() {
    let data = (0..(11 * 1024 * 1024 + 17))
        .map(|index| (index % 251) as u8)
        .collect::<Vec<_>>();
    let response = ureq::http::Response::builder()
        .status(206)
        .header("Content-Length", data.len().to_string())
        .body(ureq::Body::builder().data(data.clone()))
        .unwrap();

    let read = response
        .into_body()
        .into_with_config()
        .limit(body_limit(data.len()))
        .read_to_vec()
        .map_err(|error| error.to_string());
    let body = read_response_body(read, data.len(), "bytes=0-11534352", 0).unwrap();

    assert_eq!(body, data);
}

#[test]
fn bodies_of_the_wrong_length_are_refused() {
    let error = read_response_body(Ok(vec![1, 2]), 3, "bytes=4-6", 4).unwrap_err();
    assert_eq!(error.kind(), ErrorKind::UnexpectedEof);
    assert_eq!(
        error.message,
        "HTTP body length mismatch for range bytes=4-6: expected 3 bytes, got 2"
    );
    let error = read_response_body(Err("broken pipe".into()), 3, "bytes=4-6", 4).unwrap_err();
    assert_eq!(error.kind(), ErrorKind::Other);
    assert_eq!(
        error.message,
        "Failed to read HTTP response body for range bytes=4-6 at position 4: broken pipe"
    );
    assert_eq!(
        read_response_body(Ok(vec![1, 2, 3]), 3, "bytes=4-6", 4).unwrap(),
        vec![1, 2, 3]
    );
}

#[test]
fn only_partial_content_is_taken() {
    assert!(check_range_status(206).is_ok());
    let error = check_range_status(200).unwrap_err();
    assert_eq!(error.kind(), ErrorKind::InvalidData);
    assert_eq!(
        error.message,
        "Expected HTTP 206 Partial Content, but got 200. The server might be ignoring Range headers."
    );
    let error = request_failed("bytes=0-9", 0, "timeout");
    assert_eq!(
        error.message,
        "HTTP request failed for range bytes=0-9 at position 0: timeout"
    );
}

#[test]
fn requests_end_with_the_file() {
    let request = RangeRequest::new(10, 100, 1000);
    assert_eq!(request, RangeRequest { from: 10, end: 109 });
    assert_eq!(request.header(), "bytes=10-109");
    assert_eq!(request.expected_response_bytes(), 100);
    let last = RangeRequest::new(990, 100, 1000);
    assert_eq!(last.header(), "bytes=990-999");
    let edge = RangeRequest::new(u64::MAX - 2, MAX_FETCH_SIZE, u64::MAX);
    assert_eq!(edge.end, u64::MAX - 1);
}

/// Backward seek within the retained window must be a cache hit.
#[test]
fn backward_seek_within_window_is_cache_hit() {
    // Fill a buffer: bytes 0..4096, position at 4096 (just past end).
    let buf_data: Vec<u8> = (0u8..=255).cycle().take(4096).collect();
    let mut reader = reader_with_buffer(4096, 0, buf_data.clone());

    // Seek backward to byte 1024, still within buffer.
    reader.seek(SeekFrom::Start(1024)).unwrap();

    // Read 16 bytes, which must come from the window.
    let mut out = vec![0u8; 16];
    let n = read_offline(&mut reader, &mut out).unwrap();
    assert_eq!(n, 16);
    assert_eq!(out, buf_data[1024..1040]);
    assert!(reader.ensure_buffered().is_none());
}

/// maybe_evict must not evict data within KEEP_BEHIND_FETCH_BLOCKS
/// of the current position.
#[test]
fn eviction_keeps_required_tail() {
    let fetch_size = MIN_FETCH_SIZE;
    // A buffer large enough to trigger eviction.
    let window_bytes = fetch_size * (MAX_WINDOW_FETCH_BLOCKS + 1);
    let buf_data: Vec<u8> = vec![0xAB; window_bytes];
    // Position is at the very end of the buffer.
    let position = window_bytes as u64;
    let mut reader = reader_with_buffer(position, 0, buf_data);

    reader.maybe_evict();

    let keep_behind = (fetch_size * KEEP_BEHIND_FETCH_BLOCKS) as u64;
    let min_start = position.saturating_sub(keep_behind);
    assert!(
        reader.buffer_start >= min_start,
        "buffer_start ({}) must be >= {} (position {} - keep_behind {})",
        reader.buffer_start,
        min_start,
        position,
        keep_behind
    );
    assert!(
        reader.buffer_start <= position && position <= reader.buffer_end(),
        "position must still be within buffer after eviction"
    );
    assert_eq!(reader.buffer_start, min_start);
}

/// A forward seek with a gap (position > buffer_end) must reset the buffer
/// to `position` before fetching, not append from `buffer_end()`.
#[test]
fn forward_seek_gap_does_not_return_false_eof() {
    let buf_data: Vec<u8> = vec![0u8; 1024];
    // buffer covers [0, 1024); jump far past it.
    let far_position = 99_999u64;
    let size = far_position + 1024;
    let mut reader = HttpReader {
        url: "https://example.invalid/test.gz".into(),
        position: far_position,
        size,
        fetch_size: MIN_FETCH_SIZE,
        buffer_start: 0,
        buffer: buf_data,
    };

    let mut out = vec![0u8; 16];
    let result = read_offline(&mut reader, &mut out);
    // Must NOT be Ok(0): that would be a false EOF before the file ends.
    assert!(
        result.is_err(),
        "expected a network error from the required fetch, not Ok(0) (false EOF); got {:?}",
        result
    );
    let error = result.unwrap_err();
    assert_eq!(error.kind(), ErrorKind::Other);
    assert_eq!(
        error.message,
        "HTTP request failed for range bytes=99999-101022 at position 99999: no network"
    );
    assert_eq!(reader.buffer_start, far_position);
    assert_eq!(reader.position, far_position);
}

#[test]
fn reading_gives_the_file_back() {
    let content = pattern(7 * MIN_FETCH_SIZE + 321);
    let mut reader = test_reader(0, content.len() as u64);
    let mut requests = Vec::new();
    let mut got = Vec::new();
    let mut buf = vec![0u8; 700_001];
    loop {
        let n = read_online(&mut reader, &mut buf, &content, &mut requests).unwrap();
        if n == 0 {
            break;
        }
        got.extend_from_slice(&buf[..n]);
        assert!(reader.buffer.len() <= MAX_WINDOW_FETCH_BLOCKS * MIN_FETCH_SIZE);
    }
    assert!(got == content);
    assert_eq!(requests.len(), 8);
    assert_eq!(reader.position, content.len() as u64);
}

#[test]
fn one_read_equals_two_reads() {
    let content = pattern(3 * MIN_FETCH_SIZE);
    let mut requests = Vec::new();
    let mut one = test_reader(5, content.len() as u64);
    let mut whole = vec![0u8; 2 * MIN_FETCH_SIZE];
    assert_eq!(
        read_online(&mut one, &mut whole, &content, &mut requests).unwrap(),
        whole.len()
    );
    let mut two = test_reader(5, content.len() as u64);
    let mut parts = vec![0u8; 2 * MIN_FETCH_SIZE];
    let (left, right) = parts.split_at_mut(777);
    read_online(&mut two, left, &content, &mut requests).unwrap();
    read_online(&mut two, right, &content, &mut requests).unwrap();
    assert!(whole == parts);
    assert_eq!(one.position, two.position);
}

#[test]
fn forks_read_the_same_with_a_window_of_their_own() {
    let content = pattern(2 * MIN_FETCH_SIZE);
    let mut requests = Vec::new();
    let mut reader = test_reader(0, content.len() as u64);
    let mut buf = vec![0u8; 1000];
    read_online(&mut reader, &mut buf, &content, &mut requests).unwrap();
    let mut fork = reader.fork();
    assert_eq!(fork.url, reader.url);
    assert_eq!(fork.position, 1000);
    assert_eq!(fork.buffer_start, 1000);
    assert!(fork.buffer.is_empty());
    let mut other = vec![0u8; 1000];
    read_online(&mut reader, &mut buf, &content, &mut requests).unwrap();
    read_online(&mut fork, &mut other, &content, &mut requests).unwrap();
    assert_eq!(buf, other);
    assert_eq!(buf, content[1000..2000]);
}

#[test]
fn cancelled_reads_are_interrupted() {
    let mut reader = test_reader(0, 10);
    let mut buf = [0u8; 4];
    let error = reader.read(&mut buf, true).unwrap_err();
    assert_eq!(error.kind(), ErrorKind::Interrupted);
    assert_eq!(error.message, "Interrupted by user");
    assert_eq!(reader.read(&mut [], true).unwrap(), ReadStep::Done(0));
    let mut at_end = test_reader(10, 10);
    assert_eq!(at_end.read(&mut buf, true).unwrap(), ReadStep::Done(0));
}

#[test]
fn failed_fetches_change_nothing() {
    let mut reader = test_reader(0, 2000);
    let request = reader.ensure_buffered().unwrap();
    assert_eq!(request, RangeRequest { from: 0, end: 1999 });
    let error = reader.on_fetch(FetchEvent::Status(404)).unwrap_err();
    assert_eq!(error.kind(), ErrorKind::InvalidData);
    let error = reader
        .on_fetch(FetchEvent::Body(vec![0; 1999]))
        .unwrap_err();
    assert_eq!(error.kind(), ErrorKind::UnexpectedEof);
    let error = reader
        .on_fetch(FetchEvent::BodyFailed("reset".into()))
        .unwrap_err();
    assert_eq!(
        error.message,
        "Failed to read HTTP response body for range bytes=0-1999 at position 0: reset"
    );
    assert!(reader.buffer.is_empty());
    assert_eq!(reader.position, 0);
}

#[test]
fn readers_start_at_the_beginning() {
    let reader = HttpReader::new("https://h/x.gz".into(), 4 * 1024 * 1024, 2, None, Ok(99)).unwrap();
    assert_eq!(reader.url, "https://h/x.gz");
    assert_eq!(reader.size, 99);
    assert_eq!(reader.position, 0);
    assert_eq!(reader.fetch_size, 16 * 1024 * 1024);
    let error = HttpReader::new("u".into(), 1, 1, None, Err(ProbeError::MissingContentLength))
        .unwrap_err();
    assert_eq!(error, ProbeError::MissingContentLength);
}

#[test]
fn probes_accept_partial_content_only() {
    let resp = ureq::http::Response::builder()
        .status(206)
        .header("Content-Range", "bytes 0-0/777")
        .body(())
        .unwrap();
    assert_eq!(
        probe_size_and_range_support(ProbeState::Range, 206, resp.headers()),
        ProbeStep::Found(777)
    );
    assert_eq!(
        decide_probe(ProbeState::Range, 206, None, Some(5)),
        ProbeStep::Failed(ProbeError::MissingContentRange)
    );
    let head = ProbeState::Head { range_status: 200 };
    assert_eq!(
        decide_probe(ProbeState::Range, 200, Some(5), Some(5)),
        ProbeStep::AskHead(head)
    );
    assert_eq!(
        decide_probe(head, 404, None, Some(5)),
        ProbeStep::Failed(ProbeError::HttpError { status: 404 })
    );
    assert_eq!(
        decide_probe(head, 200, None, None),
        ProbeStep::Failed(ProbeError::MissingContentLength)
    );
    assert_eq!(
        decide_probe(head, 200, None, Some(5)),
        ProbeStep::Failed(ProbeError::RangeUnsupported {
            range_status: 200,
            size: 5
        })
    );
}

#[test]
fn probe_errors_speak_of_the_status() {
    assert_eq!(
        ProbeError::HttpError { status: 404 }.message(),
        "HTTP error: 404 Not Found"
    );
    assert_eq!(
        ProbeError::RangeUnsupported {
            range_status: 200,
            size: 12
        }
        .message(),
        "Server does not support HTTP Range requests (returned status 200 OK to a range GET). rapidgzip requires 206 Partial Content for parallel decompression over HTTP. Reported Content-Length was 12 bytes."
    );
    assert_eq!(
        ProbeError::MissingContentRange.message(),
        "Server returned HTTP 206 but did not provide a valid Content-Range header"
    );
    assert_eq!(
        ProbeError::MissingContentLength.message(),
        "Server did not return Content-Length, cannot seek/parallelize"
    );
}

#[test]
fn requests_are_contiguous_and_the_window_is_bounded() {
    let content = pattern(9 * MIN_FETCH_SIZE + 5);
    let mut reader = test_reader(0, content.len() as u64);
    let mut requests = Vec::new();
    let mut buf = vec![0u8; 300_000];
    loop {
        let n = read_online(&mut reader, &mut buf, &content, &mut requests).unwrap();
        assert!(reader.buffer.len() <= MAX_WINDOW_FETCH_BLOCKS * MIN_FETCH_SIZE);
        if n == 0 {
            break;
        }
    }
    assert_eq!(requests.len(), 10);
    assert_eq!(requests[0].from, 0);
    for pair in requests.windows(2) {
        assert_eq!(pair[1].from, pair[0].end + 1);
    }
    assert_eq!(requests[9].end, content.len() as u64 - 1);
}

#[test]
fn short_seeks_back_survive_a_fetch() {
    let content = pattern(8 * MIN_FETCH_SIZE);
    let mut reader = test_reader(0, content.len() as u64);
    let mut requests = Vec::new();
    let mut buf = vec![0u8; 6 * MIN_FETCH_SIZE + 1];
    read_online(&mut reader, &mut buf, &content, &mut requests).unwrap();
    assert_eq!(requests.len(), 7);

    let back = ((6 - KEEP_BEHIND_FETCH_BLOCKS) * MIN_FETCH_SIZE) as u64;
    reader.seek(SeekFrom::Start(back)).unwrap();
    let mut small = vec![0u8; 64];
    read_online(&mut reader, &mut small, &content, &mut requests).unwrap();
    assert_eq!(small, content[back as usize..back as usize + 64]);
    assert_eq!(requests.len(), 7);

    reader.seek(SeekFrom::Start(0)).unwrap();
    read_online(&mut reader, &mut small, &content, &mut requests).unwrap();
    assert_eq!(small, content[..64]);
    assert_eq!(requests.len(), 8);
    assert_eq!(requests[7].from, 0);
}

#[test]
fn seeking_there_and_back_restores_the_position() {
    let mut reader = reader_with_buffer(100, 0, pattern(4096));
    assert_eq!(reader.seek(SeekFrom::Current(57)).unwrap(), 157);
    assert_eq!(reader.seek(SeekFrom::Current(-57)).unwrap(), 100);
    assert_eq!(reader.buffer, pattern(4096));
}

/// A reader at the end of a window of `blocks` fetches of `fetch_size` bytes.
fn reader_behind_window(fetch_size: usize, blocks: usize) -> HttpReader {
    let length = fetch_size * blocks;
    HttpReader {
        url: "https://example.invalid/test.gz".into(),
        position: length as u64,
        size: (length + 2 * fetch_size) as u64,
        fetch_size,
        buffer_start: 0,
        buffer: vec![7u8; length],
    }
}

#[test]
fn fetched_bytes_are_only_appended() {
    let window = MAX_WINDOW_FETCH_BLOCKS * MIN_FETCH_SIZE;
    let body = pattern(MIN_FETCH_SIZE);
    let mut reader = reader_behind_window(MIN_FETCH_SIZE, MAX_WINDOW_FETCH_BLOCKS);
    let step = reader.fetch_and_append(window as u64, FetchEvent::Body(body.clone()));
    assert_eq!(step.unwrap(), FetchStep::Appended);
    assert_eq!(reader.buffer_start, 0);
    assert_eq!(reader.position, window as u64);
    assert_eq!(reader.buffer.len(), window + MIN_FETCH_SIZE);
    assert_eq!(reader.buffer[window..], body);
    assert!(reader.buffer[..window].iter().all(|byte| *byte == 7));

    let mut reader = reader_behind_window(MIN_FETCH_SIZE, MAX_WINDOW_FETCH_BLOCKS);
    reader.on_fetch(FetchEvent::Body(body)).unwrap();
    let kept = KEEP_BEHIND_FETCH_BLOCKS * MIN_FETCH_SIZE;
    assert_eq!(reader.buffer_start, (window - kept) as u64);
    assert_eq!(reader.buffer.len(), kept + MIN_FETCH_SIZE);
}

#[test]
fn eviction_keeps_two_of_the_largest_fetches() {
    let mut reader = reader_behind_window(MAX_FETCH_SIZE, 3);
    reader.maybe_evict();
    assert_eq!(reader.buffer_start, MAX_FETCH_SIZE as u64);
    assert_eq!(reader.buffer_end(), 3 * MAX_FETCH_SIZE as u64);
}

#[test]
fn fetches_keep_two_fetches_behind_where_they_fit() {
    let fetch_size = 40 * 1024 * 1024;
    let mut reader = reader_behind_window(fetch_size, 3);
    reader
        .on_fetch(FetchEvent::Body(vec![9u8; fetch_size]))
        .unwrap();
    assert_eq!(reader.buffer_start, fetch_size as u64);
    assert_eq!(reader.buffer.len(), 3 * fetch_size);
}

#[test]
fn large_fetches_leave_the_window_within_its_cap() {
    let mut reader = reader_behind_window(MAX_FETCH_SIZE, 2);
    reader
        .on_fetch(FetchEvent::Body(vec![9u8; MAX_FETCH_SIZE]))
        .unwrap();
    assert_eq!(reader.buffer.len(), MAX_WINDOW_BYTES);
    assert_eq!(reader.buffer_start, MAX_FETCH_SIZE as u64);
}

#[test]
fn nothing_is_fetched_behind_the_end() {
    for (size, from) in [(0, 0), (10, 10), (10, u64::MAX), (4096 + 1024, 9000)] {
        for event in [
            FetchEvent::Body(vec![1, 2, 3]),
            FetchEvent::Status(404),
            FetchEvent::RequestFailed("no network".into()),
        ] {
            let mut reader = test_reader(from, size);
            let step = reader.fetch_and_append(from, event).unwrap();
            assert_eq!(step, FetchStep::Appended);
            assert!(reader.buffer.is_empty());
            assert_eq!((reader.position, reader.size), (from, size));
            assert_eq!(reader.buffer_start, 0);
        }
    }
    let mut reader = reader_with_buffer(5120, 0, pattern(4096));
    assert_eq!(reader.size, 5120);
    let step = reader.on_fetch(FetchEvent::Body(vec![1])).unwrap();
    assert_eq!(step, FetchStep::Appended);
    assert_eq!(reader.buffer, pattern(4096));
}
