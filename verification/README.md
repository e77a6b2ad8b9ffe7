# rapidgzip_cli

The decision logic of `rapidgzip-rs-cli`, a command-line decompressor for `.gz`
and `.bgz` data from local files, standard input and HTTP servers that answer
range requests. The logic is written in Verus: its functions
state what they do, and Verus proves it.

## Layout

- `src/` is the verified library.
  - `cli`, `arguments`: the command line, declared to and taken apart by `clap`.
  - `input`, `output`, `paths`: what the input is, how it is read, and where the
    output goes.
  - `probe`, `headers`: whether a server can be read from, and how long its file
    is.
  - `fetch`, `http_reader`: range requests, and a reader over a remote file with
    a sliding window of it in memory.
  - `reader_laws`: what holds of reading a remote file as a whole.
  - `session`, `notices`: the steps of a run, what it counts, and what it tells
    the user.
  - `decimal`, `text`, `error`: numbers, texts and the error of the reader.
- `app/` is the program around it: it performs the requests, the file operations
  and the decompression that the library asks for.
- `tests/` runs the library.

## What is trusted

Calls into `clap`, `url`, `http` (through `ureq`), `bytecount` and the paths of
`std` are declared with contracts that Verus takes as given. Each of them has a
comment that says what is claimed of the outside function.

## Behavior notes

- A local input gets an output path by default, such as `reads.fastq.gz` to
  `reads.fastq`; standard input and HTTP inputs need `--output` or `--stdout`.
- An HTTP input needs a server that answers range requests with partial content.
- `--import-index` takes a local path or an HTTP or HTTPS URL; the latter is
  downloaded with a plain request.
- An HTTP input without an imported index is read sequentially unless a mode is
  chosen.
