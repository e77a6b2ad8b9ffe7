//! Decision logic of a parallel gzip decompressor for local files, standard
//! input and HTTP range sources.

pub mod arguments;
pub mod cli;
pub mod cli_laws;
pub mod decimal;
pub mod error;
pub mod fetch;
pub mod headers;
pub mod http_reader;
pub mod input;
pub mod input_laws;
pub mod notice_laws;
pub mod notices;
pub mod output;
pub mod output_laws;
pub mod paths;
pub mod probe;
pub mod reader_call_laws;
pub mod reader_laws;
pub mod server_laws;
pub mod session;
pub mod session_laws;
pub mod text;
pub mod text_laws;
