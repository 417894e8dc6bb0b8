//! Orchestration logic for a desktop tool that downloads audio with an
//! external downloader and splits it into stems with an external separator.
//!
//! Each operation is a small state machine: it hands its runner a request
//! (probe a program, create a directory, run a program), takes back what
//! happened, and ends with a result or an error text.

mod download;
mod export;
mod paths;
mod pipeline;
mod separate;
mod source;
mod text;

pub use download::{download_invocation, download_result, AudioInfo, DownloadJob};
pub use export::{app_data_dir_result, export_result, plan_export, suggested_file_name, CopyRequest};
pub use paths::join_path;
pub use pipeline::{accepts, with_prefix, Event, Invocation, Request, Stage, Step, ToolOutput};
pub use separate::{separated_files, separation_invocation, separation_result, SeparatedFiles, SeparationJob};
pub use source::{source_from_host, source_of};
pub use text::{is_space, output_fields, trim};
