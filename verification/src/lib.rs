//! Command assembly for an interactive jq session driven by fzf.
//!
//! A session lets the user type a jq filter into fzf and shows what jq makes
//! of the input files in fzf's preview. This library builds the jq pipelines
//! and the fzf invocation from the options, and decides, step by step, what a
//! session does; reading, copying, printing and starting programs is left to
//! its caller.

pub mod bindings;
pub mod charcounter;
pub mod error;
pub mod fzf;
pub mod input;
pub mod laws;
pub mod opt;
pub mod pipeline;
pub mod process;
pub mod quote;
pub mod render;
pub mod session;
pub mod text;
pub mod version;

pub use error::{exit_code, Error, ExitStatus, IoFailure};
pub use fzf::{build_fzf_cmd, render_fzf_command};
pub use input::InputFile;
pub use opt::Opt;
pub use pipeline::get_jq_arg_prefix;
pub use process::{Invocation, Shape, Stdio};
pub use render::RenderPlan;
pub use session::{run, Action, Answer, Event, Phase, Session};
