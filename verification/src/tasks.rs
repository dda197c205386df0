//! The commands of the workspace maintenance tool.

use vstd::prelude::*;

verus! {

/// The maintenance tool's command line.
#[derive(Debug)]
pub struct Cli {
    pub command: Command,
}

/// A maintenance command.
#[derive(Debug)]
pub enum Command {
    /// Build generated workspace artifacts.
    Build { target: BuildCommand },
    /// Preview generated workspace artifacts.
    Preview { target: PreviewCommand },
    /// Release workspace crates in registry dependency order.
    Release { action: ReleaseCommand },
}

/// What to build.
#[derive(Clone, Copy, Debug, PartialEq, Eq, Structural)]
pub enum BuildCommand {
    /// The book documentation.
    Book,
    /// `llms.txt` from the book sources.
    LlmsTxt,
    /// The web site.
    Web,
}

/// What to preview.
#[derive(Clone, Copy, Debug, PartialEq, Eq, Structural)]
pub enum PreviewCommand {
    /// The generated static site.
    Web,
}

/// A release action.
#[derive(Debug)]
pub enum ReleaseCommand {
    /// Print the publish order for workspace crates.
    Plan,
    /// Publish workspace crates in registry dependency order.
    Publish(ReleasePublishArgs),
}

/// Options of a publish run.
#[derive(Debug)]
pub struct ReleasePublishArgs {
    pub execute: bool,
    pub from: Option<String>,
    pub registry: Option<String>,
    pub allow_dirty: bool,
    pub skip_verify: bool,
    pub include_dev_deps: bool,
    pub skip_existing: bool,
    pub retries: u32,
    pub retry_delay_seconds: u64,
}

impl ReleasePublishArgs {
    /// The options when no flag is given: a dry run with three retries twenty
    /// seconds apart.
    pub fn defaults() -> (r: Self)
        ensures
            !r.execute,
            r.from is None,
            r.registry is None,
            !r.allow_dirty,
            !r.skip_verify,
            !r.include_dev_deps,
            !r.skip_existing,
            r.retries == 3,
            r.retry_delay_seconds == 20,
    {
        ReleasePublishArgs {
            execute: false,
            from: None,
            registry: None,
            allow_dirty: false,
            skip_verify: false,
            include_dev_deps: false,
            skip_existing: false,
            retries: 3,
            retry_delay_seconds: 20,
        }
    }
}

} // verus!
