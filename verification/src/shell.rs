//! Shell-wide state: the status message, the workspace switcher, the Home
//! and Sources screens, the parser bench, and cache-load progress.
use vstd::prelude::*;
use crate::jobs::JobSummary;
use crate::tabs::{HomeStats, TuiMode, WorkspaceSwitcherMode};
use crate::text::{owned, push_str};
use vstd::utf8::encode_utf8;

verus! {

/// Status message shown in the shell header until it expires.
#[derive(Debug)]
pub struct GlobalStatusMessage {
    pub message: String,
    pub is_error: bool,
    pub expires_at: std::time::Instant,
}

/// A workspace: its id (a UUID as a 128-bit value), name, and creation
/// time in milliseconds since the Unix epoch.
#[derive(Debug, Clone)]
pub struct Workspace {
    pub id: u128,
    pub name: String,
    pub created_at: i64,
}

/// The workspace switcher overlay.
#[derive(Debug, Clone)]
pub struct WorkspaceSwitcherState {
    pub visible: bool,
    pub mode: WorkspaceSwitcherMode,
    pub workspaces: Vec<Workspace>,
    pub selected_index: usize,
    pub input: String,
    pub status_message: Option<String>,
    pub loaded: bool,
}

/// State of the Home screen.
#[derive(Debug, Clone)]
pub struct HomeState {
    /// Selected source in the Quick Start panel
    pub selected_source_index: usize,
    /// Filter text for the Quick Start sources
    pub filter: String,
    pub filtering: bool,
    pub recent_jobs: Vec<JobSummary>,
    pub last_error: Option<String>,
    pub stats: HomeStats,
    pub stats_loaded: bool,
}

/// State of the Sources screen.
#[derive(Debug, Clone)]
pub struct SourcesState {
    pub selected_index: usize,
    pub editing: bool,
    /// Creating a new source rather than editing one
    pub creating: bool,
    pub edit_value: String,
    pub confirm_delete: bool,
    pub previous_mode: Option<TuiMode>,
}

// ---------------------------------------------------------------------------
// Parser bench
// ---------------------------------------------------------------------------

#[derive(Debug, Clone, Copy, PartialEq, Eq, Structural)]
pub enum ParserBenchView {
    ParserList,
}

/// Health of a parser; the success rate is in thousandths.
#[derive(Debug, Clone)]
pub enum ParserHealth {
    Healthy { success_rate_permille: u32, total_runs: usize },
    Warning { consecutive_failures: u32 },
    /// The circuit breaker tripped
    Paused { reason: String },
    /// Never run
    Unknown,
    /// The parser is a symlink whose target is gone
    BrokenLink,
}

impl ParserHealth {
    pub open spec fn symbol_spec(&self) -> Seq<char> {
        match self {
            ParserHealth::Healthy { .. } => "\u{25cf}"@,
            ParserHealth::Warning { .. } => "\u{26a0}"@,
            ParserHealth::Paused { .. } => "\u{23f8}"@,
            ParserHealth::Unknown => "\u{25cb}"@,
            ParserHealth::BrokenLink => "\u{2717}"@,
        }
    }

    /// Display symbol: ● healthy, ⚠ warning, ⏸ paused, ○ unknown, ✗ broken link.
    pub fn symbol(&self) -> (r: &'static str)
        ensures
            r@ == self.symbol_spec(),
    {
        match self {
            ParserHealth::Healthy { .. } => "\u{25cf}",
            ParserHealth::Warning { .. } => "\u{26a0}",
            ParserHealth::Paused { .. } => "\u{23f8}",
            ParserHealth::Unknown => "\u{25cb}",
            ParserHealth::BrokenLink => "\u{2717}",
        }
    }
}

/// A parser found in the parsers directory; modified time in milliseconds
/// since the Unix epoch.
#[derive(Debug, Clone)]
pub struct ParserInfo {
    pub path: String,
    pub name: String,
    pub version: Option<String>,
    pub topics: Vec<String>,
    pub modified: i64,
    pub health: ParserHealth,
    pub is_symlink: bool,
    pub symlink_broken: bool,
}

/// Processing status of a file bound to a parser.
#[derive(Debug, Clone, Copy, PartialEq, Eq, Structural)]
pub enum BoundFileStatus {
    Pending,
    Processed,
    Failed,
}

impl BoundFileStatus {
    pub open spec fn symbol_spec(self) -> Seq<char> {
        match self {
            BoundFileStatus::Pending => "\u{25cb}"@,
            BoundFileStatus::Processed => "\u{2713}"@,
            BoundFileStatus::Failed => "\u{2717}"@,
        }
    }

    /// Display symbol: ○ pending, ✓ processed, ✗ failed.
    pub fn symbol(&self) -> (r: &'static str)
        ensures
            r@ == self.symbol_spec(),
    {
        match self {
            BoundFileStatus::Pending => "\u{25cb}",
            BoundFileStatus::Processed => "\u{2713}",
            BoundFileStatus::Failed => "\u{2717}",
        }
    }
}

/// A file matched to a parser through its topics.
#[derive(Debug, Clone)]
pub struct BoundFileInfo {
    pub path: String,
    pub size: u64,
    pub status: BoundFileStatus,
}

/// A column of a parser's output schema.
#[derive(Debug, Clone)]
pub struct SchemaColumn {
    pub name: String,
    pub dtype: String,
}

/// Result of a parser test run.
#[derive(Debug, Clone)]
pub struct ParserTestResult {
    pub success: bool,
    pub rows_processed: usize,
    pub execution_time_ms: u64,
    pub schema: Option<Vec<SchemaColumn>>,
    pub preview_rows: Vec<Vec<String>>,
    pub headers: Vec<String>,
    pub errors: Vec<String>,
    pub suggestions: Vec<String>,
    pub error_type: Option<String>,
    pub truncated: bool,
}

/// State of the parser bench.
#[derive(Debug, Clone)]
pub struct ParserBenchState {
    pub view: ParserBenchView,
    /// Right panel fullscreen
    pub focus_mode: bool,
    pub parsers: Vec<ParserInfo>,
    pub selected_parser: usize,
    pub parsers_loaded: bool,
    pub quick_test_path: Option<String>,
    pub bound_files: Vec<BoundFileInfo>,
    pub selected_file: usize,
    pub test_result: Option<ParserTestResult>,
    pub test_running: bool,
    pub last_test_file: Option<String>,
    pub filter: String,
    pub is_filtering: bool,
}

// ---------------------------------------------------------------------------
// Cache loading
// ---------------------------------------------------------------------------

/// Progress of loading a source's file cache.
#[derive(Debug)]
pub struct CacheLoadProgress {
    pub source_name: String,
    pub started_at: std::time::Instant,
}

/// Longest source name (in bytes) shown whole in the status line.
pub open spec fn shown_name_limit() -> nat {
    25
}

impl CacheLoadProgress {
    /// Starts timing a load of the named source.
    pub fn new(source_name: String) -> (r: Self)
        ensures
            r.source_name == source_name,
    {
        CacheLoadProgress { source_name, started_at: crate::clock::instant_now() }
    }

    /// Whether the name can be shortened where the status line cuts it: the
    /// cut, 22 bytes before the end, falls on a character boundary (always
    /// so for ASCII names).
    pub open spec fn name_cut_ok(&self) -> bool {
        let b = encode_utf8(self.source_name@);
        b.len() > shown_name_limit() ==> vstd::utf8::is_char_boundary(b, b.len() - 22)
    }

    /// The source name as the status line shows it: names longer than 25
    /// bytes become "..." followed by their last 22 bytes.
    pub fn display_name(&self) -> (r: String)
        requires
            self.name_cut_ok(),
            encode_utf8(self.source_name@).len() <= usize::MAX,
        ensures
            encode_utf8(self.source_name@).len() <= shown_name_limit() ==> r@ == self.source_name@,
            encode_utf8(self.source_name@).len() > shown_name_limit() ==> exists|t: Seq<char>|
                r@ == "..."@ + t && #[trigger] encode_utf8(t) == encode_utf8(self.source_name@).subrange(
                    encode_utf8(self.source_name@).len() - 22,
                    encode_utf8(self.source_name@).len() as int,
                ),
    {
        let name = self.source_name.as_str();
        let n = name.len();
        if n > 25 {
            let (_, tail) = name.split_at(n - 22);
            let mut s = owned("...");
            push_str(&mut s, tail);
            proof {
                let b = encode_utf8(self.source_name@);
                assert(encode_utf8(tail@) == b.subrange(b.len() - 22, b.len() as int));
            }
            s
        } else {
            owned(name)
        }
    }
}

} // verus!
