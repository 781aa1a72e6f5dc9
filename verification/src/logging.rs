//! Logging configuration and the level-filtered, buffered pipeline.
//!
//! A [`Config`] names a severity cutoff, an output format and an optional
//! file destination. [`logger_plan`] resolves the documented defaults
//! (informational severity, structured format, standard output), and
//! [`stdout_logger`] assembles the real pipeline for the standard-output
//! destinations. The [`Pipeline`] type states, in proved contracts, the
//! intended semantics that the trusted builders' doc comments claim of
//! the real pipeline: records below the cutoff are discarded
//! synchronously and never buffered, and releasing the guard delivers
//! every buffered record.

use vstd::prelude::*;
use slog::Drain;
use vstd::string::StringSliceAdditionalSpecFns;

verus! {

/// Severity of a log record, most severe first.
#[derive(Clone, Copy, Debug, PartialEq, Eq, Structural)]
pub enum Severity {
    Critical,
    Error,
    Warning,
    Info,
    Debug,
    Trace,
}

impl Severity {
    /// Numeric rank of a severity: a smaller rank is more severe.
    pub open spec fn rank(self) -> int {
        match self {
            Severity::Critical => 1,
            Severity::Error => 2,
            Severity::Warning => 3,
            Severity::Info => 4,
            Severity::Debug => 5,
            Severity::Trace => 6,
        }
    }

    /// Executable form of `rank`.
    pub fn as_usize(&self) -> (r: usize)
        ensures
            r == self.rank(),
    {
        match self {
            Severity::Critical => 1,
            Severity::Error => 2,
            Severity::Warning => 3,
            Severity::Info => 4,
            Severity::Debug => 5,
            Severity::Trace => 6,
        }
    }

    /// True when a record at severity `self` is at least as severe as
    /// `cutoff`, i.e. when the record survives a filter set to `cutoff`.
    pub fn is_at_least(&self, cutoff: &Severity) -> (r: bool)
        ensures
            r == (self.rank() <= cutoff.rank()),
    {
        self.as_usize() <= cutoff.as_usize()
    }
}

/// An upper-case ASCII letter folded to lower case; every other byte kept.
pub open spec fn fold_byte(b: u8) -> u8 {
    if 65 <= b && b <= 90 {
        (b + 32) as u8
    } else {
        b
    }
}

/// `needle` is a non-empty, ASCII-case-insensitive prefix of `name`.
pub open spec fn folded_prefix(needle: Seq<u8>, name: Seq<u8>) -> bool {
    &&& 0 < needle.len()
    &&& needle.len() <= name.len()
    &&& forall|i: int| 0 <= i < needle.len() ==> fold_byte(needle[i]) == fold_byte(name[i])
}

/// The severity named by `s`, if any: `s` is matched, case-insensitively,
/// as a prefix first of the full level names, then of the short ones, in
/// their severity order. A name for the "off" filter level is recognized
/// but names no record severity, so it parses to nothing, as does an
/// unrecognized token.
pub open spec fn severity_of_name(s: Seq<u8>) -> Option<Severity> {
    if folded_prefix(s, "off".spec_bytes()) {
        None
    } else if folded_prefix(s, "critical".spec_bytes()) {
        Some(Severity::Critical)
    } else if folded_prefix(s, "error".spec_bytes()) {
        Some(Severity::Error)
    } else if folded_prefix(s, "warning".spec_bytes()) {
        Some(Severity::Warning)
    } else if folded_prefix(s, "info".spec_bytes()) {
        Some(Severity::Info)
    } else if folded_prefix(s, "debug".spec_bytes()) {
        Some(Severity::Debug)
    } else if folded_prefix(s, "trace".spec_bytes()) {
        Some(Severity::Trace)
    } else if folded_prefix(s, "crit".spec_bytes()) {
        Some(Severity::Critical)
    } else if folded_prefix(s, "erro".spec_bytes()) {
        Some(Severity::Error)
    } else if folded_prefix(s, "warn".spec_bytes()) {
        Some(Severity::Warning)
    } else if folded_prefix(s, "debg".spec_bytes()) {
        Some(Severity::Debug)
    } else if folded_prefix(s, "trce".spec_bytes()) {
        Some(Severity::Trace)
    } else {
        None
    }
}

/// Executable form of `fold_byte`.
fn fold_byte_exec(b: u8) -> (r: u8)
    ensures
        r == fold_byte(b),
{
    if 65 <= b && b <= 90 {
        b + 32
    } else {
        b
    }
}

/// Executable form of `folded_prefix`, with the candidate name given as a
/// string literal.
fn is_folded_prefix(needle: &[u8], name: &str) -> (r: bool)
    ensures
        r == folded_prefix(needle@, name.spec_bytes()),
{
    let name_bytes: &[u8] = name.as_bytes();
    if needle.len() == 0 || needle.len() > name_bytes.len() {
        return false;
    }
    let n = needle.len();
    let mut i: usize = 0;
    while i < n
        invariant
            name_bytes@ == name.spec_bytes(),
            0 < n <= name_bytes@.len(),
            n == needle@.len(),
            0 <= i <= n,
            forall|j: int| 0 <= j < i ==> fold_byte(needle@[j]) == fold_byte(name_bytes@[j]),
        decreases n - i,
    {
        if fold_byte_exec(needle[i]) != fold_byte_exec(name_bytes[i]) {
            proof {
                assert(fold_byte(needle@[i as int]) != fold_byte(name.spec_bytes()[i as int]));
            }
            return false;
        }
        i += 1;
    }
    true
}

/// Parse a severity name as the layered-configuration loader accepts it:
/// case-insensitive, full or short level names, prefixes included.
pub fn parse_severity(s: &str) -> (r: Option<Severity>)
    ensures
        r == severity_of_name(s.spec_bytes()),
{
    let b: &[u8] = s.as_bytes();
    if is_folded_prefix(b, "off") {
        None
    } else if is_folded_prefix(b, "critical") {
        Some(Severity::Critical)
    } else if is_folded_prefix(b, "error") {
        Some(Severity::Error)
    } else if is_folded_prefix(b, "warning") {
        Some(Severity::Warning)
    } else if is_folded_prefix(b, "info") {
        Some(Severity::Info)
    } else if is_folded_prefix(b, "debug") {
        Some(Severity::Debug)
    } else if is_folded_prefix(b, "trace") {
        Some(Severity::Trace)
    } else if is_folded_prefix(b, "crit") {
        Some(Severity::Critical)
    } else if is_folded_prefix(b, "erro") {
        Some(Severity::Error)
    } else if is_folded_prefix(b, "warn") {
        Some(Severity::Warning)
    } else if is_folded_prefix(b, "debg") {
        Some(Severity::Debug)
    } else if is_folded_prefix(b, "trce") {
        Some(Severity::Trace)
    } else {
        None
    }
}

/// The two record formats a pipeline can emit.
#[derive(Clone, Copy, Debug, PartialEq, Eq, Structural)]
pub enum LoggingFormat {
    /// One machine-parseable structured record per line.
    Json,
    /// A human-readable line-oriented rendering.
    Text,
}

/// Executable byte-for-byte equality against a string literal.
fn bytes_match(s: &[u8], name: &str) -> (r: bool)
    ensures
        r == (s@ == name.spec_bytes()),
{
    let name_bytes: &[u8] = name.as_bytes();
    if s.len() != name_bytes.len() {
        proof {
            assert(s@.len() != name.spec_bytes().len());
        }
        return false;
    }
    let n = s.len();
    let mut i: usize = 0;
    while i < n
        invariant
            name_bytes@ == name.spec_bytes(),
            n == s@.len(),
            n == name_bytes@.len(),
            0 <= i <= n,
            forall|j: int| 0 <= j < i ==> s@[j] == name_bytes@[j],
        decreases n - i,
    {
        if s[i] != name_bytes[i] {
            proof {
                assert(s@[i as int] != name.spec_bytes()[i as int]);
            }
            return false;
        }
        i += 1;
    }
    proof {
        assert(s@ =~= name_bytes@);
    }
    true
}

/// The format named by `s`: exactly `json` or `text`, lower case.
pub open spec fn format_of_name(s: Seq<u8>) -> Option<LoggingFormat> {
    if s == "json".spec_bytes() {
        Some(LoggingFormat::Json)
    } else if s == "text".spec_bytes() {
        Some(LoggingFormat::Text)
    } else {
        None
    }
}

/// Parse a format name.
pub fn parse_format(s: &str) -> (r: Option<LoggingFormat>)
    ensures
        r == format_of_name(s.spec_bytes()),
{
    let b: &[u8] = s.as_bytes();
    if bytes_match(b, "json") {
        Some(LoggingFormat::Json)
    } else if bytes_match(b, "text") {
        Some(LoggingFormat::Text)
    } else {
        None
    }
}

/// The logging section of the application configuration.
#[derive(Debug, PartialEq, Eq)]
pub struct Config {
    /// Severity cutoff; absent means the informational default.
    pub level: Option<Severity>,
    /// Record format.
    pub format: LoggingFormat,
    /// Destination file; absent means standard output.
    pub path: Option<String>,
}

impl Default for Config {
    /// The documented default: informational severity, structured format,
    /// standard-output destination.
    fn default() -> (r: Config)
        ensures
            r.level == Some(Severity::Info),
            r.format == LoggingFormat::Json,
            r.path is None,
    {
        Config { level: Some(Severity::Info), format: LoggingFormat::Json, path: None }
    }
}

/// A fully resolved pipeline plan: every default has been substituted.
pub struct Plan {
    /// Records strictly below this severity are discarded.
    pub cutoff: Severity,
    /// Record format.
    pub format: LoggingFormat,
    /// Destination file; absent means standard output.
    pub path: Option<String>,
}

/// Resolve a possibly absent configuration into the plan the pipeline is
/// built from: an absent configuration means the documented default, and
/// an absent level within a configuration means the informational cutoff.
pub fn logger_plan(opt_config: Option<&Config>) -> (r: Plan)
    ensures
        opt_config is None ==> r.cutoff == Severity::Info && r.format == LoggingFormat::Json
            && r.path is None,
        opt_config matches Some(c) ==> {
            &&& r.cutoff == (match c.level {
                Some(l) => l,
                None => Severity::Info,
            })
            &&& r.format == c.format
            &&& (match (&r.path, &c.path) {
                (Option::None, Option::None) => true,
                (Option::Some(p), Option::Some(q)) => p@ == q@,
                _ => false,
            })
        },
{
    match opt_config {
        None => Plan { cutoff: Severity::Info, format: LoggingFormat::Json, path: None },
        Some(c) => Plan {
            cutoff: match c.level {
                Some(l) => l,
                None => Severity::Info,
            },
            format: c.format,
            path: match &c.path {
                Some(p) => Some(p.clone()),
                None => None,
            },
        },
    }
}

#[verifier::external_type_specification]
pub struct ExSlogLevel(slog::Level);

#[verifier::external_type_specification]
#[verifier::external_body]
pub struct ExAsyncGuard(slog_async::AsyncGuard);

/// The handle on a built root logger. The verifier refuses a declaration
/// of the outside logger type itself (its drain parameter carries an
/// unwind-safety bound the verifier does not know), so the handle holds
/// the logger opaquely; the unverified rim logs through the public field.
#[verifier::external_body]
pub struct LoggerHandle {
    /// The built root logger.
    pub inner: slog::Logger,
}

/// The outside severity value that corresponds to one of ours.
pub open spec fn slog_level_of(l: Severity) -> slog::Level {
    match l {
        Severity::Critical => slog::Level::Critical,
        Severity::Error => slog::Level::Error,
        Severity::Warning => slog::Level::Warning,
        Severity::Info => slog::Level::Info,
        Severity::Debug => slog::Level::Debug,
        Severity::Trace => slog::Level::Trace,
    }
}

/// Executable form of `slog_level_of`.
pub fn to_slog_level(l: &Severity) -> (r: slog::Level)
    ensures
        r == slog_level_of(*l),
{
    match l {
        Severity::Critical => slog::Level::Critical,
        Severity::Error => slog::Level::Error,
        Severity::Warning => slog::Level::Warning,
        Severity::Info => slog::Level::Info,
        Severity::Debug => slog::Level::Debug,
        Severity::Trace => slog::Level::Trace,
    }
}

/// Relies on `slog_json::Json`, `slog_async::Async`, `slog::LevelFilter`
/// and `slog::Logger::root`: a root logger that renders one structured
/// record per line with the default keys to standard output, behind an
/// asynchronous buffer, with records below `cutoff` discarded before they
/// enter the buffer. The guard flushes the buffer when dropped.
#[verifier::external_body]
fn json_stdout_pipeline(cutoff: slog::Level) -> (r: (LoggerHandle, slog_async::AsyncGuard)) {
    let drain = slog_json::Json::new(std::io::stdout()).add_default_keys().build().fuse();
    let (async_drain, guard) = slog_async::Async::new(drain).build_with_guard();
    let filtered = slog::LevelFilter::new(async_drain, cutoff).fuse();
    (LoggerHandle { inner: slog::Logger::root(filtered, slog::OwnedKV(())) }, guard)
}

/// Relies on `slog_term::TermDecorator` and `slog_term::FullFormat`, with
/// `slog_async` and `slog` as above: a root logger that renders
/// human-readable lines to the interactive standard output, behind an
/// asynchronous buffer, with records below `cutoff` discarded before they
/// enter the buffer. The guard flushes the buffer when dropped.
#[verifier::external_body]
fn text_stdout_pipeline(cutoff: slog::Level) -> (r: (LoggerHandle, slog_async::AsyncGuard)) {
    let decorator = slog_term::TermDecorator::new().stdout().build();
    let drain = slog_term::FullFormat::new(decorator).build().fuse();
    let (async_drain, guard) = slog_async::Async::new(drain).build_with_guard();
    let filtered = slog::LevelFilter::new(async_drain, cutoff).fuse();
    (LoggerHandle { inner: slog::Logger::root(filtered, slog::OwnedKV(())) }, guard)
}

/// Build the pipeline for the standard-output destination in the given
/// format, filtered at `cutoff`. Building a standard-output pipeline
/// cannot fail.
pub fn stdout_logger(format: &LoggingFormat, cutoff: &Severity) -> (LoggerHandle, slog_async::AsyncGuard) {
    let lv = to_slog_level(cutoff);
    match format {
        LoggingFormat::Json => json_stdout_pipeline(lv),
        LoggingFormat::Text => text_stdout_pipeline(lv),
    }
}

/// One record as the pipeline contracts see it: a severity and a message.
pub struct LogRecord {
    /// Severity the record was emitted at.
    pub level: Severity,
    /// Rendered message.
    pub message: String,
}

/// The observable state of the level-filtered, buffered pipeline: the
/// cutoff the filter was built with, the records sitting in the
/// asynchronous buffer, and the records the destination has received.
/// Submission filters synchronously; only releasing the guard moves the
/// buffered records to the destination.
pub struct Pipeline {
    /// Records strictly below this severity are discarded on submission.
    pub cutoff: Severity,
    /// Submitted records that passed the filter and await the flush.
    pub queued: Vec<LogRecord>,
    /// Records the destination has received.
    pub delivered: Vec<LogRecord>,
}

impl Pipeline {
    /// Everything buffered or delivered passed the severity filter.
    pub open spec fn wf(self) -> bool {
        &&& (forall|i: int|
            0 <= i < self.queued@.len() ==> (#[trigger] self.queued@[i]).level.rank()
                <= self.cutoff.rank())
        &&& (forall|i: int|
            0 <= i < self.delivered@.len() ==> (#[trigger] self.delivered@[i]).level.rank()
                <= self.cutoff.rank())
    }

    /// A fresh pipeline filtered at `cutoff`: nothing buffered, nothing
    /// delivered.
    pub fn new(cutoff: Severity) -> (r: Pipeline)
        ensures
            r.cutoff == cutoff,
            r.queued@.len() == 0,
            r.delivered@.len() == 0,
            r.wf(),
    {
        Pipeline { cutoff, queued: Vec::new(), delivered: Vec::new() }
    }

    /// Submit one record. The filter decides synchronously: a record at
    /// least as severe as the cutoff enters the buffer, any other record
    /// is discarded and the pipeline is left exactly as it was — it can
    /// never reach the destination.
    pub fn submit(&mut self, r: LogRecord)
        ensures
            final(self).cutoff == old(self).cutoff,
            final(self).delivered@ == old(self).delivered@,
            r.level.rank() <= old(self).cutoff.rank() ==> final(self).queued@ == old(
                self,
            ).queued@.push(r),
            r.level.rank() > old(self).cutoff.rank() ==> final(self).queued@ == old(self).queued@,
            old(self).wf() ==> final(self).wf(),
    {
        let passes = r.level.is_at_least(&self.cutoff);
        if passes {
            self.queued.push(r);
        }
    }

    /// Release the guard: every buffered record reaches the destination,
    /// in submission order, and the buffer is left empty. No record is
    /// lost.
    pub fn release(&mut self)
        ensures
            final(self).cutoff == old(self).cutoff,
            final(self).delivered@ == old(self).delivered@ + old(self).queued@,
            final(self).queued@.len() == 0,
            old(self).wf() ==> final(self).wf(),
    {
        let mut moved = std::vec::Vec::new();
        std::mem::swap(&mut moved, &mut self.queued);
        self.delivered.append(&mut moved);
    }
}

/// Law: a well-formed pipeline has delivered no record below its cutoff;
/// a record filtered out on submission is nowhere to be found.
pub proof fn lemma_below_cutoff_never_delivered(p: Pipeline, i: int)
    requires
        p.wf(),
        0 <= i < p.delivered@.len(),
    ensures
        p.delivered@[i].level.rank() <= p.cutoff.rank(),
{
}

/// Law: releasing the guard loses nothing. If a release turned `before`
/// into `after`, every record buffered in `before` sits in `after`'s
/// destination, in order, after what had been delivered already.
pub proof fn lemma_release_keeps_every_record(before: Pipeline, after: Pipeline)
    requires
        after.delivered@ == before.delivered@ + before.queued@,
    ensures
        after.delivered@.len() == before.delivered@.len() + before.queued@.len(),
        forall|i: int|
            0 <= i < before.queued@.len() ==> after.delivered@[before.delivered@.len() + i]
                == before.queued@[i],
{
}

} // verus!
