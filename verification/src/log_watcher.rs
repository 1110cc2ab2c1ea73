//! Watching the growing output of an external process for a pattern.
//!
//! The caller reads the whole output accumulated so far, hands it to
//! [`LogPatternWatcher::observe`], and does what the step says: stop with the
//! value that was found, sleep and read again, or give up.

use vstd::prelude::*;
use vstd::utf8::encode_utf8;
use crate::pattern::{
    capture, compile, error_text, first_group_match, pattern_compiles, pattern_source,
};
use crate::retry::AttemptBudget;
use crate::text::{last_chars, tail_of};

verus! {

/// The number of reads that are searched for the pattern.
pub const WATCH_ATTEMPTS: u32 = 60;

/// The pause between two reads, in milliseconds.
pub const WATCH_INTERVAL_MS: u64 = 500;

/// The capture group of the pattern that is looked for: the first.
pub const WATCH_GROUP: usize = 1;

/// The number of characters of output that a timeout reports.
pub const TAIL_CHARS: usize = 512;

/// A pattern that could not be compiled.
#[derive(Debug, PartialEq, Eq)]
pub struct PatternError {
    pub detail: String,
}

/// A note that the caller may log: which read this was and how many bytes of
/// output there were.
#[derive(Clone, Copy, Debug, PartialEq, Eq, Structural)]
pub struct WatchProgress {
    pub attempt: u32,
    pub bytes: usize,
}

/// What to do after a read.
#[derive(Debug, PartialEq, Eq)]
pub enum WatchStep {
    /// The pattern matched; this is the text of its first group.
    Found(String),
    /// No match yet: pause and read again. `progress` is set where the
    /// amount of output changed since the last note.
    Again { delay_ms: u64, progress: Option<WatchProgress> },
    /// The reads are used up; `tail` is the end of the output.
    TimedOut { tail: String },
}

/// A step as a mathematical value.
pub enum WatchStepModel {
    Found(Seq<char>),
    Again { delay_ms: u64, progress: Option<WatchProgress> },
    TimedOut { tail: Seq<char> },
}

impl View for WatchStep {
    type V = WatchStepModel;

    open spec fn view(&self) -> WatchStepModel {
        match self {
            WatchStep::Found(text) => WatchStepModel::Found(text@),
            WatchStep::Again { delay_ms, progress } => WatchStepModel::Again {
                delay_ms: *delay_ms,
                progress: *progress,
            },
            WatchStep::TimedOut { tail } => WatchStepModel::TimedOut { tail: tail@ },
        }
    }
}

/// The watcher's state as a mathematical value: the pattern's text, the
/// number of reads searched so far, and the size of the output when progress
/// was last noted.
pub struct WatcherModel {
    pub source: Seq<char>,
    pub attempts: nat,
    pub noted_bytes: nat,
}

impl WatcherModel {
    /// A watcher that has read nothing yet.
    pub open spec fn fresh(source: Seq<char>) -> WatcherModel {
        WatcherModel { source, attempts: 0, noted_bytes: 0 }
    }

    /// No more reads are counted than are searched.
    pub open spec fn well_formed(self) -> bool {
        self.attempts <= WATCH_ATTEMPTS
    }

    /// The state and the step after a read of `output` in which the search
    /// gave `matched`.
    ///
    /// While reads are left, a match is reported at once; a miss counts the
    /// read and asks for another after the interval, with a progress note on
    /// the first read and whenever the size of the output differs from the
    /// size last noted. Once the reads are used up, the output is not
    /// searched: the step is a timeout with the last 512 characters.
    pub open spec fn step(self, output: Seq<char>, matched: Option<Seq<char>>) -> (
        WatcherModel,
        WatchStepModel,
    ) {
        let bytes = encode_utf8(output).len();
        if self.attempts >= WATCH_ATTEMPTS {
            (self, WatchStepModel::TimedOut { tail: tail_of(output, TAIL_CHARS as nat) })
        } else {
            match matched {
                Some(text) => (
                    WatcherModel { attempts: self.attempts + 1, ..self },
                    WatchStepModel::Found(text),
                ),
                None => if self.attempts == 0 || bytes != self.noted_bytes {
                    (
                        WatcherModel { attempts: self.attempts + 1, noted_bytes: bytes, ..self },
                        WatchStepModel::Again {
                            delay_ms: WATCH_INTERVAL_MS,
                            progress: Some(
                                WatchProgress {
                                    attempt: (self.attempts + 1) as u32,
                                    bytes: bytes as usize,
                                },
                            ),
                        },
                    )
                } else {
                    (
                        WatcherModel { attempts: self.attempts + 1, ..self },
                        WatchStepModel::Again { delay_ms: WATCH_INTERVAL_MS, progress: None },
                    )
                },
            }
        }
    }

    /// The state after reads of `outputs`, none of which matched.
    pub open spec fn after_misses(self, outputs: Seq<Seq<char>>) -> WatcherModel
        decreases outputs.len(),
    {
        if outputs.len() == 0 {
            self
        } else {
            self.after_misses(outputs.drop_last()).step(outputs.last(), None).0
        }
    }
}

/// Watches accumulated output for the first match of a pattern, for a
/// bounded number of reads.
pub struct LogPatternWatcher {
    pattern: regex::Regex,
    reads: AttemptBudget,
    noted_bytes: usize,
}

impl View for LogPatternWatcher {
    type V = WatcherModel;

    closed spec fn view(&self) -> WatcherModel {
        WatcherModel {
            source: pattern_source(self.pattern),
            attempts: self.reads@.used,
            noted_bytes: self.noted_bytes as nat,
        }
    }
}

impl LogPatternWatcher {
    #[verifier::type_invariant]
    spec fn within_budget(&self) -> bool {
        &&& self.reads@.limit == WATCH_ATTEMPTS
        &&& self.reads@.interval_ms == WATCH_INTERVAL_MS
        &&& self.reads@.used <= WATCH_ATTEMPTS
    }

    /// A watcher for the pattern `source`, or the compiler's complaint where
    /// it refuses `source`.
    pub fn new(source: &str) -> (made: Result<LogPatternWatcher, PatternError>)
        ensures
            made is Ok <==> pattern_compiles(source@),
            made matches Ok(watcher) ==> watcher@ == WatcherModel::fresh(source@),
    {
        Self::from_compiled(compile(source))
    }

    /// The watcher for what compiling a pattern came to: a watcher that has
    /// read nothing yet where the pattern was compiled, and the compiler's
    /// complaint where it was refused.
    fn from_compiled(compiled: Result<regex::Regex, regex::Error>) -> (made: Result<
        LogPatternWatcher,
        PatternError,
    >)
        ensures
            match compiled {
                Ok(pattern) => made matches Ok(watcher) && watcher@ == WatcherModel::fresh(
                    pattern_source(pattern),
                ),
                Err(_) => made is Err,
            },
    {
        match compiled {
            Ok(pattern) => Ok(Self::with_pattern(pattern)),
            Err(error) => Err(PatternError { detail: error_text(&error) }),
        }
    }

    /// A watcher for a pattern that is already compiled.
    fn with_pattern(pattern: regex::Regex) -> (watcher: LogPatternWatcher)
        ensures
            watcher@ == WatcherModel::fresh(pattern_source(pattern)),
    {
        LogPatternWatcher {
            pattern,
            reads: AttemptBudget::new(WATCH_ATTEMPTS, WATCH_INTERVAL_MS),
            noted_bytes: 0,
        }
    }

    /// Whether the reads are used up, so that the next step is a timeout.
    pub fn exhausted(&self) -> (done: bool)
        ensures
            done == (self@.attempts >= WATCH_ATTEMPTS),
            self@.well_formed(),
    {
        proof {
            use_type_invariant(self);
        }
        self.reads.exhausted()
    }

    /// Takes a read of the whole output so far, searches it while reads are
    /// left, and says what to do next.
    pub fn observe(&mut self, output: &str) -> (step: WatchStep)
        ensures
            (final(self)@, step@) == old(self)@.step(
                output@,
                first_group_match(old(self)@.source, output@),
            ),
            final(self)@.well_formed(),
    {
        proof {
            use_type_invariant(&*self);
        }
        if self.reads.exhausted() {
            return self.record(output, None);
        }
        let matched = capture(&self.pattern, WATCH_GROUP, output);
        self.record(output, matched)
    }

    /// Takes a read of the whole output so far together with the result of
    /// searching it, and says what to do next.
    pub fn record(&mut self, output: &str, matched: Option<String>) -> (step: WatchStep)
        ensures
            (final(self)@, step@) == old(self)@.step(
                output@,
                match matched {
                    Some(text) => Some(text@),
                    None => None,
                },
            ),
            final(self)@.well_formed(),
    {
        proof {
            use_type_invariant(&*self);
        }
        if self.reads.exhausted() {
            return WatchStep::TimedOut { tail: last_chars(output, TAIL_CHARS) };
        }
        let first = self.reads.used() == 0;
        let attempt = self.reads.used() + 1;
        let delay_ms = self.reads.interval_ms();
        self.reads.spend();
        match matched {
            Some(text) => WatchStep::Found(text),
            None => {
                let bytes = output.as_bytes().len();
                if first || bytes != self.noted_bytes {
                    self.noted_bytes = bytes;
                    WatchStep::Again { delay_ms, progress: Some(WatchProgress { attempt, bytes }) }
                } else {
                    WatchStep::Again { delay_ms, progress: None }
                }
            },
        }
    }
}

/// A read never takes the count of reads past the 60 that are searched.
pub proof fn lemma_step_keeps_bounds(
    watcher: WatcherModel,
    output: Seq<char>,
    matched: Option<Seq<char>>,
)
    requires
        watcher.well_formed(),
    ensures
        watcher.step(output, matched).0.well_formed(),
        watcher.step(output, matched).0.source == watcher.source,
{
}

/// Misses only count reads: after `outputs.len()` of them, at most 60, a
/// fresh watcher has made that many attempts and still has its pattern.
pub proof fn lemma_misses_count(source: Seq<char>, outputs: Seq<Seq<char>>)
    requires
        outputs.len() <= WATCH_ATTEMPTS,
    ensures
        WatcherModel::fresh(source).after_misses(outputs).attempts == outputs.len(),
        WatcherModel::fresh(source).after_misses(outputs).source == source,
    decreases outputs.len(),
{
    if outputs.len() > 0 {
        lemma_misses_count(source, outputs.drop_last());
    }
}

/// The first read that matches is reported with exactly the matched text,
/// however many of the fewer than 60 reads before it missed.
pub proof fn lemma_first_match_is_found(
    source: Seq<char>,
    misses: Seq<Seq<char>>,
    output: Seq<char>,
    text: Seq<char>,
)
    requires
        misses.len() < WATCH_ATTEMPTS,
    ensures
        WatcherModel::fresh(source).after_misses(misses).step(output, Some(text)).1
            == WatchStepModel::Found(text),
{
    lemma_misses_count(source, misses);
}

/// After 60 reads that missed, the next read times out with the last 512
/// characters of the output, whatever the output holds.
pub proof fn lemma_times_out_after_budget(
    source: Seq<char>,
    misses: Seq<Seq<char>>,
    output: Seq<char>,
    matched: Option<Seq<char>>,
)
    requires
        misses.len() == WATCH_ATTEMPTS,
    ensures
        WatcherModel::fresh(source).after_misses(misses).step(output, matched).1
            == (WatchStepModel::TimedOut { tail: tail_of(output, TAIL_CHARS as nat) }),
{
    lemma_misses_count(source, misses);
}

} // verus!
