//! Usage statistics: how many prompts and words were delivered, and the
//! history of the prompts.
use crate::paths::{app_dir_text, app_dir_under, opt_path_text, path_push, path_pushed, path_text, user_data_dir};
use crate::text::{count_words, word_count};
use vstd::prelude::*;
use vstd::string::*;

verus! {

/// A single delivered prompt.
#[derive(Debug, PartialEq, Eq)]
pub struct PromptRecord {
    pub text: String,
    pub word_count: usize,
    pub timestamp: String,
}

/// What a `PromptRecord` holds.
pub struct PromptRecordView {
    pub text: Seq<char>,
    pub word_count: usize,
    pub timestamp: Seq<char>,
}

impl View for PromptRecord {
    type V = PromptRecordView;

    open spec fn view(&self) -> PromptRecordView {
        PromptRecordView {
            text: self.text@,
            word_count: self.word_count,
            timestamp: self.timestamp@,
        }
    }
}

impl Clone for PromptRecord {
    fn clone(&self) -> (copy: Self)
        ensures
            copy@ == self@,
    {
        PromptRecord {
            text: self.text.clone(),
            word_count: self.word_count,
            timestamp: self.timestamp.clone(),
        }
    }
}

/// The views of a sequence of records.
pub open spec fn record_views(records: Seq<PromptRecord>) -> Seq<PromptRecordView> {
    records.map_values(|r: PromptRecord| r@)
}

/// Usage statistics that outlive a run.
#[derive(Debug, PartialEq, Eq)]
pub struct Stats {
    pub total_words: usize,
    pub total_prompts: usize,
    pub history: Vec<PromptRecord>,
}

/// What a `Stats` holds.
pub struct StatsView {
    pub total_words: usize,
    pub total_prompts: usize,
    pub history: Seq<PromptRecordView>,
}

impl View for Stats {
    type V = StatsView;

    open spec fn view(&self) -> StatsView {
        StatsView {
            total_words: self.total_words,
            total_prompts: self.total_prompts,
            history: record_views(self.history@),
        }
    }
}

impl StatsView {
    /// Nothing delivered yet.
    pub open spec fn initial() -> StatsView {
        StatsView { total_words: 0, total_prompts: 0, history: Seq::empty() }
    }

    /// Whether one more prompt with this text can be counted without
    /// leaving the range of the counters.
    pub open spec fn can_record(self, text: Seq<char>) -> bool {
        &&& self.total_prompts < usize::MAX
        &&& self.total_words + word_count(text) <= usize::MAX
    }

    /// The statistics after a prompt with this text was delivered at the
    /// moment that `timestamp` names.
    pub open spec fn recorded(self, text: Seq<char>, timestamp: Seq<char>) -> StatsView {
        StatsView {
            total_words: (self.total_words + word_count(text)) as usize,
            total_prompts: (self.total_prompts + 1) as usize,
            history: self.history.push(
                PromptRecordView { text, word_count: word_count(text) as usize, timestamp },
            ),
        }
    }
}

impl Clone for Stats {
    fn clone(&self) -> (copy: Self)
        ensures
            copy@ == self@,
    {
        let mut history: Vec<PromptRecord> = Vec::new();
        let mut i: usize = 0;
        while i < self.history.len()
            invariant
                i <= self.history.len(),
                record_views(history@) == record_views(self.history@).take(i as int),
            decreases self.history.len() - i,
        {
            history.push(self.history[i].clone());
            proof {
                assert(record_views(self.history@).take(i + 1) =~= record_views(
                    self.history@,
                ).take(i as int).push(self.history@[i as int]@));
            }
            i += 1;
        }
        proof {
            assert(record_views(self.history@).take(self.history.len() as int) =~= record_views(
                self.history@,
            ));
        }
        Stats { total_words: self.total_words, total_prompts: self.total_prompts, history }
    }
}

impl Default for Stats {
    fn default() -> (stats: Self)
        ensures
            stats@ == StatsView::initial(),
    {
        let stats = Stats { total_words: 0, total_prompts: 0, history: Vec::new() };
        proof {
            assert(record_views(stats.history@) =~= Seq::empty());
        }
        stats
    }
}

/// `chrono::Local::now`, formatted with `%Y-%m-%d %H:%M:%S`: the local date
/// and time of the call. Nothing is known of the text.
#[verifier::external_body]
pub(crate) fn local_timestamp() -> (stamp: String) {
    chrono::Local::now().format("%Y-%m-%d %H:%M:%S").to_string()
}

impl Stats {
    /// The text of the statistics file's path below a base directory.
    pub open spec fn path_text_under(base: Option<Seq<char>>) -> Seq<char> {
        path_pushed(app_dir_text(base), "stats.json"@)
    }

    /// The statistics file below `base`: `voice-prompt/stats.json`.
    pub fn path_under(base: Option<std::path::PathBuf>) -> (file: std::path::PathBuf)
        ensures
            path_text(file) == Self::path_text_under(opt_path_text(base)),
    {
        let mut p = app_dir_under(base);
        path_push(&mut p, "stats.json");
        p
    }

    /// The directory of the statistics file: `voice-prompt` below the user's
    /// data directory, or below `.` where the environment names none.
    pub fn dir() -> (dir: std::path::PathBuf)
        ensures
            exists|base: Option<Seq<char>>| path_text(dir) == app_dir_text(base),
    {
        let base = user_data_dir();
        let dir = app_dir_under(base);
        dir
    }

    /// The statistics file, `stats.json` in [`Stats::dir`].
    pub fn path() -> (file: std::path::PathBuf)
        ensures
            exists|base: Option<Seq<char>>| path_text(file) == Self::path_text_under(base),
    {
        let base = user_data_dir();
        let file = Self::path_under(base);
        file
    }

    /// The statistics to run with: those read from disk, or empty ones
    /// where the file was missing or could not be read as statistics.
    pub fn loaded_or_default(stored: Option<Stats>) -> (stats: Stats)
        ensures
            stats@ == (match stored {
                Some(s) => s@,
                None => StatsView::initial(),
            }),
    {
        match stored {
            Some(s) => s,
            None => Stats::default(),
        }
    }

    /// Whether one more prompt with this text can be counted.
    pub fn can_record(&self, text: &str) -> (ok: bool)
        ensures
            ok == self@.can_record(text@),
    {
        let words = count_words(text);
        self.total_prompts < usize::MAX && words <= usize::MAX - self.total_words
    }

    /// Records a prompt delivered at the moment that `timestamp` names:
    /// one prompt more, its words added, and an entry at the end of the history.
    pub fn record_prompt_at(&mut self, text: &str, timestamp: String)
        requires
            old(self)@.can_record(text@),
        ensures
            final(self)@ == old(self)@.recorded(text@, timestamp@),
    {
        let word_count = count_words(text);
        self.total_prompts += 1;
        self.total_words += word_count;
        self.history.push(PromptRecord { text: String::from_str(text), word_count, timestamp });
        proof {
            assert(final(self)@.history =~= old(self)@.recorded(text@, timestamp@).history);
        }
    }

    /// Records a prompt delivered now. The new entry carries the local date
    /// and time of the call; everything else is as in [`Stats::record_prompt_at`].
    pub fn record_prompt(&mut self, text: &str)
        requires
            old(self)@.can_record(text@),
        ensures
            final(self)@.history.len() == old(self)@.history.len() + 1,
            final(self)@ == old(self)@.recorded(text@, final(self)@.history.last().timestamp),
    {
        let stamp = local_timestamp();
        self.record_prompt_at(text, stamp);
    }
}

} // verus!
