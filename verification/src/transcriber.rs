//! The speech model on disk, and the text that a transcription yields.
use crate::paths::{app_dir_text, app_dir_under, opt_path_text, path_exists, path_push, path_pushed, path_text, user_data_dir};
use crate::text::{trim, trimmed};
use vstd::prelude::*;
use vstd::string::*;

verus! {

/// Where the model is downloaded from.
pub const MODEL_URL: &'static str =
    "https://huggingface.co/ggerganov/whisper.cpp/resolve/main/ggml-base.en.bin";

/// The name of the model's file.
pub const MODEL_FILENAME: &'static str = "ggml-base.en.bin";

/// The text of the model directory's path below a base directory.
pub open spec fn models_dir_text(base: Option<Seq<char>>) -> Seq<char> {
    path_pushed(app_dir_text(base), "models"@)
}

/// The text of the model file's path below a base directory.
pub open spec fn model_path_text(base: Option<Seq<char>>) -> Seq<char> {
    path_pushed(models_dir_text(base), MODEL_FILENAME@)
}

/// The model directory below `base`: `voice-prompt/models`.
pub fn models_dir_under(base: Option<std::path::PathBuf>) -> (dir: std::path::PathBuf)
    ensures
        path_text(dir) == models_dir_text(opt_path_text(base)),
{
    let mut p = app_dir_under(base);
    path_push(&mut p, "models");
    p
}

/// The model file below `base`: `voice-prompt/models/ggml-base.en.bin`.
pub fn model_path_under(base: Option<std::path::PathBuf>) -> (file: std::path::PathBuf)
    ensures
        path_text(file) == model_path_text(opt_path_text(base)),
{
    let mut p = models_dir_under(base);
    path_push(&mut p, MODEL_FILENAME);
    p
}

/// The model directory: below the user's data directory, or below `.`
/// where the environment names none.
pub fn models_dir() -> (dir: std::path::PathBuf)
    ensures
        exists|base: Option<Seq<char>>| path_text(dir) == models_dir_text(base),
{
    let base = user_data_dir();
    let dir = models_dir_under(base);
    dir
}

/// The model file in [`models_dir`].
pub fn model_path() -> (file: std::path::PathBuf)
    ensures
        exists|base: Option<Seq<char>>| path_text(file) == model_path_text(base),
{
    let base = user_data_dir();
    let file = model_path_under(base);
    file
}

/// Whether the model file is on disk now.
pub fn model_exists() -> (found: bool) {
    let file = model_path();
    path_exists(&file)
}

/// The segments in order, a space behind each.
pub open spec fn spaced(segments: Seq<Seq<char>>) -> Seq<char>
    decreases segments.len(),
{
    if segments.len() == 0 {
        Seq::empty()
    } else {
        spaced(segments.drop_last()) + segments.last() + seq![' ']
    }
}

/// The text of a transcription: its segments with a space behind each,
/// without the white space at either end.
pub open spec fn transcript_text(segments: Seq<Seq<char>>) -> Seq<char> {
    trimmed(spaced(segments))
}

/// Puts the segments of a transcription together.
pub fn join_segments(segments: &Vec<String>) -> (text: String)
    ensures
        text@ == transcript_text(crate::text::texts(segments@)),
{
    let mut text = String::new();
    let mut i: usize = 0;
    while i < segments.len()
        invariant
            i <= segments.len(),
            text@ == spaced(crate::text::texts(segments@).take(i as int)),
        decreases segments.len() - i,
    {
        proof {
            let all = crate::text::texts(segments@);
            assert(all.take(i + 1).drop_last() =~= all.take(i as int));
        }
        text.append(segments[i].as_str());
        text.push(' ');
        i += 1;
    }
    proof {
        let all = crate::text::texts(segments@);
        assert(all.take(segments.len() as int) =~= all);
    }
    trim(text.as_str())
}

/// The number of threads for a transcription: one for each unit of
/// parallelism that the machine reports, or four where it reports none.
pub fn worker_threads(parallelism: Option<usize>) -> (threads: i32)
    ensures
        threads == (match parallelism {
            Some(n) => n as i32,
            None => 4i32,
        }),
{
    match parallelism {
        Some(n) => {
            #[verifier::truncate]
            let t = n as i32;
            t
        },
        None => 4,
    }
}

} // verus!
