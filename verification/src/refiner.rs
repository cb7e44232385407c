//! Refining a transcript through the remote service: when it is asked,
//! where, and what text comes of its answer.
use crate::text::{join, joined, texts, trim, trimmed};
use vstd::prelude::*;
use vstd::string::*;

verus! {

/// The address of the refinement service.
pub const GEMINI_URL: &'static str =
    "https://generativelanguage.googleapis.com/v1beta/models/gemini-2.5-flash:generateContent";

/// The most tokens that the service may answer with.
pub const MAX_OUTPUT_TOKENS: u32 = 2048;

/// What to do with a transcript.
#[derive(Debug, PartialEq, Eq)]
pub enum RefinePlan {
    /// No credential is configured: the transcript is the result as it is.
    Unrefined(String),
    /// Post the transcript to this address.
    Request { url: String },
}

/// What a `RefinePlan` holds.
pub enum RefinePlanView {
    Unrefined(Seq<char>),
    Request { url: Seq<char> },
}

impl View for RefinePlan {
    type V = RefinePlanView;

    open spec fn view(&self) -> RefinePlanView {
        match self {
            RefinePlan::Unrefined(t) => RefinePlanView::Unrefined(t@),
            RefinePlan::Request { url } => RefinePlanView::Request { url: url@ },
        }
    }
}

/// The address to post to with a credential.
pub open spec fn request_url(api_key: Seq<char>) -> Seq<char> {
    GEMINI_URL@ + "?key="@ + api_key
}

/// The plan for a transcript under a credential.
pub open spec fn refine_plan(api_key: Seq<char>, transcript: Seq<char>) -> RefinePlanView {
    if api_key.len() == 0 {
        RefinePlanView::Unrefined(transcript)
    } else {
        RefinePlanView::Request { url: request_url(api_key) }
    }
}

/// Decides what to do with a transcript: without a credential it is
/// returned as it is, with one the service is asked.
pub fn plan_refinement(api_key: &str, transcript: &str) -> (plan: RefinePlan)
    ensures
        plan@ == refine_plan(api_key@, transcript@),
{
    if api_key.unicode_len() == 0 {
        RefinePlan::Unrefined(String::from_str(transcript))
    } else {
        let mut url = String::from_str(GEMINI_URL);
        url.append("?key=");
        url.append(api_key);
        RefinePlan::Request { url }
    }
}

/// The error of an answer whose status is no success.
pub open spec fn api_error_text(status: Seq<char>, body: Seq<char>) -> Seq<char> {
    "Gemini API error "@ + status + ": "@ + body
}

/// The error of an answer whose status is no success, from the status and
/// the answer's text.
pub fn api_error(status: &str, body: &str) -> (message: String)
    ensures
        message@ == api_error_text(status@, body@),
{
    let mut message = String::from_str("Gemini API error ");
    message.append(status);
    message.append(": ");
    message.append(body);
    message
}

/// The parts of the first candidate, if the answer has one.
pub open spec fn first_candidate(candidates: Option<Vec<Vec<String>>>) -> Option<Seq<Seq<char>>> {
    match candidates {
        Some(all) => if all@.len() > 0 {
            Some(texts(all@[0]@))
        } else {
            None
        },
        None => None,
    }
}

/// The text that an answer gives: the parts of its first candidate put
/// together, or the transcript where it has no candidate; without the
/// white space at either end.
pub open spec fn refined_text_of(first: Option<Seq<Seq<char>>>, transcript: Seq<char>) -> Seq<
    char,
> {
    match first {
        Some(parts) => trimmed(joined(parts, Seq::empty())),
        None => trimmed(transcript),
    }
}

/// The refined text of a successful answer. Each candidate is given by
/// the texts of its parts.
pub fn refined_text(candidates: &Option<Vec<Vec<String>>>, transcript: &str) -> (text: String)
    ensures
        text@ == refined_text_of(first_candidate(*candidates), transcript@),
{
    match candidates {
        Some(all) => {
            if all.len() > 0 {
                let empty = String::new();
                let whole = join(&all[0], empty.as_str());
                trim(whole.as_str())
            } else {
                trim(transcript)
            }
        },
        None => trim(transcript),
    }
}

} // verus!
