//! The commentary request and response: the fixed prompt and safety policy
//! around the verbose match rendering, and the extraction of the generated
//! text from a decoded response. The HTTP transport lives outside this crate.

use vstd::prelude::*;

verus! {

/// One text fragment of a generation request or response.
pub struct Part {
    pub text: String,
}

/// A sequence of text fragments, the unit the generation service consumes
/// and produces.
pub struct Content {
    pub parts: Vec<Part>,
}

impl Content {
    /// Wraps one text as a single-part content.
    pub fn new(text: String) -> (r: Self)
        ensures
            r.parts@.len() == 1,
            r.parts@[0].text@ == text@,
    {
        Content { parts: vec![Part { text }] }
    }
}

/// The one content category the fixed safety policy constrains.
pub enum HarmCategory {
    HarmCategoryHarassment,
}

/// Severity thresholds the generation service accepts.
pub enum HarmBlockThreshold {
    BlockLowAndAbove,
    BlockMediumAndAbove,
    BlockOnlyHigh,
    BlockNone,
}

/// One safety constraint of a generation request.
pub struct SafetySetting {
    pub category: HarmCategory,
    pub threshold: HarmBlockThreshold,
}

/// A single-turn generation request.
pub struct GenerateContentRequest {
    pub contents: Vec<Content>,
    pub safety_settings: Vec<SafetySetting>,
}

/// Why a candidate completion ended. Any reason is accepted; only the
/// absence of every candidate is an error.
pub enum FinishReason {
    Stop,
    MaxTokens,
    Safety,
    Recitation,
    Other,
}

/// One candidate completion of a response.
pub struct Candidate {
    pub content: Content,
    pub finish_reason: FinishReason,
}

/// A decoded generation response.
pub struct GenerateContentResponse {
    pub candidates: Vec<Candidate>,
}

/// Generation failed: the transport failed, the response could not be
/// decoded, or the service returned zero candidates.
#[derive(Debug)]
pub enum CommentaryError {
    Transport,
    Decode,
    NoCandidates,
}

/// The user-visible description of a commentary failure.
pub open spec fn commentary_error_view(e: CommentaryError) -> Seq<char> {
    match e {
        CommentaryError::Transport => "Gemini request failed"@,
        CommentaryError::Decode => "Cannot parse Gemini response into JSON"@,
        CommentaryError::NoCandidates => "Gemini returned no candidates"@,
    }
}

impl CommentaryError {
    /// Describes the failure for the user-visible reply.
    pub fn message(&self) -> (r: String)
        ensures
            r@ == commentary_error_view(*self),
    {
        match self {
            CommentaryError::Transport => "Gemini request failed".to_owned(),
            CommentaryError::Decode => "Cannot parse Gemini response into JSON".to_owned(),
            CommentaryError::NoCandidates => "Gemini returned no candidates".to_owned(),
        }
    }
}

/// All text fragments of the parts, concatenated in order.
pub open spec fn parts_text(parts: Seq<Part>) -> Seq<char>
    decreases parts.len(),
{
    if parts.len() == 0 {
        Seq::empty()
    } else {
        parts_text(parts.drop_last()) + parts.last().text@
    }
}

impl Candidate {
    /// The concatenation of all text fragments of this candidate's content,
    /// in order.
    pub fn into_text(self) -> (r: String)
        ensures
            r@ == parts_text(self.content.parts@),
    {
        let parts = self.content.parts;
        let mut s = String::new();
        let mut i: usize = 0;
        proof {
            assert(parts@.take(0) =~= Seq::<Part>::empty());
        }
        while i < parts.len()
            invariant
                0 <= i <= parts@.len(),
                s@ == parts_text(parts@.take(i as int)),
            decreases parts@.len() - i,
        {
            s.append(parts[i].text.as_str());
            proof {
                assert(parts@.take(i as int + 1).drop_last() =~= parts@.take(i as int));
                assert(parts@.take(i as int + 1).last() == parts@[i as int]);
            }
            i += 1;
        }
        proof {
            assert(parts@.take(parts@.len() as int) =~= parts@);
        }
        s
    }
}

/// Extracts the generated text from a decoded response: an error exactly
/// when the response holds no candidate, else the concatenated text parts of
/// the first candidate.
pub fn extract_commentary(resp: GenerateContentResponse) -> (r: Result<String, CommentaryError>)
    ensures
        r is Err <==> resp.candidates@.len() == 0,
        r is Err ==> r->Err_0 is NoCandidates,
        r matches Ok(s) ==> s@ == parts_text(resp.candidates@[0].content.parts@),
{
    let mut resp = resp;
    if resp.candidates.len() == 0 {
        return Err(CommentaryError::NoCandidates);
    }
    let first = resp.candidates.remove(0);
    Ok(first.into_text())
}

/// The fixed prompt around the verbose match rendering, with its one
/// substitution point.
pub open spec fn prompt_view(game_data: Seq<char>) -> Seq<char> {
    "Here are the statistics of a recently played League of Legends match between friends:\n\n"@
        + game_data
        + "\nJudging only from these statistics, which player performed the worst? Name the player and explain briefly."@
}

/// Builds the fixed prompt text around the verbose match rendering.
pub fn build_prompt(game_data: &str) -> (r: String)
    ensures
        r@ == prompt_view(game_data@),
{
    let mut s =
        "Here are the statistics of a recently played League of Legends match between friends:\n\n".to_owned();
    s.append(game_data);
    s.append(
        "\nJudging only from these statistics, which player performed the worst? Name the player and explain briefly.",
    );
    proof {
        assert(s@ =~= prompt_view(game_data@));
    }
    s
}

/// Builds the single-turn generation request: the prompt as one content, and
/// the one fixed safety constraint — block only high-severity harassment.
pub fn build_request(prompt: String) -> (r: GenerateContentRequest)
    ensures
        r.contents@.len() == 1,
        r.contents@[0].parts@.len() == 1,
        r.contents@[0].parts@[0].text@ == prompt@,
        r.safety_settings@.len() == 1,
        r.safety_settings@[0].category is HarmCategoryHarassment,
        r.safety_settings@[0].threshold is BlockOnlyHigh,
{
    GenerateContentRequest {
        contents: vec![Content::new(prompt)],
        safety_settings: vec![
            SafetySetting {
                category: HarmCategory::HarmCategoryHarassment,
                threshold: HarmBlockThreshold::BlockOnlyHigh,
            },
        ],
    }
}

} // verus!
