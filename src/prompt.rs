//! The completion request rendered from a diff and a target language.
use vstd::prelude::*;
use vstd::utf8::encode_utf8;

verus! {

/// The instructions that come before the target language.
pub const PROMPT_INTRO: &'static str = "Act as a commit message generator.\nAnalyze the git diff below and generate a SINGLE, complete line of commit message following the Conventional Commits specification (e.g., feat, fix, chore, docs).\nThe message must be concise, objective, and in ";

/// The instructions between the target language and the diff.
pub const PROMPT_OUTRO: &'static str = ".\nDo not truncate the sentence. Do not use quotes or markdown code blocks.\n\nDiff:\n";

/// The longest answer asked of the service, in tokens.
pub const MAX_OUTPUT_TOKENS: u32 = 1024;

/// The sampling temperature asked of the service, in hundredths (0.2).
pub const TEMPERATURE_HUNDREDTHS: u32 = 20;

/// The prompt for `diff` in `language`: the instructions, then the diff verbatim.
pub open spec fn prompt_text(diff: Seq<char>, language: Seq<char>) -> Seq<char> {
    PROMPT_INTRO@ + language + PROMPT_OUTRO@ + diff
}

/// The instructions that precede the diff in the prompt for `language`.
pub open spec fn instructions(language: Seq<char>) -> Seq<char> {
    PROMPT_INTRO@ + language + PROMPT_OUTRO@
}

/// One request to the generation service, with its fixed parameters.
#[derive(Clone, Debug, PartialEq, Eq)]
pub struct GenerationRequest {
    pub prompt: String,
    pub max_output_tokens: u32,
    pub temperature_hundredths: u32,
}

pub struct GenerationRequestModel {
    pub prompt: Seq<char>,
    pub max_output_tokens: u32,
    pub temperature_hundredths: u32,
}

impl View for GenerationRequest {
    type V = GenerationRequestModel;

    open spec fn view(&self) -> GenerationRequestModel {
        GenerationRequestModel {
            prompt: self.prompt@,
            max_output_tokens: self.max_output_tokens,
            temperature_hundredths: self.temperature_hundredths,
        }
    }
}

/// The request that carries `prompt`.
pub open spec fn request_for(prompt: Seq<char>) -> GenerationRequestModel {
    GenerationRequestModel {
        prompt,
        max_output_tokens: MAX_OUTPUT_TOKENS,
        temperature_hundredths: TEMPERATURE_HUNDREDTHS,
    }
}

/// Renders the prompt. It is a function of its two arguments alone, so equal
/// arguments always give the same text.
pub fn build_prompt(diff: &str, language: &str) -> (r: String)
    ensures
        r@ == prompt_text(diff@, language@),
{
    let mut p = String::from_str(PROMPT_INTRO);
    p.append(language);
    p.append(PROMPT_OUTRO);
    p.append(diff);
    p
}

/// The request for `prompt`, with the fixed output bound and temperature.
pub fn generation_request(prompt: String) -> (r: GenerationRequest)
    ensures
        r@ == request_for(prompt@),
{
    GenerationRequest {
        prompt,
        max_output_tokens: MAX_OUTPUT_TOKENS,
        temperature_hundredths: TEMPERATURE_HUNDREDTHS,
    }
}

/// The prompt is the instructions for the language followed by the diff,
/// unaltered: the diff is its suffix.
pub proof fn lemma_diff_verbatim(diff: Seq<char>, language: Seq<char>)
    ensures
        prompt_text(diff, language) == instructions(language) + diff,
        prompt_text(diff, language).subrange(
            instructions(language).len() as int,
            prompt_text(diff, language).len() as int,
        ) == diff,
{
    let p = prompt_text(diff, language);
    let i = instructions(language);
    assert(p == i + diff);
    assert(p.subrange(i.len() as int, p.len() as int) =~= diff);
}


/// Rendering is deterministic: equal diffs and languages give the same
/// prompt, character for character and so byte for byte.
pub proof fn lemma_prompt_deterministic(
    diff1: Seq<char>,
    language1: Seq<char>,
    diff2: Seq<char>,
    language2: Seq<char>,
)
    requires
        diff1 == diff2,
        language1 == language2,
    ensures
        prompt_text(diff1, language1) == prompt_text(diff2, language2),
        encode_utf8(prompt_text(diff1, language1)) == encode_utf8(prompt_text(diff2, language2)),
{
}

} // verus!
