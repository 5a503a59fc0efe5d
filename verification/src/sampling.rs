//! The decisions of brief generation through client sampling: whether the client can sample,
//! the request text sent to the model, and which part of the reply is the answer.
use vstd::prelude::*;

use crate::semantic_model::{first_where, lemma_first_where_hit, lemma_first_where_skip};
use crate::text::push_text;

verus! {

/// The fixed request text that precedes the evidence packet's JSON.
pub const BRIEF_PROMPT_HEAD: &'static str = "Return only a JSON object matching this schema:\n  {\"summary\":\"string\",\"five_w\":{\"who\":\"string\",\"what\":\"string\",\"when\":\"string\",\"where\":\"string\",\"why\":\"string\",\"how\":\"string\"},\"unknowns\":[\"string\"]}\n\n  Use only this evidence packet. Unsupported facts must go in unknowns.\n\n  Evidence packet:\n  ";

/// What a connected client declared about sampling: the sampling capability itself, and,
/// when it declared task support, whether its tasks can create sampling messages.
#[derive(Clone, Copy, Debug, PartialEq, Eq)]
pub struct PeerSampling {
    pub declares_sampling: bool,
    pub task_sampling: Option<bool>,
}

/// One content block of a sampled message: text, or anything else (image, audio, tool use
/// or tool result).
#[derive(Clone, Debug, PartialEq, Eq)]
pub enum SampledContent {
    Text(String),
    Other,
}

/// A sampled message: whether the assistant wrote it, and its content blocks in order.
#[derive(Clone, Debug, PartialEq, Eq)]
pub struct SampledReply {
    pub from_assistant: bool,
    pub content: Vec<SampledContent>,
}

/// A request for a generated brief: the model to prefer, the system instructions, the
/// evidence packet as JSON text, and the most tokens the answer may take.
#[derive(Clone, Debug, PartialEq, Eq)]
pub struct BriefLlmRequest {
    pub model_hint: Option<String>,
    pub instructions: String,
    pub evidence_packet: String,
    pub max_tokens: u32,
}

/// The sampling request made for a brief: one user message, the system prompt, the token
/// budget and the preferred model.
#[derive(Clone, Debug, PartialEq, Eq)]
pub struct SamplingPlan {
    pub user_prompt: String,
    pub system_prompt: String,
    pub max_tokens: u32,
    pub model_hint: Option<String>,
}

/// Whether a client can serve sampling requests: it must be known, and declare sampling or
/// task-based sampling.
pub open spec fn sampling_supported(peer: Option<PeerSampling>) -> bool {
    match peer {
        Some(p) => p.declares_sampling || p.task_sampling == Some(true),
        None => false,
    }
}

/// The text of the first text block of an assistant reply; a reply of another role has none.
pub open spec fn answer_text(reply: SampledReply) -> Option<Seq<char>> {
    if !reply.from_assistant {
        None
    } else {
        match first_where(reply.content@, |c: SampledContent| c is Text) {
            Some(SampledContent::Text(t)) => Some(t@),
            _ => None,
        }
    }
}

/// Whether the client can serve the sampling request that brief generation makes.
pub fn supports_sampling(peer: Option<PeerSampling>) -> (r: bool)
    ensures
        r == sampling_supported(peer),
{
    match peer {
        Some(p) => p.declares_sampling || match p.task_sampling {
            Some(b) => b,
            None => false,
        },
        None => false,
    }
}

/// The request text for one brief: the fixed instructions followed by the evidence packet.
pub fn brief_user_prompt(evidence_json: &str) -> (r: String)
    ensures
        r@ == BRIEF_PROMPT_HEAD@ + evidence_json@,
{
    let mut out = String::new();
    push_text(&mut out, BRIEF_PROMPT_HEAD);
    push_text(&mut out, evidence_json);
    out
}

/// The sampling request for a brief: the evidence packet placed in the request text, the
/// request's instructions as the system prompt, its token budget and its model hint.
pub fn sampling_plan(request: BriefLlmRequest) -> (r: SamplingPlan)
    ensures
        r.user_prompt@ == BRIEF_PROMPT_HEAD@ + request.evidence_packet@,
        r.system_prompt == request.instructions,
        r.max_tokens == request.max_tokens,
        r.model_hint == request.model_hint,
{
    SamplingPlan {
        user_prompt: brief_user_prompt(request.evidence_packet.as_str()),
        system_prompt: request.instructions,
        max_tokens: request.max_tokens,
        model_hint: request.model_hint,
    }
}

/// The answer in a sampled reply: the first text block, when the assistant wrote it.
pub fn assistant_text(reply: &SampledReply) -> (r: Option<&str>)
    ensures
        match r {
            Some(t) => answer_text(*reply) == Some(t@),
            None => answer_text(*reply) is None,
        },
{
    if !reply.from_assistant {
        return None;
    }
    let ghost p = |c: SampledContent| c is Text;
    let mut i: usize = 0;
    assert(reply.content@.skip(0) =~= reply.content@);
    while i < reply.content.len()
        invariant
            reply.from_assistant,
            i <= reply.content@.len(),
            p == (|c: SampledContent| c is Text),
            first_where(reply.content@, p) == first_where(reply.content@.skip(i as int), p),
        decreases reply.content@.len() - i,
    {
        match &reply.content[i] {
            SampledContent::Text(t) => {
                proof {
                    lemma_first_where_hit(reply.content@, p, i as int);
                }
                return Some(t.as_str());
            },
            SampledContent::Other => {
                proof {
                    lemma_first_where_skip(reply.content@, p, i as int);
                }
            },
        }
        i = i + 1;
    }
    assert(reply.content@.skip(i as int) =~= Seq::<SampledContent>::empty());
    None
}

} // verus!
