use vstd::prelude::*;
use crate::error::{RmxError, ErrorView};

verus! {

/// The size of a model to load.
#[derive(Debug, Default, Clone, Copy, PartialEq, Eq, PartialOrd, Ord, Hash)]
pub enum SourceSize {
    Tiny,
    #[default]
    Small,
    Base,
    Medium,
    Large,
}

/// The OpenAI chat models.
#[allow(non_camel_case_types)]
#[derive(Debug, Default, Clone, Copy, PartialEq, Eq, PartialOrd, Ord, Hash)]
pub enum OpenAiSource {
    gpt_3_5_turbo,
    #[default]
    gpt_4o_mini,
    gpt_4o,
    gpt_4,
    gpt_4_turbo,
    o1_mini,
}

impl OpenAiSource {
    /// The model's name in the API, as text.
    pub open spec fn model_name(&self) -> Seq<char> {
        match self {
            OpenAiSource::gpt_3_5_turbo => "gpt-3.5-turbo"@,
            OpenAiSource::gpt_4o_mini => "gpt-4o-mini"@,
            OpenAiSource::gpt_4o => "gpt-4o"@,
            OpenAiSource::gpt_4 => "gpt-4"@,
            OpenAiSource::gpt_4_turbo => "gpt-4-turbo"@,
            OpenAiSource::o1_mini => "o1-mini"@,
        }
    }

    /// The model's name in the API.
    pub fn name(&self) -> (r: &'static str)
        ensures
            r@ == self.model_name(),
    {
        match self {
            OpenAiSource::gpt_3_5_turbo => "gpt-3.5-turbo",
            OpenAiSource::gpt_4o_mini => "gpt-4o-mini",
            OpenAiSource::gpt_4o => "gpt-4o",
            OpenAiSource::gpt_4 => "gpt-4",
            OpenAiSource::gpt_4_turbo => "gpt-4-turbo",
            OpenAiSource::o1_mini => "o1-mini",
        }
    }

    /// The model that a chat of the given size uses.
    pub fn for_size(size: SourceSize) -> (r: OpenAiSource)
        ensures
            r == match size {
                SourceSize::Tiny => OpenAiSource::gpt_4o_mini,
                SourceSize::Small | SourceSize::Base => OpenAiSource::gpt_4o,
                SourceSize::Medium => OpenAiSource::gpt_4,
                SourceSize::Large => OpenAiSource::gpt_4_turbo,
            },
    {
        match size {
            SourceSize::Tiny => OpenAiSource::gpt_4o_mini,
            SourceSize::Small | SourceSize::Base => OpenAiSource::gpt_4o,
            SourceSize::Medium => OpenAiSource::gpt_4,
            SourceSize::Large => OpenAiSource::gpt_4_turbo,
        }
    }
}

/// The prompt sent when the user gives none.
pub const EMPTY_PROMPT: &'static str = "\n>";

/// The prompt to send: the given one, or the default prompt when empty.
pub fn prompt_or_default<'a>(prompt: &'a str) -> (r: &'a str)
    ensures
        prompt@.len() > 0 ==> r@ == prompt@,
        prompt@.len() == 0 ==> r@ == EMPTY_PROMPT@,
{
    if prompt.is_empty() {
        EMPTY_PROMPT
    } else {
        prompt
    }
}

/// The most tokens a chat answer may hold.
pub const MAX_TOKENS: u32 = 1024;

/// A chat request: the model, the most tokens of the answer and the
/// user's message.
#[derive(Debug, Clone, PartialEq, Eq)]
pub struct ChatRequest {
    pub model: &'static str,
    pub max_tokens: u32,
    pub content: String,
}

/// The request that sends what the user typed to the model `source`; an
/// empty input is no input.
pub fn chat_request(source: OpenAiSource, input: String) -> (r: Result<ChatRequest, RmxError>)
    ensures
        input@.len() == 0 ==> (r matches Err(e) && e@ == ErrorView::NoInput),
        input@.len() > 0 ==> (r matches Ok(q) && q.model@ == source.model_name()
            && q.max_tokens == MAX_TOKENS && q.content@ == input@),
{
    if input.as_str().is_empty() {
        return Err(RmxError::NoInput);
    }
    Ok(ChatRequest { model: source.name(), max_tokens: MAX_TOKENS, content: input })
}

} // verus!
