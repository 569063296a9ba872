//! Requests for chat completions, and the options that they carry.

use crate::text::{contains_text, copy_texts, texts};
use std::collections::HashMap;
use vstd::prelude::*;
use vstd::string::*;

verus! {

/// A JSON value.
#[verifier::external_type_specification]
#[verifier::external_body]
pub struct ExJsonValue(serde_json::Value);

/// The texts at which the output is to stop.
#[derive(Clone, Debug)]
pub enum Stop {
    String(String),
    StringArray(Vec<String>),
}

/// The options of a chat completion that every server of the protocol knows.
/// Fractional numbers are of the type `F`.
pub struct CreateChatCompletionRequest<F> {
    pub messages: Vec<serde_json::Value>,
    pub model: String,
    pub reasoning_effort: Option<serde_json::Value>,
    pub metadata: Option<serde_json::Value>,
    pub frequency_penalty: Option<F>,
    pub logit_bias: Option<HashMap<String, serde_json::Value>>,
    pub logprobs: Option<bool>,
    pub top_logprobs: Option<u8>,
    /// The older name of `max_completion_tokens`.
    pub max_tokens: Option<u32>,
    pub max_completion_tokens: Option<u32>,
    pub n: Option<u8>,
    pub presence_penalty: Option<F>,
    pub seed: Option<i64>,
    pub service_tier: Option<serde_json::Value>,
    pub stop: Option<Stop>,
    pub temperature: Option<F>,
    pub top_p: Option<F>,
    pub tools: Option<Vec<serde_json::Value>>,
    pub user: Option<String>,
    /// The options that only other parts of the service read.
    pub other: HashMap<String, serde_json::Value>,
}

/// Further options, at the root of a request.
pub struct CommonExt<F> {
    pub ignore_eos: Option<bool>,
    pub min_tokens: Option<u32>,
    pub top_k: Option<i32>,
    pub min_p: Option<F>,
    pub repetition_penalty: Option<F>,
    pub include_stop_str_in_output: Option<bool>,
    pub guided_json: Option<serde_json::Value>,
    pub guided_regex: Option<String>,
    pub guided_grammar: Option<String>,
    pub guided_choice: Option<Vec<String>>,
    pub guided_decoding_backend: Option<String>,
    pub guided_whitespace_pattern: Option<String>,
}

/// Further options, in an extension field of their own. Those that can also
/// stand at the root are read there first.
pub struct NvExt<F> {
    pub ignore_eos: Option<bool>,
    pub top_k: Option<i32>,
    pub min_p: Option<F>,
    pub repetition_penalty: Option<F>,
    pub annotations: Option<Vec<String>>,
    pub guided_json: Option<serde_json::Value>,
    pub guided_regex: Option<String>,
    pub guided_grammar: Option<String>,
    pub guided_choice: Option<Vec<String>>,
    pub guided_decoding_backend: Option<String>,
    pub guided_whitespace_pattern: Option<String>,
}

/// A request for a chat completion.
pub struct NvCreateChatCompletionRequest<F> {
    pub inner: CreateChatCompletionRequest<F>,
    pub common: CommonExt<F>,
    pub nvext: Option<NvExt<F>>,
    /// What is handed to the chat template besides the messages.
    pub chat_template_args: Option<HashMap<String, serde_json::Value>>,
}

/// A part of a request that is checked, with the value that counts.
pub enum Check<'a, F> {
    Messages(&'a Vec<serde_json::Value>),
    Model(&'a String),
    ReasoningEffort(&'a Option<serde_json::Value>),
    Metadata(&'a Option<serde_json::Value>),
    FrequencyPenalty(Option<F>),
    LogitBias(&'a Option<HashMap<String, serde_json::Value>>),
    TopLogprobs(Option<u8>),
    MaxCompletionTokens(Option<u32>),
    N(Option<u8>),
    PresencePenalty(Option<F>),
    ServiceTier(&'a Option<serde_json::Value>),
    Stop(&'a Option<Stop>),
    Temperature(Option<F>),
    TopP(Option<F>),
    Tools(&'a Option<Vec<serde_json::Value>>),
    User(&'a Option<String>),
    RepetitionPenalty(Option<F>),
    MinP(Option<F>),
    TopK(Option<i32>),
}

/// An option that can stand at the root and in the extension.
#[derive(Clone, Copy, Debug, PartialEq, Eq, Structural)]
pub enum SharedOption {
    GuidedJson,
    GuidedRegex,
    GuidedGrammar,
    GuidedChoice,
    GuidedDecodingBackend,
    GuidedWhitespacePattern,
    TopK,
    MinP,
    RepetitionPenalty,
    IgnoreEos,
}

/// A warning that an option stands in the extension, where it is deprecated.
#[derive(Clone, Copy, Debug)]
pub struct Deprecation {
    /// The name of the option.
    pub name: &'static str,
    /// Whether it stands at the root too, so that the extension does not count.
    pub overridden: bool,
}

impl SharedOption {
    /// The name of the option.
    pub open spec fn name_text(self) -> Seq<char> {
        match self {
            SharedOption::GuidedJson => "guided_json"@,
            SharedOption::GuidedRegex => "guided_regex"@,
            SharedOption::GuidedGrammar => "guided_grammar"@,
            SharedOption::GuidedChoice => "guided_choice"@,
            SharedOption::GuidedDecodingBackend => "guided_decoding_backend"@,
            SharedOption::GuidedWhitespacePattern => "guided_whitespace_pattern"@,
            SharedOption::TopK => "top_k"@,
            SharedOption::MinP => "min_p"@,
            SharedOption::RepetitionPenalty => "repetition_penalty"@,
            SharedOption::IgnoreEos => "ignore_eos"@,
        }
    }

    /// The name of the option.
    pub fn name(&self) -> (r: &'static str)
        ensures
            r@ == self.name_text(),
    {
        match self {
            SharedOption::GuidedJson => "guided_json",
            SharedOption::GuidedRegex => "guided_regex",
            SharedOption::GuidedGrammar => "guided_grammar",
            SharedOption::GuidedChoice => "guided_choice",
            SharedOption::GuidedDecodingBackend => "guided_decoding_backend",
            SharedOption::GuidedWhitespacePattern => "guided_whitespace_pattern",
            SharedOption::TopK => "top_k",
            SharedOption::MinP => "min_p",
            SharedOption::RepetitionPenalty => "repetition_penalty",
            SharedOption::IgnoreEos => "ignore_eos",
        }
    }
}

/// The value that counts where one can stand at the root and in the extension:
/// the one at the root, and without it that in the extension.
pub open spec fn effective<T>(common: Option<T>, nvext: Option<T>) -> Option<T> {
    if common is Some {
        common
    } else {
        nvext
    }
}

/// The text of an optional string.
pub open spec fn text_of(s: Option<String>) -> Option<Seq<char>> {
    match s {
        Some(s) => Some(s@),
        None => None,
    }
}

/// The texts of an optional list of strings.
pub open spec fn texts_of(list: Option<Vec<String>>) -> Option<Seq<Seq<char>>> {
    match list {
        Some(list) => Some(texts(list@)),
        None => None,
    }
}

/// The value that counts of two: `common`, and without it `nvext`.
fn first_of<'a, T>(common: Option<&'a T>, nvext: Option<&'a T>) -> (r: Option<&'a T>)
    ensures
        r == effective(common, nvext),
{
    match common {
        Some(_) => common,
        None => nvext,
    }
}

/// A copy of an optional number or flag.
fn copied<T: Copy>(value: Option<&T>) -> (r: Option<T>)
    ensures
        r == match value {
            Some(value) => Some(*value),
            None => None,
        },
{
    match value {
        Some(value) => Some(*value),
        None => None,
    }
}

/// A copy of an optional string.
fn copied_text(value: Option<&String>) -> (r: Option<String>)
    ensures
        text_of(r) == match value {
            Some(value) => Some(value@),
            None => None,
        },
{
    match value {
        Some(value) => Some(value.clone()),
        None => None,
    }
}

/// A copy of an optional list of strings.
fn copied_texts(value: Option<&Vec<String>>) -> (r: Option<Vec<String>>)
    ensures
        texts_of(r) == match value {
            Some(value) => Some(texts(value@)),
            None => None,
        },
{
    match value {
        Some(value) => Some(copy_texts(value)),
        None => None,
    }
}

impl<F> CommonExt<F> {
    /// Whether an option stands at the root.
    pub open spec fn sets(self, option: SharedOption) -> bool {
        match option {
            SharedOption::GuidedJson => self.guided_json is Some,
            SharedOption::GuidedRegex => self.guided_regex is Some,
            SharedOption::GuidedGrammar => self.guided_grammar is Some,
            SharedOption::GuidedChoice => self.guided_choice is Some,
            SharedOption::GuidedDecodingBackend => self.guided_decoding_backend is Some,
            SharedOption::GuidedWhitespacePattern => self.guided_whitespace_pattern is Some,
            SharedOption::TopK => self.top_k is Some,
            SharedOption::MinP => self.min_p is Some,
            SharedOption::RepetitionPenalty => self.repetition_penalty is Some,
            SharedOption::IgnoreEos => self.ignore_eos is Some,
        }
    }

    /// Whether an option stands at the root.
    pub fn has(&self, option: SharedOption) -> (r: bool)
        ensures
            r == self.sets(option),
    {
        match option {
            SharedOption::GuidedJson => self.guided_json.is_some(),
            SharedOption::GuidedRegex => self.guided_regex.is_some(),
            SharedOption::GuidedGrammar => self.guided_grammar.is_some(),
            SharedOption::GuidedChoice => self.guided_choice.is_some(),
            SharedOption::GuidedDecodingBackend => self.guided_decoding_backend.is_some(),
            SharedOption::GuidedWhitespacePattern => self.guided_whitespace_pattern.is_some(),
            SharedOption::TopK => self.top_k.is_some(),
            SharedOption::MinP => self.min_p.is_some(),
            SharedOption::RepetitionPenalty => self.repetition_penalty.is_some(),
            SharedOption::IgnoreEos => self.ignore_eos.is_some(),
        }
    }
}

impl<F> NvExt<F> {
    /// Whether an option stands in the extension.
    pub open spec fn sets(self, option: SharedOption) -> bool {
        match option {
            SharedOption::GuidedJson => self.guided_json is Some,
            SharedOption::GuidedRegex => self.guided_regex is Some,
            SharedOption::GuidedGrammar => self.guided_grammar is Some,
            SharedOption::GuidedChoice => self.guided_choice is Some,
            SharedOption::GuidedDecodingBackend => self.guided_decoding_backend is Some,
            SharedOption::GuidedWhitespacePattern => self.guided_whitespace_pattern is Some,
            SharedOption::TopK => self.top_k is Some,
            SharedOption::MinP => self.min_p is Some,
            SharedOption::RepetitionPenalty => self.repetition_penalty is Some,
            SharedOption::IgnoreEos => self.ignore_eos is Some,
        }
    }

    /// Whether an option stands in the extension.
    pub fn has(&self, option: SharedOption) -> (r: bool)
        ensures
            r == self.sets(option),
    {
        match option {
            SharedOption::GuidedJson => self.guided_json.is_some(),
            SharedOption::GuidedRegex => self.guided_regex.is_some(),
            SharedOption::GuidedGrammar => self.guided_grammar.is_some(),
            SharedOption::GuidedChoice => self.guided_choice.is_some(),
            SharedOption::GuidedDecodingBackend => self.guided_decoding_backend.is_some(),
            SharedOption::GuidedWhitespacePattern => self.guided_whitespace_pattern.is_some(),
            SharedOption::TopK => self.top_k.is_some(),
            SharedOption::MinP => self.min_p.is_some(),
            SharedOption::RepetitionPenalty => self.repetition_penalty.is_some(),
            SharedOption::IgnoreEos => self.ignore_eos.is_some(),
        }
    }
}

impl<F> NvCreateChatCompletionRequest<F> {
    /// Whether the end-of-sequence token is ignored.
    pub open spec fn ignore_eos(self) -> Option<bool> {
        effective(
            self.common.ignore_eos,
            match self.nvext {
                Some(nvext) => nvext.ignore_eos,
                None => None,
            },
        )
    }

    /// The number of tokens to sample from that counts.
    pub open spec fn top_k(self) -> Option<i32> {
        effective(
            self.common.top_k,
            match self.nvext {
                Some(nvext) => nvext.top_k,
                None => None,
            },
        )
    }

    /// The least probability to sample from that counts.
    pub open spec fn min_p(self) -> Option<F> {
        effective(
            self.common.min_p,
            match self.nvext {
                Some(nvext) => nvext.min_p,
                None => None,
            },
        )
    }

    /// The penalty on repetition that counts.
    pub open spec fn repetition_penalty(self) -> Option<F> {
        effective(
            self.common.repetition_penalty,
            match self.nvext {
                Some(nvext) => nvext.repetition_penalty,
                None => None,
            },
        )
    }

    /// The JSON schema that the output is to follow that counts.
    pub open spec fn guided_json(self) -> Option<serde_json::Value> {
        effective(
            self.common.guided_json,
            match self.nvext {
                Some(nvext) => nvext.guided_json,
                None => None,
            },
        )
    }

    /// The regular expression that the output is to match that counts.
    pub open spec fn guided_regex(self) -> Option<String> {
        effective(
            self.common.guided_regex,
            match self.nvext {
                Some(nvext) => nvext.guided_regex,
                None => None,
            },
        )
    }

    /// The grammar that the output is to follow that counts.
    pub open spec fn guided_grammar(self) -> Option<String> {
        effective(
            self.common.guided_grammar,
            match self.nvext {
                Some(nvext) => nvext.guided_grammar,
                None => None,
            },
        )
    }

    /// The list of outputs to choose from that counts.
    pub open spec fn guided_choice(self) -> Option<Vec<String>> {
        effective(
            self.common.guided_choice,
            match self.nvext {
                Some(nvext) => nvext.guided_choice,
                None => None,
            },
        )
    }

    /// The backend that guides the output that counts.
    pub open spec fn guided_decoding_backend(self) -> Option<String> {
        effective(
            self.common.guided_decoding_backend,
            match self.nvext {
                Some(nvext) => nvext.guided_decoding_backend,
                None => None,
            },
        )
    }

    /// The whitespace pattern of guided output that counts.
    pub open spec fn guided_whitespace_pattern(self) -> Option<String> {
        effective(
            self.common.guided_whitespace_pattern,
            match self.nvext {
                Some(nvext) => nvext.guided_whitespace_pattern,
                None => None,
            },
        )
    }

    /// The annotations that the request asks for.
    pub open spec fn annotation_texts(self) -> Option<Seq<Seq<char>>> {
        match self.nvext {
            Some(nvext) => texts_of(nvext.annotations),
            None => None,
        }
    }

    /// The checks of the request, in order. An option that can stand in two
    /// places is checked with the value that counts.
    pub open spec fn checks(&self) -> Seq<Check<'_, F>> {
        seq![
            Check::Messages(&self.inner.messages),
            Check::Model(&self.inner.model),
            Check::ReasoningEffort(&self.inner.reasoning_effort),
            Check::Metadata(&self.inner.metadata),
            Check::FrequencyPenalty(self.inner.frequency_penalty),
            Check::LogitBias(&self.inner.logit_bias),
            Check::TopLogprobs(self.inner.top_logprobs),
            Check::MaxCompletionTokens(self.inner.max_completion_tokens),
            Check::N(self.inner.n),
            Check::PresencePenalty(self.inner.presence_penalty),
            Check::ServiceTier(&self.inner.service_tier),
            Check::Stop(&self.inner.stop),
            Check::Temperature(self.inner.temperature),
            Check::TopP(self.inner.top_p),
            Check::Tools(&self.inner.tools),
            Check::User(&self.inner.user),
            Check::RepetitionPenalty(self.repetition_penalty()),
            Check::MinP(self.min_p()),
            Check::TopK(self.top_k()),
        ]
    }

    /// The extension, where the request has one.
    pub fn nvext(&self) -> (r: Option<&NvExt<F>>)
        ensures
            match self.nvext {
                Some(nvext) => r == Some(&nvext),
                None => r is None,
            },
    {
        self.nvext.as_ref()
    }

    /// The warning that is due where `option` is read: it stands in the extension,
    /// where it is deprecated.
    pub fn deprecation(&self, option: SharedOption) -> (r: Option<Deprecation>)
        ensures
            match self.nvext {
                Some(nvext) if nvext.sets(option) => r matches Some(warning) && warning.name@
                    == option.name_text() && warning.overridden == self.common.sets(option),
                _ => r is None,
            },
    {
        match &self.nvext {
            Some(nvext) => if nvext.has(option) {
                Some(Deprecation { name: option.name(), overridden: self.common.has(option) })
            } else {
                None
            },
            None => None,
        }
    }

    /// No prompt is taken from the request as it stands.
    pub fn raw_prompt(&self) -> (r: Option<String>)
        ensures
            r is None,
    {
        None
    }

    /// The annotations that the request asks for.
    pub fn annotations(&self) -> (r: Option<Vec<String>>)
        ensures
            texts_of(r) == self.annotation_texts(),
    {
        match &self.nvext {
            Some(nvext) => copied_texts(nvext.annotations.as_ref()),
            None => None,
        }
    }

    /// Whether the request asks for the annotation `annotation`.
    pub fn has_annotation(&self, annotation: &str) -> (r: bool)
        ensures
            r == match self.annotation_texts() {
                Some(annotations) => annotations.contains(annotation@),
                None => false,
            },
    {
        match &self.nvext {
            Some(nvext) => match &nvext.annotations {
                Some(annotations) => contains_text(annotations, annotation),
                None => false,
            },
            None => false,
        }
    }

    /// The further options at the root.
    pub fn common_ext(&self) -> (r: Option<&CommonExt<F>>)
        ensures
            r == Some(&self.common),
    {
        Some(&self.common)
    }

    /// The JSON schema that the output is to follow.
    pub fn get_guided_json(&self) -> (r: Option<&serde_json::Value>)
        ensures
            match self.guided_json() {
                Some(value) => r == Some(&value),
                None => r is None,
            },
    {
        let extension = match &self.nvext {
            Some(nvext) => nvext.guided_json.as_ref(),
            None => None,
        };
        first_of(self.common.guided_json.as_ref(), extension)
    }

    /// The regular expression that the output is to match.
    pub fn get_guided_regex(&self) -> (r: Option<String>)
        ensures
            text_of(r) == text_of(self.guided_regex()),
    {
        let extension = match &self.nvext {
            Some(nvext) => nvext.guided_regex.as_ref(),
            None => None,
        };
        copied_text(first_of(self.common.guided_regex.as_ref(), extension))
    }

    /// The grammar that the output is to follow.
    pub fn get_guided_grammar(&self) -> (r: Option<String>)
        ensures
            text_of(r) == text_of(self.guided_grammar()),
    {
        let extension = match &self.nvext {
            Some(nvext) => nvext.guided_grammar.as_ref(),
            None => None,
        };
        copied_text(first_of(self.common.guided_grammar.as_ref(), extension))
    }

    /// The backend that guides the output.
    pub fn get_guided_decoding_backend(&self) -> (r: Option<String>)
        ensures
            text_of(r) == text_of(self.guided_decoding_backend()),
    {
        let extension = match &self.nvext {
            Some(nvext) => nvext.guided_decoding_backend.as_ref(),
            None => None,
        };
        copied_text(first_of(self.common.guided_decoding_backend.as_ref(), extension))
    }

    /// The whitespace pattern of guided output.
    pub fn get_guided_whitespace_pattern(&self) -> (r: Option<String>)
        ensures
            text_of(r) == text_of(self.guided_whitespace_pattern()),
    {
        let extension = match &self.nvext {
            Some(nvext) => nvext.guided_whitespace_pattern.as_ref(),
            None => None,
        };
        copied_text(first_of(self.common.guided_whitespace_pattern.as_ref(), extension))
    }

    /// The outputs to choose from.
    pub fn get_guided_choice(&self) -> (r: Option<Vec<String>>)
        ensures
            texts_of(r) == texts_of(self.guided_choice()),
    {
        let extension = match &self.nvext {
            Some(nvext) => nvext.guided_choice.as_ref(),
            None => None,
        };
        copied_texts(first_of(self.common.guided_choice.as_ref(), extension))
    }

    /// The number of tokens to sample from.
    pub fn get_top_k(&self) -> (r: Option<i32>)
        ensures
            r == self.top_k(),
    {
        let extension = match &self.nvext {
            Some(nvext) => nvext.top_k.as_ref(),
            None => None,
        };
        copied(first_of(self.common.top_k.as_ref(), extension))
    }

    /// Whether the text at which the output stops belongs to it.
    pub fn get_include_stop_str_in_output(&self) -> (r: Option<bool>)
        ensures
            r == self.common.include_stop_str_in_output,
    {
        self.common.include_stop_str_in_output
    }

    /// The seed of the random choices.
    pub fn get_seed(&self) -> (r: Option<i64>)
        ensures
            r == self.inner.seed,
    {
        self.inner.seed
    }

    /// The number of answers that are asked for.
    pub fn get_n(&self) -> (r: Option<u8>)
        ensures
            r == self.inner.n,
    {
        self.inner.n
    }

    /// Chat completions do not choose the best of several answers.
    pub fn get_best_of(&self) -> (r: Option<u8>)
        ensures
            r is None,
    {
        None
    }

    /// The largest number of tokens in the output. The older name of the option
    /// counts where the newer is not used.
    pub fn get_max_tokens(&self) -> (r: Option<u32>)
        ensures
            r == effective(self.inner.max_completion_tokens, self.inner.max_tokens),
    {
        match self.inner.max_completion_tokens {
            Some(_) => self.inner.max_completion_tokens,
            None => self.inner.max_tokens,
        }
    }

    /// The smallest number of tokens in the output.
    pub fn get_min_tokens(&self) -> (r: Option<u32>)
        ensures
            r == self.common.min_tokens,
    {
        self.common.min_tokens
    }

    /// The texts at which the output is to stop. A single text is a list of one.
    pub fn get_stop(&self) -> (r: Option<Vec<String>>)
        ensures
            texts_of(r) == match self.inner.stop {
                Some(Stop::String(text)) => Some(seq![text@]),
                Some(Stop::StringArray(list)) => Some(texts(list@)),
                None => None,
            },
    {
        match &self.inner.stop {
            Some(Stop::String(text)) => {
                let mut list: Vec<String> = Vec::new();
                list.push(text.clone());
                assert(texts(list@) == seq![text@]);
                Some(list)
            },
            Some(Stop::StringArray(list)) => Some(copy_texts(list)),
            None => None,
        }
    }

    /// Whether the end-of-sequence token is ignored, as the root says.
    pub fn get_common_ignore_eos(&self) -> (r: Option<bool>)
        ensures
            r == self.common.ignore_eos,
    {
        self.common.ignore_eos
    }

    /// Whether the end-of-sequence token is ignored.
    pub fn get_ignore_eos(&self) -> (r: Option<bool>)
        ensures
            r == self.ignore_eos(),
    {
        let extension = match &self.nvext {
            Some(nvext) => nvext.ignore_eos.as_ref(),
            None => None,
        };
        copied(first_of(self.common.ignore_eos.as_ref(), extension))
    }

    /// How many of the likeliest tokens are reported with their probabilities:
    /// none unless it is asked for, and one where no number is given.
    pub fn get_logprobs(&self) -> (r: Option<u32>)
        ensures
            r == if self.inner.logprobs == Some(true) {
                match self.inner.top_logprobs {
                    Some(top_logprobs) => Some(top_logprobs as u32),
                    None => Some(1u32),
                }
            } else {
                None
            },
    {
        match self.inner.logprobs {
            Some(true) => match self.inner.top_logprobs {
                Some(top_logprobs) => Some(top_logprobs as u32),
                None => Some(1u32),
            },
            _ => None,
        }
    }

    /// Chat completions do not report probabilities in the prompt.
    pub fn get_prompt_logprobs(&self) -> (r: Option<u32>)
        ensures
            r is None,
    {
        None
    }

    /// Chat completions do not say whether special tokens are left out.
    pub fn get_skip_special_tokens(&self) -> (r: Option<bool>)
        ensures
            r is None,
    {
        None
    }

    /// Chat completions do not say whether the prompt is returned.
    pub fn get_formatted_prompt(&self) -> (r: Option<bool>)
        ensures
            r is None,
    {
        None
    }
}

impl<F: Copy> NvCreateChatCompletionRequest<F> {
    /// The temperature of the random choices.
    pub fn get_temperature(&self) -> (r: Option<F>)
        ensures
            r == self.inner.temperature,
    {
        self.inner.temperature
    }

    /// The share of probability to sample from.
    pub fn get_top_p(&self) -> (r: Option<F>)
        ensures
            r == self.inner.top_p,
    {
        self.inner.top_p
    }

    /// The penalty on tokens by their frequency so far.
    pub fn get_frequency_penalty(&self) -> (r: Option<F>)
        ensures
            r == self.inner.frequency_penalty,
    {
        self.inner.frequency_penalty
    }

    /// The penalty on tokens that occurred so far.
    pub fn get_presence_penalty(&self) -> (r: Option<F>)
        ensures
            r == self.inner.presence_penalty,
    {
        self.inner.presence_penalty
    }

    /// The least probability to sample from.
    pub fn get_min_p(&self) -> (r: Option<F>)
        ensures
            r == self.min_p(),
    {
        let extension = match &self.nvext {
            Some(nvext) => nvext.min_p.as_ref(),
            None => None,
        };
        copied(first_of(self.common.min_p.as_ref(), extension))
    }

    /// The penalty on repetition.
    pub fn get_repetition_penalty(&self) -> (r: Option<F>)
        ensures
            r == self.repetition_penalty(),
    {
        let extension = match &self.nvext {
            Some(nvext) => nvext.repetition_penalty.as_ref(),
            None => None,
        };
        copied(first_of(self.common.repetition_penalty.as_ref(), extension))
    }

    /// The checks of the request, in order.
    fn check_list(&self) -> (r: Vec<Check<'_, F>>)
        ensures
            r@ == self.checks(),
    {
        let mut r: Vec<Check<'_, F>> = Vec::new();
        r.push(Check::Messages(&self.inner.messages));
        r.push(Check::Model(&self.inner.model));
        r.push(Check::ReasoningEffort(&self.inner.reasoning_effort));
        r.push(Check::Metadata(&self.inner.metadata));
        r.push(Check::FrequencyPenalty(self.inner.frequency_penalty));
        r.push(Check::LogitBias(&self.inner.logit_bias));
        r.push(Check::TopLogprobs(self.inner.top_logprobs));
        r.push(Check::MaxCompletionTokens(self.inner.max_completion_tokens));
        r.push(Check::N(self.inner.n));
        r.push(Check::PresencePenalty(self.inner.presence_penalty));
        r.push(Check::ServiceTier(&self.inner.service_tier));
        r.push(Check::Stop(&self.inner.stop));
        r.push(Check::Temperature(self.inner.temperature));
        r.push(Check::TopP(self.inner.top_p));
        r.push(Check::Tools(&self.inner.tools));
        r.push(Check::User(&self.inner.user));
        r.push(Check::RepetitionPenalty(self.get_repetition_penalty()));
        r.push(Check::MinP(self.get_min_p()));
        r.push(Check::TopK(self.get_top_k()));
        r
    }

    /// Checks the request part by part with `check`, in the order of
    /// [`NvCreateChatCompletionRequest::checks`]. The first check that fails ends
    /// it, and its error is returned.
    pub fn validate<C, Error>(&self, check: C) -> (r: Result<(), Error>) where
        C: Fn(&Check<'_, F>) -> Result<(), Error>,

        requires
            forall|i: int|
                0 <= i < self.checks().len() ==> check.requires((&#[trigger] self.checks()[i],)),
        ensures
            match r {
                Ok(_) => {
                    &&& forall|i: int|
                        0 <= i < self.checks().len() ==> passes(check, #[trigger] self.checks()[i])
                    &&& passes(check, Check::Messages(&self.inner.messages))
                    &&& passes(check, Check::Model(&self.inner.model))
                    &&& passes(check, Check::ReasoningEffort(&self.inner.reasoning_effort))
                    &&& passes(check, Check::Metadata(&self.inner.metadata))
                    &&& passes(check, Check::FrequencyPenalty(self.inner.frequency_penalty))
                    &&& passes(check, Check::LogitBias(&self.inner.logit_bias))
                    &&& passes(check, Check::TopLogprobs(self.inner.top_logprobs))
                    &&& passes(check, Check::MaxCompletionTokens(self.inner.max_completion_tokens))
                    &&& passes(check, Check::N(self.inner.n))
                    &&& passes(check, Check::PresencePenalty(self.inner.presence_penalty))
                    &&& passes(check, Check::ServiceTier(&self.inner.service_tier))
                    &&& passes(check, Check::Stop(&self.inner.stop))
                    &&& passes(check, Check::Temperature(self.inner.temperature))
                    &&& passes(check, Check::TopP(self.inner.top_p))
                    &&& passes(check, Check::Tools(&self.inner.tools))
                    &&& passes(check, Check::User(&self.inner.user))
                    &&& passes(check, Check::RepetitionPenalty(self.repetition_penalty()))
                    &&& passes(check, Check::MinP(self.min_p()))
                    &&& passes(check, Check::TopK(self.top_k()))
                },
                Err(error) => exists|k: int|
                    #![trigger self.checks()[k]]
                    {
                        &&& 0 <= k < self.checks().len()
                        &&& check.ensures((&self.checks()[k],), Err(error))
                        &&& forall|i: int|
                            0 <= i < k ==> passes(check, #[trigger] self.checks()[i])
                    },
            },
    {
        let list = self.check_list();
        let mut i: usize = 0;
        while i < list.len()
            invariant
                i <= list.len(),
                list@ == self.checks(),
                forall|j: int|
                    0 <= j < self.checks().len() ==> check.requires(
                        (&#[trigger] self.checks()[j],),
                    ),
                forall|j: int| 0 <= j < i ==> passes(check, #[trigger] self.checks()[j]),
            decreases list.len() - i,
        {
            let outcome = check(&list[i]);
            assert(check.ensures((&self.checks()[i as int],), outcome));
            match outcome {
                Ok(unit) => {
                    assert(unit == ());
                    assert(passes(check, self.checks()[i as int]));
                },
                Err(error) => {
                    return Err(error);
                },
            }
            i = i + 1;
        }
        proof {
            assert(passes(check, self.checks()[0]));
            assert(passes(check, self.checks()[1]));
            assert(passes(check, self.checks()[2]));
            assert(passes(check, self.checks()[3]));
            assert(passes(check, self.checks()[4]));
            assert(passes(check, self.checks()[5]));
            assert(passes(check, self.checks()[6]));
            assert(passes(check, self.checks()[7]));
            assert(passes(check, self.checks()[8]));
            assert(passes(check, self.checks()[9]));
            assert(passes(check, self.checks()[10]));
            assert(passes(check, self.checks()[11]));
            assert(passes(check, self.checks()[12]));
            assert(passes(check, self.checks()[13]));
            assert(passes(check, self.checks()[14]));
            assert(passes(check, self.checks()[15]));
            assert(passes(check, self.checks()[16]));
            assert(passes(check, self.checks()[17]));
            assert(passes(check, self.checks()[18]));
        }
        Ok(())
    }
}

/// Whether `check` may pass `part`.
pub open spec fn passes<'a, F, C, Error>(check: C, part: Check<'a, F>) -> bool where
    C: Fn(&Check<'_, F>) -> Result<(), Error>,
 {
    check.ensures((&part,), Ok(()))
}

/// What stands at the root takes precedence: of two requests that agree at the
/// root, every option that is set there has the same value in both, whatever
/// their extensions say.
pub proof fn root_takes_precedence<F>(
    a: NvCreateChatCompletionRequest<F>,
    b: NvCreateChatCompletionRequest<F>,
)
    requires
        a.common == b.common,
    ensures
        a.common.ignore_eos is Some ==> {
            &&& a.ignore_eos() == a.common.ignore_eos
            &&& b.ignore_eos() == a.common.ignore_eos
        },
        a.common.top_k is Some ==> {
            &&& a.top_k() == a.common.top_k
            &&& b.top_k() == a.common.top_k
        },
        a.common.min_p is Some ==> {
            &&& a.min_p() == a.common.min_p
            &&& b.min_p() == a.common.min_p
        },
        a.common.repetition_penalty is Some ==> {
            &&& a.repetition_penalty() == a.common.repetition_penalty
            &&& b.repetition_penalty() == a.common.repetition_penalty
        },
        a.common.guided_json is Some ==> {
            &&& a.guided_json() == a.common.guided_json
            &&& b.guided_json() == a.common.guided_json
        },
        a.common.guided_regex is Some ==> {
            &&& a.guided_regex() == a.common.guided_regex
            &&& b.guided_regex() == a.common.guided_regex
        },
        a.common.guided_grammar is Some ==> {
            &&& a.guided_grammar() == a.common.guided_grammar
            &&& b.guided_grammar() == a.common.guided_grammar
        },
        a.common.guided_choice is Some ==> {
            &&& a.guided_choice() == a.common.guided_choice
            &&& b.guided_choice() == a.common.guided_choice
        },
        a.common.guided_decoding_backend is Some ==> {
            &&& a.guided_decoding_backend() == a.common.guided_decoding_backend
            &&& b.guided_decoding_backend() == a.common.guided_decoding_backend
        },
        a.common.guided_whitespace_pattern is Some ==> {
            &&& a.guided_whitespace_pattern() == a.common.guided_whitespace_pattern
            &&& b.guided_whitespace_pattern() == a.common.guided_whitespace_pattern
        },
{
}

/// The extension counts where the root says nothing.
pub proof fn extension_counts_without_root<F>(
    request: NvCreateChatCompletionRequest<F>,
    nvext: NvExt<F>,
)
    requires
        request.nvext == Some(nvext),
    ensures
        request.common.ignore_eos is None ==> request.ignore_eos()
            == nvext.ignore_eos,
        request.common.top_k is None ==> request.top_k()
            == nvext.top_k,
        request.common.min_p is None ==> request.min_p()
            == nvext.min_p,
        request.common.repetition_penalty is None ==> request.repetition_penalty()
            == nvext.repetition_penalty,
        request.common.guided_json is None ==> request.guided_json()
            == nvext.guided_json,
        request.common.guided_regex is None ==> request.guided_regex()
            == nvext.guided_regex,
        request.common.guided_grammar is None ==> request.guided_grammar()
            == nvext.guided_grammar,
        request.common.guided_choice is None ==> request.guided_choice()
            == nvext.guided_choice,
        request.common.guided_decoding_backend is None ==> request.guided_decoding_backend()
            == nvext.guided_decoding_backend,
        request.common.guided_whitespace_pattern is None ==> request.guided_whitespace_pattern()
            == nvext.guided_whitespace_pattern,
{
}

/// Each part of a request is checked with the request's own value of that part, and
/// no other: where an option can stand in two places, with the one at the root, and
/// without it with that in the extension.
pub proof fn parts_are_checked_with_their_values<'a, F>(
    request: &'a NvCreateChatCompletionRequest<F>,
    part: Check<'a, F>,
)
    requires
        request.checks().contains(part),
    ensures
        part is Messages ==> part == Check::<F>::Messages(&request.inner.messages),
        part is Model ==> part == Check::<F>::Model(&request.inner.model),
        part is ReasoningEffort ==> part
            == Check::<F>::ReasoningEffort(&request.inner.reasoning_effort),
        part is Metadata ==> part == Check::<F>::Metadata(&request.inner.metadata),
        part is FrequencyPenalty ==> part
            == Check::<F>::FrequencyPenalty(request.inner.frequency_penalty),
        part is LogitBias ==> part == Check::<F>::LogitBias(&request.inner.logit_bias),
        part is TopLogprobs ==> part == Check::<F>::TopLogprobs(request.inner.top_logprobs),
        part is MaxCompletionTokens ==> part
            == Check::<F>::MaxCompletionTokens(request.inner.max_completion_tokens),
        part is N ==> part == Check::<F>::N(request.inner.n),
        part is PresencePenalty ==> part
            == Check::<F>::PresencePenalty(request.inner.presence_penalty),
        part is ServiceTier ==> part == Check::<F>::ServiceTier(&request.inner.service_tier),
        part is Stop ==> part == Check::<F>::Stop(&request.inner.stop),
        part is Temperature ==> part == Check::<F>::Temperature(request.inner.temperature),
        part is TopP ==> part == Check::<F>::TopP(request.inner.top_p),
        part is Tools ==> part == Check::<F>::Tools(&request.inner.tools),
        part is User ==> part == Check::<F>::User(&request.inner.user),
        part is RepetitionPenalty ==> part == Check::<F>::RepetitionPenalty(
            match request.common.repetition_penalty {
                Some(value) => Some(value),
                None => match request.nvext {
                    Some(nvext) => nvext.repetition_penalty,
                    None => None,
                },
            },
        ),
        part is MinP ==> part == Check::<F>::MinP(
            match request.common.min_p {
                Some(value) => Some(value),
                None => match request.nvext {
                    Some(nvext) => nvext.min_p,
                    None => None,
                },
            },
        ),
        part is TopK ==> part == Check::<F>::TopK(
            match request.common.top_k {
                Some(value) => Some(value),
                None => match request.nvext {
                    Some(nvext) => nvext.top_k,
                    None => None,
                },
            },
        ),
{
    let i = request.checks().index_of(part);
    assert(request.checks()[i] == part);
}

/// Every part of a request is checked, and none twice.
pub proof fn every_part_is_checked_once<F>(request: &NvCreateChatCompletionRequest<F>)
    ensures
        request.checks().len() == 19,
        request.checks().no_duplicates(),
        request.checks().contains(Check::Messages(&request.inner.messages)),
        request.checks().contains(Check::Model(&request.inner.model)),
        request.checks().contains(Check::ReasoningEffort(&request.inner.reasoning_effort)),
        request.checks().contains(Check::Metadata(&request.inner.metadata)),
        request.checks().contains(Check::FrequencyPenalty(request.inner.frequency_penalty)),
        request.checks().contains(Check::LogitBias(&request.inner.logit_bias)),
        request.checks().contains(Check::TopLogprobs(request.inner.top_logprobs)),
        request.checks().contains(Check::MaxCompletionTokens(request.inner.max_completion_tokens)),
        request.checks().contains(Check::N(request.inner.n)),
        request.checks().contains(Check::PresencePenalty(request.inner.presence_penalty)),
        request.checks().contains(Check::ServiceTier(&request.inner.service_tier)),
        request.checks().contains(Check::Stop(&request.inner.stop)),
        request.checks().contains(Check::Temperature(request.inner.temperature)),
        request.checks().contains(Check::TopP(request.inner.top_p)),
        request.checks().contains(Check::Tools(&request.inner.tools)),
        request.checks().contains(Check::User(&request.inner.user)),
        request.checks().contains(Check::RepetitionPenalty(request.repetition_penalty())),
        request.checks().contains(Check::MinP(request.min_p())),
        request.checks().contains(Check::TopK(request.top_k())),
{
    assert(request.checks()[0] is Messages);
    assert(request.checks()[1] is Model);
    assert(request.checks()[2] is ReasoningEffort);
    assert(request.checks()[3] is Metadata);
    assert(request.checks()[4] is FrequencyPenalty);
    assert(request.checks()[5] is LogitBias);
    assert(request.checks()[6] is TopLogprobs);
    assert(request.checks()[7] is MaxCompletionTokens);
    assert(request.checks()[8] is N);
    assert(request.checks()[9] is PresencePenalty);
    assert(request.checks()[10] is ServiceTier);
    assert(request.checks()[11] is Stop);
    assert(request.checks()[12] is Temperature);
    assert(request.checks()[13] is TopP);
    assert(request.checks()[14] is Tools);
    assert(request.checks()[15] is User);
    assert(request.checks()[16] is RepetitionPenalty);
    assert(request.checks()[17] is MinP);
    assert(request.checks()[18] is TopK);
}

/// The parts of a request are checked in this order, so that of several errors the
/// first is reported.
pub proof fn parts_are_checked_in_order<F>(request: &NvCreateChatCompletionRequest<F>)
    ensures
        request.checks()[0] is Messages,
        request.checks()[1] is Model,
        request.checks()[2] is ReasoningEffort,
        request.checks()[3] is Metadata,
        request.checks()[4] is FrequencyPenalty,
        request.checks()[5] is LogitBias,
        request.checks()[6] is TopLogprobs,
        request.checks()[7] is MaxCompletionTokens,
        request.checks()[8] is N,
        request.checks()[9] is PresencePenalty,
        request.checks()[10] is ServiceTier,
        request.checks()[11] is Stop,
        request.checks()[12] is Temperature,
        request.checks()[13] is TopP,
        request.checks()[14] is Tools,
        request.checks()[15] is User,
        request.checks()[16] is RepetitionPenalty,
        request.checks()[17] is MinP,
        request.checks()[18] is TopK,
{
}

/// A check passes a part where it may say so of it.
pub proof fn passing_is_what_the_check_says<'a, F, C, Error>(check: C, part: Check<'a, F>) where
    C: Fn(&Check<'_, F>) -> Result<(), Error>,

    ensures
        passes(check, part) <==> check.ensures((&part,), Ok(())),
{
}

/// Of two values the first counts, wherever there is one.
pub proof fn first_value_counts<T>(first: T, second: Option<T>)
    ensures
        effective(Some(first), second) == Some(first),
        effective(None, second) == second,
{
}

/// Without an extension the root alone counts.
pub proof fn root_counts_without_extension<F>(request: NvCreateChatCompletionRequest<F>)
    requires
        request.nvext is None,
    ensures
        request.guided_json() == request.common.guided_json,
        request.guided_regex() == request.common.guided_regex,
        request.guided_grammar() == request.common.guided_grammar,
        request.guided_choice() == request.common.guided_choice,
        request.guided_decoding_backend() == request.common.guided_decoding_backend,
        request.guided_whitespace_pattern() == request.common.guided_whitespace_pattern,
        request.top_k() == request.common.top_k,
        request.min_p() == request.common.min_p,
        request.repetition_penalty() == request.common.repetition_penalty,
        request.ignore_eos() == request.common.ignore_eos,
{
}

/// Options have the names of their fields.
pub proof fn options_have_their_names(option: SharedOption)
    ensures
        option is GuidedJson ==> option.name_text() == "guided_json"@,
        option is GuidedRegex ==> option.name_text() == "guided_regex"@,
        option is GuidedGrammar ==> option.name_text() == "guided_grammar"@,
        option is GuidedChoice ==> option.name_text() == "guided_choice"@,
        option is GuidedDecodingBackend ==> option.name_text() == "guided_decoding_backend"@,
        option is GuidedWhitespacePattern ==> option.name_text() == "guided_whitespace_pattern"@,
        option is TopK ==> option.name_text() == "top_k"@,
        option is MinP ==> option.name_text() == "min_p"@,
        option is RepetitionPenalty ==> option.name_text() == "repetition_penalty"@,
        option is IgnoreEos ==> option.name_text() == "ignore_eos"@,
{
}

/// An option is set where its own field is.
pub proof fn options_stand_in_their_fields<F>(
    option: SharedOption,
    common: CommonExt<F>,
    nvext: NvExt<F>,
)
    ensures
        option is GuidedJson ==> (common.sets(option) <==> common.guided_json is Some)
            && (nvext.sets(option)
            <==> nvext.guided_json is Some),
        option is GuidedRegex ==> (common.sets(option) <==> common.guided_regex is Some)
            && (nvext.sets(option)
            <==> nvext.guided_regex is Some),
        option is GuidedGrammar ==> (common.sets(option) <==> common.guided_grammar is Some)
            && (nvext.sets(option)
            <==> nvext.guided_grammar is Some),
        option is GuidedChoice ==> (common.sets(option) <==> common.guided_choice is Some)
            && (nvext.sets(option)
            <==> nvext.guided_choice is Some),
        option is GuidedDecodingBackend ==> (common.sets(option)
            <==> common.guided_decoding_backend is Some) && (nvext.sets(option)
            <==> nvext.guided_decoding_backend is Some),
        option is GuidedWhitespacePattern ==> (common.sets(option)
            <==> common.guided_whitespace_pattern is Some) && (nvext.sets(option)
            <==> nvext.guided_whitespace_pattern is Some),
        option is TopK ==> (common.sets(option) <==> common.top_k is Some) && (nvext.sets(option)
            <==> nvext.top_k is Some),
        option is MinP ==> (common.sets(option) <==> common.min_p is Some) && (nvext.sets(option)
            <==> nvext.min_p is Some),
        option is RepetitionPenalty ==> (common.sets(option)
            <==> common.repetition_penalty is Some) && (nvext.sets(option)
            <==> nvext.repetition_penalty is Some),
        option is IgnoreEos ==> (common.sets(option) <==> common.ignore_eos is Some)
            && (nvext.sets(option)
            <==> nvext.ignore_eos is Some),
{
}

/// What optional strings say: each what its string says, and nothing without one.
pub proof fn optional_texts_say_their_strings(text: Option<String>, list: Option<Vec<String>>)
    ensures
        text matches Some(s) ==> text_of(text) == Some(s@),
        text is None ==> text_of(text) is None,
        list is None ==> texts_of(list) is None,
        list matches Some(strings) ==> (texts_of(list) matches Some(said) && said.len()
            == strings@.len() && forall|i: int|
            0 <= i < said.len() ==> #[trigger] said[i] == strings@[i]@),
{
}

/// The annotations are those in the extension.
pub proof fn annotations_stand_in_the_extension<F>(request: NvCreateChatCompletionRequest<F>)
    ensures
        request.nvext is None ==> request.annotation_texts() is None,
        request.nvext matches Some(nvext) ==> {
            &&& nvext.annotations is None ==> request.annotation_texts() is None
            &&& nvext.annotations matches Some(list) ==> (
            request.annotation_texts() matches Some(said) && said.len() == list@.len() && forall|
                i: int,
            |
                0 <= i < said.len() ==> #[trigger] said[i] == list@[i]@)
        },
{
}

/// A request answers with its own texts: what stands at the root, and without it what
/// stands in the extension.
pub proof fn texts_of_a_request<F>(
    request: &NvCreateChatCompletionRequest<F>,
    text: Option<String>,
    list: Option<Vec<String>>,
    schema: Option<&serde_json::Value>,
)
    ensures
        NvCreateChatCompletionRequest::<F>::get_guided_regex.ensures((request,), text)
            ==> text_of(text) == text_of(match request.common.guided_regex {
            Some(value) => Some(value),
            None => match request.nvext {
                Some(nvext) => nvext.guided_regex,
                None => None,
            },
        }),
        NvCreateChatCompletionRequest::<F>::get_guided_grammar.ensures((request,), text)
            ==> text_of(text) == text_of(match request.common.guided_grammar {
            Some(value) => Some(value),
            None => match request.nvext {
                Some(nvext) => nvext.guided_grammar,
                None => None,
            },
        }),
        NvCreateChatCompletionRequest::<F>::get_guided_decoding_backend.ensures((request,), text)
            ==> text_of(text) == text_of(match request.common.guided_decoding_backend {
            Some(value) => Some(value),
            None => match request.nvext {
                Some(nvext) => nvext.guided_decoding_backend,
                None => None,
            },
        }),
        NvCreateChatCompletionRequest::<F>::get_guided_whitespace_pattern.ensures((request,), text)
            ==> text_of(text) == text_of(match request.common.guided_whitespace_pattern {
            Some(value) => Some(value),
            None => match request.nvext {
                Some(nvext) => nvext.guided_whitespace_pattern,
                None => None,
            },
        }),
        NvCreateChatCompletionRequest::<F>::get_guided_choice.ensures((request,), list)
            ==> texts_of(list) == texts_of(match request.common.guided_choice {
            Some(value) => Some(value),
            None => match request.nvext {
                Some(nvext) => nvext.guided_choice,
                None => None,
            },
        }),
        NvCreateChatCompletionRequest::<F>::get_guided_json.ensures((request,), schema)
            ==> match request.common.guided_json {
            Some(value) => schema == Some(&value),
            None => match request.nvext {
                Some(nvext) => match nvext.guided_json {
                    Some(value) => schema == Some(&value),
                    None => schema is None,
                },
                None => schema is None,
            },
        },
        NvCreateChatCompletionRequest::<F>::raw_prompt.ensures((request,), text) ==> text is None,
{
}

/// A request answers with its own numbers and flags.
pub proof fn numbers_of_a_request<F>(
    request: &NvCreateChatCompletionRequest<F>,
    top_k: Option<i32>,
    flag: Option<bool>,
    seed: Option<i64>,
    byte: Option<u8>,
    tokens: Option<u32>,
)
    ensures
        NvCreateChatCompletionRequest::<F>::get_top_k.ensures((request,), top_k) ==> top_k
            == match request.common.top_k {
            Some(value) => Some(value),
            None => match request.nvext {
                Some(nvext) => nvext.top_k,
                None => None,
            },
        },
        NvCreateChatCompletionRequest::<F>::get_ignore_eos.ensures((request,), flag) ==> flag
            == match request.common.ignore_eos {
            Some(value) => Some(value),
            None => match request.nvext {
                Some(nvext) => nvext.ignore_eos,
                None => None,
            },
        },
        NvCreateChatCompletionRequest::<F>::get_common_ignore_eos.ensures((request,), flag)
            ==> flag == request.common.ignore_eos,
        NvCreateChatCompletionRequest::<F>::get_include_stop_str_in_output.ensures((request,), flag) ==> flag
            == request.common.include_stop_str_in_output,
        NvCreateChatCompletionRequest::<F>::get_seed.ensures((request,), seed) ==> seed
            == request.inner.seed,
        NvCreateChatCompletionRequest::<F>::get_n.ensures((request,), byte) ==> byte
            == request.inner.n,
        NvCreateChatCompletionRequest::<F>::get_best_of.ensures((request,), byte) ==> byte is None,
        NvCreateChatCompletionRequest::<F>::get_min_tokens.ensures((request,), tokens) ==> tokens
            == request.common.min_tokens,
        NvCreateChatCompletionRequest::<F>::get_max_tokens.ensures((request,), tokens) ==> {
            &&& request.inner.max_completion_tokens is Some ==> tokens
                == request.inner.max_completion_tokens
            &&& request.inner.max_completion_tokens is None ==> tokens == request.inner.max_tokens
        },
        NvCreateChatCompletionRequest::<F>::get_logprobs.ensures((request,), tokens) ==> {
            &&& tokens is Some <==> request.inner.logprobs == Some(true)
            &&& tokens matches Some(n) ==> match request.inner.top_logprobs {
                Some(top) => n == top,
                None => n == 1,
            }
        },
        NvCreateChatCompletionRequest::<F>::get_prompt_logprobs.ensures((request,), tokens)
            ==> tokens is None,
        NvCreateChatCompletionRequest::<F>::get_skip_special_tokens.ensures((request,), flag)
            ==> flag is None,
        NvCreateChatCompletionRequest::<F>::get_formatted_prompt.ensures((request,), flag)
            ==> flag is None,
{
}

/// A request answers with its own fractional numbers.
pub proof fn fractions_of_a_request<F: Copy>(
    request: &NvCreateChatCompletionRequest<F>,
    r: Option<F>,
)
    ensures
        NvCreateChatCompletionRequest::<F>::get_temperature.ensures((request,), r) ==> r
            == request.inner.temperature,
        NvCreateChatCompletionRequest::<F>::get_top_p.ensures((request,), r) ==> r
            == request.inner.top_p,
        NvCreateChatCompletionRequest::<F>::get_frequency_penalty.ensures((request,), r) ==> r
            == request.inner.frequency_penalty,
        NvCreateChatCompletionRequest::<F>::get_presence_penalty.ensures((request,), r) ==> r
            == request.inner.presence_penalty,
        NvCreateChatCompletionRequest::<F>::get_min_p.ensures((request,), r) ==> r
            == match request.common.min_p {
            Some(value) => Some(value),
            None => match request.nvext {
                Some(nvext) => nvext.min_p,
                None => None,
            },
        },
        NvCreateChatCompletionRequest::<F>::get_repetition_penalty.ensures((request,), r) ==> r
            == match request.common.repetition_penalty {
            Some(value) => Some(value),
            None => match request.nvext {
                Some(nvext) => nvext.repetition_penalty,
                None => None,
            },
        },
{
}

/// The texts to stop at are those of the request: a single one as a list of one.
pub proof fn stops_of_a_request<F>(
    request: &NvCreateChatCompletionRequest<F>,
    r: Option<Vec<String>>,
)
    requires
        NvCreateChatCompletionRequest::<F>::get_stop.ensures((request,), r),
    ensures
        r is Some <==> request.inner.stop is Some,
        request.inner.stop matches Some(Stop::String(text)) ==> r->Some_0@.len() == 1
            && r->Some_0@[0]@ == text@,
        request.inner.stop matches Some(Stop::StringArray(list)) ==> r->Some_0@.len() == list@.len()
            && forall|i: int| 0 <= i < list@.len() ==> #[trigger] r->Some_0@[i]@ == list@[i]@,
{
    if let Some(given) = r {
        let said = texts(given@);
        assert(said.len() == given@.len());
        assert(forall|i: int| 0 <= i < given@.len() ==> #[trigger] given@[i]@ == said[i]);
        if let Some(Stop::StringArray(list)) = request.inner.stop {
            assert(texts(list@).len() == list@.len());
            assert forall|i: int| 0 <= i < list@.len() implies #[trigger] given@[i]@
                == list@[i]@ by {
                assert(said[i] == texts(list@)[i]);
            }
        }
    }
}

/// The annotations of a request are those in its extension, and it has one exactly where
/// it stands there.
pub proof fn annotations_of_a_request<F>(
    request: &NvCreateChatCompletionRequest<F>,
    annotation: &str,
    answer: bool,
    r: Option<Vec<String>>,
    extension: Option<&NvExt<F>>,
    common: Option<&CommonExt<F>>,
)
    ensures
        NvCreateChatCompletionRequest::<F>::has_annotation.ensures((request, annotation), answer)
            ==> (answer <==> (
        request.nvext matches Some(nvext) && nvext.annotations matches Some(list) && exists|i: int|
            0 <= i < list@.len() && #[trigger] list@[i]@ == annotation@)),
        NvCreateChatCompletionRequest::<F>::annotations.ensures((request,), r) ==> {
            &&& r is Some <==> (request.nvext matches Some(nvext) && nvext.annotations is Some)
            &&& r matches Some(given) ==> texts(given@) == texts(
                request.nvext->Some_0.annotations->Some_0@,
            )
        },
        NvCreateChatCompletionRequest::<F>::nvext.ensures((request,), extension) ==> {
            &&& extension is Some <==> request.nvext is Some
            &&& extension matches Some(e) ==> *e == request.nvext->Some_0
        },
        NvCreateChatCompletionRequest::<F>::common_ext.ensures((request,), common)
            ==> common is Some && *common->Some_0
            == request.common,
{
    if let Some(nvext) = request.nvext {
        if let Some(list) = nvext.annotations {
            let all = texts(list@);
            assert(forall|i: int| 0 <= i < list@.len() ==> #[trigger] list@[i]@ == all[i]);
            if all.contains(annotation@) {
                let i = all.index_of(annotation@);
                assert(list@[i]@ == annotation@);
            }
            if exists|i: int| 0 <= i < list@.len() && #[trigger] list@[i]@ == annotation@ {
                let i = choose|i: int| 0 <= i < list@.len() && #[trigger] list@[i]@ == annotation@;
                assert(all[i] == annotation@);
            }
        }
    }
}

/// A warning is due exactly where an option stands in the extension. It names the option,
/// and says whether the option stands at the root too.
pub proof fn warnings_of_a_request<F>(
    request: &NvCreateChatCompletionRequest<F>,
    option: SharedOption,
    r: Option<Deprecation>,
)
    requires
        NvCreateChatCompletionRequest::<F>::deprecation.ensures((request, option), r),
    ensures
        r is Some <==> (request.nvext matches Some(nvext) && nvext.sets(option)),
        r matches Some(warning) ==> warning.name@ == option.name_text(),
        r matches Some(warning) ==> (warning.overridden <==> request.common.sets(option)),
{
}

} // verus!
