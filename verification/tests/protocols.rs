use dynamo_serving::protocols::chat_completions::{
    Check, CommonExt, CreateChatCompletionRequest, NvCreateChatCompletionRequest, NvExt,
    SharedOption, Stop,
};
use std::collections::HashMap;

fn request() -> NvCreateChatCompletionRequest<f32> {
    NvCreateChatCompletionRequest {
        inner: CreateChatCompletionRequest {
            messages: vec![],
            model: "m".to_string(),
            reasoning_effort: None,
            metadata: None,
            frequency_penalty: None,
            logit_bias: None,
            logprobs: None,
            top_logprobs: None,
            max_tokens: None,
            max_completion_tokens: None,
            n: None,
            presence_penalty: None,
            seed: None,
            service_tier: None,
            stop: None,
            temperature: None,
            top_p: None,
            tools: None,
            user: None,
            other: HashMap::new(),
        },
        common: CommonExt {
            ignore_eos: None,
            min_tokens: None,
            top_k: None,
            min_p: None,
            repetition_penalty: None,
            include_stop_str_in_output: None,
            guided_json: None,
            guided_regex: None,
            guided_grammar: None,
            guided_choice: None,
            guided_decoding_backend: None,
            guided_whitespace_pattern: None,
        },
        nvext: None,
        chat_template_args: None,
    }
}

fn extension() -> NvExt<f32> {
    NvExt {
        ignore_eos: Some(true),
        top_k: Some(7),
        min_p: Some(0.25),
        repetition_penalty: Some(1.5),
        annotations: Some(vec!["a".to_string(), "b".to_string()]),
        guided_json: Some(serde_json::Value::Bool(true)),
        guided_regex: Some("r".to_string()),
        guided_grammar: Some("g".to_string()),
        guided_choice: Some(vec!["c".to_string()]),
        guided_decoding_backend: Some("d".to_string()),
        guided_whitespace_pattern: Some("w".to_string()),
    }
}

fn part(check: &Check<'_, f32>) -> &'static str {
    match check {
        Check::Messages(_) => "messages",
        Check::Model(_) => "model",
        Check::ReasoningEffort(_) => "reasoning_effort",
        Check::Metadata(_) => "metadata",
        Check::FrequencyPenalty(_) => "frequency_penalty",
        Check::LogitBias(_) => "logit_bias",
        Check::TopLogprobs(_) => "top_logprobs",
        Check::MaxCompletionTokens(_) => "max_completion_tokens",
        Check::N(_) => "n",
        Check::PresencePenalty(_) => "presence_penalty",
        Check::ServiceTier(_) => "service_tier",
        Check::Stop(_) => "stop",
        Check::Temperature(_) => "temperature",
        Check::TopP(_) => "top_p",
        Check::Tools(_) => "tools",
        Check::User(_) => "user",
        Check::RepetitionPenalty(_) => "repetition_penalty",
        Check::MinP(_) => "min_p",
        Check::TopK(_) => "top_k",
    }
}

#[test]
fn the_extension_counts_without_the_root() {
    let mut r = request();
    r.nvext = Some(extension());
    assert_eq!(r.get_ignore_eos(), Some(true));
    assert_eq!(r.get_common_ignore_eos(), None);
    assert_eq!(r.get_top_k(), Some(7));
    assert_eq!(r.get_min_p(), Some(0.25));
    assert_eq!(r.get_repetition_penalty(), Some(1.5));
    assert_eq!(r.get_guided_json(), Some(&serde_json::Value::Bool(true)));
    assert_eq!(r.get_guided_regex().as_deref(), Some("r"));
    assert_eq!(r.get_guided_grammar().as_deref(), Some("g"));
    assert_eq!(r.get_guided_choice(), Some(vec!["c".to_string()]));
    assert_eq!(r.get_guided_decoding_backend().as_deref(), Some("d"));
    assert_eq!(r.get_guided_whitespace_pattern().as_deref(), Some("w"));
}

#[test]
fn the_root_takes_precedence() {
    let mut r = request();
    r.nvext = Some(extension());
    r.common.ignore_eos = Some(false);
    r.common.top_k = Some(1);
    r.common.min_p = Some(0.5);
    r.common.repetition_penalty = Some(2.0);
    r.common.guided_json = Some(serde_json::Value::Null);
    r.common.guided_regex = Some("R".to_string());
    r.common.guided_grammar = Some("G".to_string());
    r.common.guided_choice = Some(vec![]);
    r.common.guided_decoding_backend = Some("D".to_string());
    r.common.guided_whitespace_pattern = Some("W".to_string());
    assert_eq!(r.get_ignore_eos(), Some(false));
    assert_eq!(r.get_common_ignore_eos(), Some(false));
    assert_eq!(r.get_top_k(), Some(1));
    assert_eq!(r.get_min_p(), Some(0.5));
    assert_eq!(r.get_repetition_penalty(), Some(2.0));
    assert_eq!(r.get_guided_json(), Some(&serde_json::Value::Null));
    assert_eq!(r.get_guided_regex().as_deref(), Some("R"));
    assert_eq!(r.get_guided_grammar().as_deref(), Some("G"));
    assert_eq!(r.get_guided_choice(), Some(vec![]));
    assert_eq!(r.get_guided_decoding_backend().as_deref(), Some("D"));
    assert_eq!(r.get_guided_whitespace_pattern().as_deref(), Some("W"));
}

#[test]
fn nothing_said_is_nothing() {
    let r = request();
    assert!(r.nvext().is_none());
    assert_eq!(r.get_ignore_eos(), None);
    assert_eq!(r.get_top_k(), None);
    assert_eq!(r.get_min_p(), None);
    assert_eq!(r.get_repetition_penalty(), None);
    assert_eq!(r.get_guided_json(), None);
    assert_eq!(r.get_guided_regex(), None);
    assert_eq!(r.get_guided_choice(), None);
    assert_eq!(r.get_stop(), None);
    assert_eq!(r.get_max_tokens(), None);
    assert_eq!(r.get_logprobs(), None);
    assert_eq!(r.annotations(), None);
    assert!(!r.has_annotation("a"));
}

#[test]
fn what_chat_completions_do_not_have() {
    let r = request();
    assert_eq!(r.raw_prompt(), None);
    assert_eq!(r.get_best_of(), None);
    assert_eq!(r.get_prompt_logprobs(), None);
    assert_eq!(r.get_skip_special_tokens(), None);
    assert_eq!(r.get_formatted_prompt(), None);
}

#[test]
fn annotations_are_read_from_the_extension() {
    let mut r = request();
    r.nvext = Some(extension());
    assert!(r.nvext().is_some());
    assert_eq!(
        r.annotations(),
        Some(vec!["a".to_string(), "b".to_string()])
    );
    assert!(r.has_annotation("b"));
    assert!(!r.has_annotation("c"));
}

#[test]
fn plain_options() {
    let mut r = request();
    r.inner.temperature = Some(0.5);
    r.inner.top_p = Some(0.75);
    r.inner.frequency_penalty = Some(-1.0);
    r.inner.presence_penalty = Some(1.0);
    r.inner.seed = Some(-3);
    r.inner.n = Some(2);
    r.common.min_tokens = Some(4);
    r.common.include_stop_str_in_output = Some(true);
    assert_eq!(r.get_temperature(), Some(0.5));
    assert_eq!(r.get_top_p(), Some(0.75));
    assert_eq!(r.get_frequency_penalty(), Some(-1.0));
    assert_eq!(r.get_presence_penalty(), Some(1.0));
    assert_eq!(r.get_seed(), Some(-3));
    assert_eq!(r.get_n(), Some(2));
    assert_eq!(r.get_min_tokens(), Some(4));
    assert_eq!(r.get_include_stop_str_in_output(), Some(true));
    assert_eq!(r.common_ext().unwrap().min_tokens, Some(4));
}

#[test]
fn the_newer_name_of_the_token_limit_counts() {
    let mut r = request();
    r.inner.max_tokens = Some(10);
    assert_eq!(r.get_max_tokens(), Some(10));
    r.inner.max_completion_tokens = Some(20);
    assert_eq!(r.get_max_tokens(), Some(20));
}

#[test]
fn stops_are_lists() {
    let mut r = request();
    r.inner.stop = Some(Stop::String("x".to_string()));
    assert_eq!(r.get_stop(), Some(vec!["x".to_string()]));
    r.inner.stop = Some(Stop::StringArray(vec![
        "y".to_string(),
        "z".to_string(),
    ]));
    assert_eq!(r.get_stop(), Some(vec!["y".to_string(), "z".to_string()]));
}

#[test]
fn logprobs_are_given_on_request() {
    let mut r = request();
    r.inner.top_logprobs = Some(5);
    assert_eq!(r.get_logprobs(), None);
    r.inner.logprobs = Some(false);
    assert_eq!(r.get_logprobs(), None);
    r.inner.logprobs = Some(true);
    assert_eq!(r.get_logprobs(), Some(5));
    r.inner.top_logprobs = None;
    assert_eq!(r.get_logprobs(), Some(1));
}

#[test]
fn every_part_is_checked_in_order() {
    let parts = std::cell::RefCell::new(vec![]);
    let outcome: Result<(), String> = request().validate(|check| {
        parts.borrow_mut().push(part(check));
        Ok(())
    });
    assert_eq!(outcome, Ok(()));
    assert_eq!(
        parts.into_inner(),
        vec![
            "messages",
            "model",
            "reasoning_effort",
            "metadata",
            "frequency_penalty",
            "logit_bias",
            "top_logprobs",
            "max_completion_tokens",
            "n",
            "presence_penalty",
            "service_tier",
            "stop",
            "temperature",
            "top_p",
            "tools",
            "user",
            "repetition_penalty",
            "min_p",
            "top_k"
        ]
    );
}

#[test]
fn the_first_failing_check_is_reported() {
    let seen = std::cell::RefCell::new(0);
    let outcome = request().validate(|check| {
        *seen.borrow_mut() += 1;
        match part(check) {
            "stop" | "n" | "top_k" => Err(part(check)),
            _ => Ok(()),
        }
    });
    assert_eq!(outcome, Err("n"));
    assert_eq!(seen.into_inner(), 9);
}

#[test]
fn values_that_count_are_checked() {
    let mut r = request();
    r.nvext = Some(extension());
    r.common.top_k = Some(3);
    r.inner.user = Some("u".to_string());
    let seen = std::cell::RefCell::new(vec![]);
    let outcome: Result<(), ()> = r.validate(|check| {
        match check {
            Check::Model(model) => seen.borrow_mut().push(model.to_string()),
            Check::User(Some(user)) => seen.borrow_mut().push(user.to_string()),
            Check::TopK(Some(top_k)) => seen.borrow_mut().push(format!("k{top_k}")),
            Check::MinP(Some(min_p)) => seen.borrow_mut().push(format!("p{min_p}")),
            _ => {}
        }
        Ok(())
    });
    assert!(outcome.is_ok());
    assert_eq!(seen.into_inner(), vec!["m", "u", "p0.25", "k3"]);
}

#[test]
fn parts_are_checked_as_they_came() {
    let text = |s: &str| serde_json::Value::String(s.to_string());
    let mut r = request();
    r.inner.messages = vec![text("hello")];
    r.inner.reasoning_effort = Some(text("low"));
    r.inner.metadata = Some(text("meta"));
    r.inner.logit_bias = Some(HashMap::from([("t".to_string(), text("bias"))]));
    r.inner.service_tier = Some(text("auto"));
    r.inner.tools = Some(vec![text("tool")]);
    let seen = std::cell::RefCell::new(vec![]);
    let outcome: Result<(), ()> = r.validate(|check| {
        let value = match check {
            Check::Messages(messages) => Some(messages[0].clone()),
            Check::ReasoningEffort(Some(value)) => Some(value.clone()),
            Check::Metadata(Some(value)) => Some(value.clone()),
            Check::LogitBias(Some(bias)) => Some(bias["t"].clone()),
            Check::ServiceTier(Some(value)) => Some(value.clone()),
            Check::Tools(Some(tools)) => Some(tools[0].clone()),
            _ => None,
        };
        seen.borrow_mut().extend(value);
        Ok(())
    });
    assert!(outcome.is_ok());
    let expected: Vec<_> = ["hello", "low", "meta", "bias", "auto", "tool"]
        .iter()
        .map(|s| text(s))
        .collect();
    assert_eq!(seen.into_inner(), expected);
}

#[test]
fn warnings_are_due_for_the_extension() {
    let options = [
        (SharedOption::GuidedJson, "guided_json"),
        (SharedOption::GuidedRegex, "guided_regex"),
        (SharedOption::GuidedGrammar, "guided_grammar"),
        (SharedOption::GuidedChoice, "guided_choice"),
        (SharedOption::GuidedDecodingBackend, "guided_decoding_backend"),
        (SharedOption::GuidedWhitespacePattern, "guided_whitespace_pattern"),
        (SharedOption::TopK, "top_k"),
        (SharedOption::MinP, "min_p"),
        (SharedOption::RepetitionPenalty, "repetition_penalty"),
        (SharedOption::IgnoreEos, "ignore_eos"),
    ];
    let mut r = request();
    for (option, _) in options {
        assert!(r.deprecation(option).is_none());
    }
    r.nvext = Some(extension());
    r.common.top_k = Some(1);
    for (option, name) in options {
        let warning = r.deprecation(option).unwrap();
        assert_eq!(warning.name, name);
        assert_eq!(warning.overridden, option == SharedOption::TopK);
    }
    r.nvext.as_mut().unwrap().min_p = None;
    assert!(r.deprecation(SharedOption::MinP).is_none());
}
