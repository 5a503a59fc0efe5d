use refactor_radar::sampling::{
    assistant_text, brief_user_prompt, sampling_plan, supports_sampling, BriefLlmRequest,
    PeerSampling, SampledContent, SampledReply,
};

#[test]
fn prompt_places_evidence_after_instructions() {
    let prompt = brief_user_prompt("{\"symbol\":\"demo\"}");

    assert!(prompt.starts_with("Return only a JSON object matching this schema:\n  {\"summary\":\"string\""));
    assert!(prompt.contains("\n\n  Use only this evidence packet. Unsupported facts must go in unknowns.\n\n"));
    assert!(prompt.ends_with("  Evidence packet:\n  {\"symbol\":\"demo\"}"));
    assert!(!prompt.contains("{evidence_json}"));
}

#[test]
fn assistant_reply_yields_first_text_block() {
    let reply = SampledReply {
        from_assistant: true,
        content: vec![
            SampledContent::Other,
            SampledContent::Text("{\"summary\":\"first\"}".to_owned()),
            SampledContent::Text("second".to_owned()),
        ],
    };

    assert_eq!(Some("{\"summary\":\"first\"}"), assistant_text(&reply));
}

#[test]
fn user_reply_or_reply_without_text_yields_nothing() {
    let user = SampledReply {
        from_assistant: false,
        content: vec![SampledContent::Text("hello".to_owned())],
    };
    let silent = SampledReply { from_assistant: true, content: vec![SampledContent::Other] };

    assert_eq!(None, assistant_text(&user));
    assert_eq!(None, assistant_text(&silent));
}

#[test]
fn sampling_needs_a_known_client_declaring_it() {
    assert!(!supports_sampling(None));
    assert!(!supports_sampling(Some(PeerSampling { declares_sampling: false, task_sampling: None })));
    assert!(!supports_sampling(Some(PeerSampling { declares_sampling: false, task_sampling: Some(false) })));
    assert!(supports_sampling(Some(PeerSampling { declares_sampling: false, task_sampling: Some(true) })));
    assert!(supports_sampling(Some(PeerSampling { declares_sampling: true, task_sampling: None })));
}

#[test]
fn sampling_plan_carries_request_parts() {
    let request = BriefLlmRequest {
        model_hint: Some("test-brief-model".to_owned()),
        instructions: "Summarise using only evidence_packet facts.".to_owned(),
        evidence_packet: "{}".to_owned(),
        max_tokens: 500,
    };

    let plan = sampling_plan(request);

    assert!(plan.user_prompt.ends_with("Evidence packet:\n  {}"));
    assert_eq!("Summarise using only evidence_packet facts.", plan.system_prompt);
    assert_eq!(500, plan.max_tokens);
    assert_eq!(Some("test-brief-model".to_owned()), plan.model_hint);
}
