use kit::ai::{
    append_context, build_options, get_system_prompt_message, get_user_prompt_message,
    is_regenerate_option, merge_suggestions, regeneration_exhausted, regenerate_option,
    MAX_CONTEXT_LEN, MAX_REGENERATIONS, NUM_SUGGESTIONS,
};

#[test]
fn prompt_messages_carry_their_roles() {
    let sys = get_system_prompt_message();
    assert_eq!(sys.role, "system");
    assert!(sys.content.contains("Conventional Commits"));
    let user = get_user_prompt_message("fix stuff");
    assert_eq!(user.role, "user");
    assert_eq!(user.content, "fix stuff");
}

#[test]
fn merging_drops_failures_and_repeats() {
    let results = vec![
        Some(String::from("feat: a")),
        None,
        Some(String::from("fix: b")),
        Some(String::from("feat: a")),
    ];
    let merged = merge_suggestions(&results);
    assert_eq!(merged, vec![String::from("feat: a"), String::from("fix: b")]);
}

#[test]
fn merging_nothing_yields_nothing() {
    let results: Vec<Option<String>> = vec![None, None, None];
    assert!(merge_suggestions(&results).is_empty());
}

#[test]
fn the_choice_list_ends_with_the_regenerate_entry() {
    let suggestions = vec![String::from("one"), String::from("two")];
    let options = build_options(&suggestions);
    assert_eq!(options.len(), 3);
    assert_eq!(options[0], "one");
    assert_eq!(options[1], "two");
    assert!(is_regenerate_option(&options[2]));
    assert!(!is_regenerate_option("one"));
    assert_eq!(options[2], regenerate_option());
}

#[test]
fn context_joins_with_a_comma() {
    assert_eq!(append_context("fix parser", "handle tabs").unwrap(), "fix parser, handle tabs");
    assert!(append_context("fix parser", "").is_none());
}

#[test]
fn context_respects_the_length_cap() {
    let current = "a".repeat(400);
    let fits = "b".repeat(MAX_CONTEXT_LEN - 400 - 2);
    let joined = append_context(&current, &fits).unwrap();
    assert_eq!(joined.len(), MAX_CONTEXT_LEN);
    let too_much = "b".repeat(MAX_CONTEXT_LEN - 400 - 1);
    assert!(append_context(&current, &too_much).is_none());
}

#[test]
fn the_regenerate_budget_is_three_rounds() {
    assert_eq!(MAX_REGENERATIONS, 3);
    assert_eq!(NUM_SUGGESTIONS, 3);
    assert!(!regeneration_exhausted(0));
    assert!(!regeneration_exhausted(2));
    assert!(regeneration_exhausted(3));
    assert!(regeneration_exhausted(4));
}

#[test]
fn chat_response_yields_the_first_choice_text() {
    let body = "{\"id\":\"x\",\"choices\":[{\"index\":0,\"message\":{\"role\":\"assistant\",\
                \"content\":\"  feat: add parser \\n\"}},{\"index\":1,\"message\":\
                {\"content\":\"other\"}}],\"usage\":{\"total_tokens\":12}}";
    assert_eq!(kit::ai::parse_chat_content(body).unwrap(), "feat: add parser");
}

#[test]
fn chat_response_without_a_usable_choice_yields_nothing() {
    assert!(kit::ai::parse_chat_content("{\"choices\":[]}").is_none());
    assert!(kit::ai::parse_chat_content("{\"choices\":\"no\"}").is_none());
    assert!(kit::ai::parse_chat_content("{}").is_none());
    assert!(kit::ai::parse_chat_content("not json").is_none());
    assert!(kit::ai::parse_chat_content("{\"choices\":[{\"message\":{}}]}").is_none());
    assert!(kit::ai::parse_chat_content("{\"choices\":[{\"message\":null}]}").is_none());
}
