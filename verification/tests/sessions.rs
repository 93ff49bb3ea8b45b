use nomi::llm::types::ContentBlock;
use nomi::routes::admin_dashboard::{agent_event_item, agent_events_limit, group_running_agents, AgentEventRow, RunningAgentRow};
use nomi::routes::sessions::{
    generated_title, last_message_preview, message_limit, messages_in_order, session_title, title_request,
    truncate_for_title, validate_message_text, validate_rating,
};
use nomi::routes::ApiError;
use nomi::time::UtcInstant;

fn t(secs: i64) -> UtcInstant {
    UtcInstant { secs, nanos: 0 }
}

#[test]
fn blank_messages_are_refused() {
    assert_eq!(
        validate_message_text(" \n\t"),
        Err(ApiError { status: 400, message: "text must not be empty".to_string() })
    );
    assert_eq!(validate_message_text(" hi "), Ok(()));
}

#[test]
fn messages_are_listed_oldest_first_with_their_sender() {
    let rows = vec![
        (3u128, None, "third".to_string(), t(30), None),
        (2u128, Some(9u128), "second".to_string(), t(20), Some("up".to_string())),
        (1u128, Some(9u128), "first".to_string(), t(10), None),
    ];
    let items = messages_in_order(rows);
    let ids: Vec<u128> = items.iter().map(|m| m.id).collect();
    assert_eq!(ids, vec![1, 2, 3]);
    assert_eq!(items[0].sender, "user");
    assert_eq!(items[2].sender, "assistant");
    assert_eq!(items[1].my_feedback.as_deref(), Some("up"));
}

#[test]
fn history_pages_hold_between_one_and_a_hundred_messages() {
    assert_eq!(message_limit(None), 50);
    assert_eq!(message_limit(Some(0)), 1);
    assert_eq!(message_limit(Some(500)), 100);
    assert_eq!(message_limit(Some(7)), 7);
    assert_eq!(agent_events_limit(None), 50);
    assert_eq!(agent_events_limit(Some(1000)), 200);
    assert_eq!(agent_events_limit(Some(-3)), 1);
}

#[test]
fn a_preview_needs_both_content_and_time() {
    assert!(last_message_preview(Some("hi".to_string()), Some(t(1))).is_some());
    assert!(last_message_preview(Some("hi".to_string()), None).is_none());
    assert!(last_message_preview(None, Some(t(1))).is_none());
}

#[test]
fn short_messages_become_their_own_title() {
    assert_eq!(truncate_for_title("  Plan my week  "), "Plan my week");
}

#[test]
fn long_messages_are_cut_at_a_word_boundary() {
    let message = "Please help me plan a two week trip through northern Italy with a focus on food and trains";
    let title = truncate_for_title(message);
    assert_eq!(title, "Please help me plan a two week trip through northern Italy\u{2026}");
    assert!(title.chars().count() <= 61);
}

#[test]
fn long_words_are_cut_at_sixty_characters() {
    let message = "x".repeat(80);
    assert_eq!(truncate_for_title(&message), format!("{}\u{2026}", "x".repeat(60)));
}

#[test]
fn the_models_title_is_trimmed_of_quotes() {
    let content = vec![
        ContentBlock::Thinking { text: "hmm".to_string(), signature: None },
        ContentBlock::Text { text: "  \"Trip to Italy\"\n".to_string() },
    ];
    assert_eq!(generated_title(&content).as_deref(), Some("Trip to Italy"));
    assert_eq!(generated_title(&vec![]), None);
}

#[test]
fn one_word_titles_fall_back_to_the_message() {
    assert_eq!(session_title(Some("Spicy".to_string()), "What should I cook tonight?").as_deref(), Some("What should I cook tonight?"));
    assert_eq!(session_title(Some("Dinner ideas".to_string()), "What should I cook?").as_deref(), Some("Dinner ideas"));
    assert_eq!(session_title(None, "   "), None);
}

#[test]
fn the_title_request_is_small_and_tool_free() {
    let r = title_request("Title this chat.".to_string(), "hello there");
    assert_eq!(r.system.as_deref(), Some("Title this chat."));
    assert_eq!(r.max_tokens, 32);
    assert!(r.tools.is_empty());
    assert!(!r.enable_reasoning);
    assert_eq!(r.messages[0].content, vec![ContentBlock::Text { text: "hello there".to_string() }]);
}

#[test]
fn ratings_are_up_or_down() {
    assert_eq!(validate_rating("up"), Ok(()));
    assert_eq!(validate_rating("down"), Ok(()));
    assert_eq!(
        validate_rating("meh"),
        Err(ApiError { status: 400, message: "rating must be 'up' or 'down'".to_string() })
    );
}

fn row(user: u128, email: Option<&str>, session: u128) -> RunningAgentRow {
    (
        user,
        email.map(|e| e.to_string()),
        "telegram".to_string(),
        "4242".to_string(),
        session,
        "money".to_string(),
        t(1),
        t(2),
        "thinking".to_string(),
        None,
    )
}

#[test]
fn running_agents_are_grouped_by_user() {
    let rows = vec![row(1, Some("a@b.c"), 10), row(1, Some("a@b.c"), 11), row(2, None, 12)];
    let groups = group_running_agents(&rows);
    assert_eq!(groups.len(), 2);
    assert_eq!(groups[0].label, "a@b.c");
    assert_eq!(groups[0].agents.len(), 2);
    assert_eq!(groups[0].agents[1].agent_session_id, 11);
    assert_eq!(groups[1].label, "telegram:4242");
    assert_eq!(groups[1].agents[0].agent_session_id, 12);
}

#[test]
fn a_listed_chat_previews_its_newest_message() {
    let item = nomi::routes::sessions::session_list_item((
        7,
        "web".to_string(),
        "dm".to_string(),
        "c-1".to_string(),
        Some("Trip".to_string()),
        Some("see you".to_string()),
        Some(t(5)),
        true,
        t(5),
        Some(9),
    ));
    assert_eq!(item.id, 7);
    assert_eq!(item.last_message.as_ref().map(|p| p.content.as_str()), Some("see you"));
    assert!(item.agent_active);
    assert_eq!(item.project_id, Some(9));
    let bare = nomi::routes::sessions::session_list_item((
        8,
        "web".to_string(),
        "dm".to_string(),
        "c-2".to_string(),
        None,
        None,
        None,
        false,
        t(1),
        None,
    ));
    assert!(bare.last_message.is_none());
}

#[test]
fn a_sent_message_is_listed_as_the_users() {
    let item = nomi::routes::sessions::sent_message_item(3, "hello".to_string(), t(4));
    assert_eq!(item.sender, "user");
    assert_eq!(item.content, "hello");
    assert_eq!(item.my_feedback, None);
}

#[test]
fn a_title_is_empty_only_for_a_blank_message_and_otherwise_a_trimmed_prefix() {
    assert_eq!(truncate_for_title("   "), "");
    assert_eq!(truncate_for_title(""), "");
    let message = "  Help me plan a birthday dinner for twelve people next Saturday evening downtown please  ";
    let title = truncate_for_title(message);
    assert!(title.ends_with('\u{2026}'));
    assert!(title.chars().count() <= 61);
    let body = title.trim_end_matches('\u{2026}');
    assert!(message.trim().starts_with(body));
    assert!(!body.ends_with(char::is_whitespace));
    assert_eq!(body, "Help me plan a birthday dinner for twelve people next");
}

fn event_row(agent_type: &str, dynamic_name: Option<&str>) -> AgentEventRow {
    (1, Some(2), None, Some(agent_type.to_string()), "tool_call".to_string(), t(100), Some("search".to_string()), Some(false), dynamic_name.map(|s| s.to_string()))
}

#[test]
fn events_show_a_dynamic_agents_own_name_before_a_builtin_name() {
    let item = agent_event_item(event_row("chitchat", None), Some("Nomi".to_string()));
    assert_eq!(item.agent_display_name.as_deref(), Some("Nomi"));
    assert_eq!(item.agent_type.as_deref(), Some("chitchat"));
    let item = agent_event_item(event_row("4b0c", Some("Weather Bot")), None);
    assert_eq!(item.agent_display_name.as_deref(), Some("Weather Bot"));
    assert_eq!(item.event_type, "tool_call");
    assert_eq!(item.tool_name.as_deref(), Some("search"));
    let item = agent_event_item(event_row("gone", None), None);
    assert_eq!(item.agent_display_name, None);
}
