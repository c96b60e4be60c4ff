use chat_splitter::ChatMessage;
use chat_splitter::ChatSplitter;
use chat_splitter::Role;
use chat_splitter::SplitError;

fn user_message(text: &str) -> ChatMessage {
    ChatMessage { role: Role::User, content: Some(text.to_string()), name: None, function_call: None }
}

fn assistant_message(text: &str) -> ChatMessage {
    ChatMessage {
        role: Role::Assistant,
        content: Some(text.to_string()),
        name: None,
        function_call: None,
    }
}

/// A long alternating conversation, as a caller would accumulate it.
fn alternating_conversation(rounds: usize) -> Vec<ChatMessage> {
    let mut messages = Vec::new();
    for i in 0..rounds {
        if i % 2 == 0 {
            messages.push(user_message("What is the answer?"));
        } else {
            messages.push(assistant_message("Let me think about that."));
        }
    }
    messages
}

fn to_tiktoken(m: &ChatMessage) -> tiktoken_rs::ChatCompletionRequestMessage {
    tiktoken_rs::ChatCompletionRequestMessage {
        role: m.role.label().to_string(),
        content: m.content.clone(),
        name: m.name.clone(),
        function_call: None,
    }
}

fn remaining_budget(model: &str, messages: &[ChatMessage]) -> usize {
    let converted: Vec<_> = messages.iter().map(to_tiktoken).collect();
    tiktoken_rs::get_chat_completion_max_tokens(model, &converted).unwrap()
}

#[test]
fn it_works() {
    let messages: Vec<ChatMessage> = Vec::new();
    let empty: &[ChatMessage] = &[];

    assert_eq!(ChatSplitter::default().split(&messages).unwrap().0, empty);
    assert_eq!(ChatSplitter::default().split(&messages).unwrap().1, empty);
}

#[test]
fn concatenation_reconstructs_the_log() {
    let messages = alternating_conversation(100);
    let splitter = ChatSplitter::new("gpt-3.5-turbo").max_messages(8);

    let (outdated, recent) = splitter.split(&messages).unwrap();
    let mut rejoined: Vec<ChatMessage> = outdated.to_vec();
    rejoined.extend(recent.iter().cloned());
    assert_eq!(rejoined, messages);
}

#[test]
fn long_conversation_is_cut_to_max_messages() {
    let messages = alternating_conversation(4000);
    let splitter = ChatSplitter::new("gpt-3.5-turbo").max_messages(16usize);

    let (outdated, recent) = splitter.split(&messages).unwrap();
    assert_eq!(recent.len(), 16);
    assert_eq!(outdated.len(), 4000 - 16);
    assert_eq!(outdated, &messages[..3984]);
    assert_eq!(recent, &messages[3984..]);

    // The selected window also leaves the reservation available: the
    // default reservation is half the model's context size.
    assert!(remaining_budget("gpt-3.5-turbo", recent) >= 16385 / 2);
}

#[test]
fn splitting_recent_again_moves_nothing() {
    let messages = alternating_conversation(1000);
    let splitter = ChatSplitter::new("gpt-3.5-turbo").max_messages(12usize);

    let (_, recent) = splitter.split(&messages).unwrap();
    let (outdated_again, recent_again) = splitter.split(recent).unwrap();
    assert!(outdated_again.is_empty());
    assert_eq!(recent_again, recent);
}

#[test]
fn single_oversized_message_is_kept() {
    // One message whose own token cost exceeds the available budget: it is
    // still returned as the whole recent window, never an empty window.
    let messages = vec![user_message(&"hello ".repeat(10000))];
    let splitter = ChatSplitter::new("gpt-3.5-turbo");

    let (outdated, recent) = splitter.split(&messages).unwrap();
    assert!(outdated.is_empty());
    assert_eq!(recent.len(), 1);

    // The token-budget guarantee is unmet, observable by re-estimating.
    assert!(remaining_budget("gpt-3.5-turbo", recent) < 16385 / 2);
}

#[test]
fn text_limit_gate_accepts_ordinary_logs() {
    let messages = alternating_conversation(50);
    assert!(chat_splitter::messages_within_limit(&messages));

    let empty: Vec<ChatMessage> = Vec::new();
    assert!(chat_splitter::messages_within_limit(&empty));
}

#[test]
fn text_limit_gate_rejects_oversized_texts() {
    let oversized = "a".repeat(chat_splitter::MAX_TEXT_LEN + 1);

    let mut messages = alternating_conversation(3);
    messages.push(user_message(&oversized));
    assert!(!chat_splitter::messages_within_limit(&messages));

    let named = vec![ChatMessage {
        role: Role::Function,
        content: Some("done".to_string()),
        name: Some(oversized),
        function_call: None,
    }];
    assert!(!chat_splitter::messages_within_limit(&named));
}

#[test]
fn unknown_model_is_reported() {
    let messages = vec![user_message("hello")];
    let splitter = ChatSplitter::new("gpt-3.5-turbo").model("not-a-real-model");

    assert_eq!(splitter.split(&messages), Err(SplitError::UnsupportedModel));
}

#[test]
fn unknown_model_with_empty_log_splits_trivially() {
    // With nothing to cost, no estimator call is made and nothing can fail.
    let messages: Vec<ChatMessage> = Vec::new();
    let splitter = ChatSplitter::new("gpt-3.5-turbo").model("not-a-real-model");

    let (outdated, recent) = splitter.split(&messages).unwrap();
    assert!(outdated.is_empty());
    assert!(recent.is_empty());
}

#[test]
fn max_tokens_above_context_size_is_clamped() {
    // A reservation larger than the whole context can never be met, so the
    // window shrinks to the single most recent message.
    let messages = alternating_conversation(10);
    let splitter = ChatSplitter::new("gpt-3.5-turbo").max_tokens(u16::MAX);

    let (outdated, recent) = splitter.split(&messages).unwrap();
    assert_eq!(recent.len(), 1);
    assert_eq!(outdated.len(), 9);
}

#[test]
fn max_messages_zero_gives_empty_window() {
    let messages = alternating_conversation(10);
    let splitter = ChatSplitter::new("gpt-3.5-turbo").max_messages(0usize);

    let (outdated, recent) = splitter.split(&messages).unwrap();
    assert_eq!(outdated.len(), 10);
    assert!(recent.is_empty());
}

#[test]
fn context_size_drives_the_default_reservation() {
    // Two messages of roughly 3000 tokens each.  For gpt-4 (8192 context,
    // 4096 reserved by default) only one fits; for gpt-4-32k (32768
    // context, 16384 reserved) both fit.
    let messages = vec![
        user_message(&"hello ".repeat(3000)),
        assistant_message(&"hello ".repeat(3000)),
    ];

    let (_, recent_small) = ChatSplitter::new("gpt-4").split(&messages).unwrap();
    assert_eq!(recent_small.len(), 1);

    let (_, recent_large) = ChatSplitter::new("gpt-4-32k").split(&messages).unwrap();
    assert_eq!(recent_large.len(), 2);
}

#[test]
fn boundary_is_the_smallest_fitting_index() {
    // Several mid-sized messages: the recent window must both fit the
    // reservation and be as long as the budget allows.
    let messages: Vec<ChatMessage> =
        (0..8).map(|_| user_message(&"hello ".repeat(1100))).collect();
    let splitter = ChatSplitter::new("gpt-3.5-turbo");

    let (outdated, recent) = splitter.split(&messages).unwrap();
    assert!(!recent.is_empty());
    // The returned window fits...
    assert!(remaining_budget("gpt-3.5-turbo", recent) >= 16385 / 2);
    // ...and a window one message longer would not.
    if !outdated.is_empty() {
        assert!(remaining_budget("gpt-3.5-turbo", &messages[outdated.len() - 1..]) < 16385 / 2);
    }
}
