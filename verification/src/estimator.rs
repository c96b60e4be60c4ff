//! The external cost estimator.
//!
//! The only way to know how many tokens a window of messages consumes is to
//! ask the tokenizer, so the calls into `tiktoken_rs` live here, behind
//! contracts.  The estimated budget of a window is a fixed (if unstated)
//! function of the model identifier and the window's contents; the contracts
//! name that function and record the one structural fact the boundary search
//! needs: dropping messages from the front of a window never shrinks its
//! remaining budget.
//!
//! The tokenizer engine has hard limits of its own — a capped backtracking
//! regex and a 32-bit token count — so the wrappers also carry preconditions
//! that keep every call clear of them, together with an executable check
//! ([`messages_within_limit`]) with which callers establish the text bound.

use vstd::prelude::*;
use vstd::slice::slice_index_get;
use vstd::string::StrSliceExecFns;

use crate::message::ChatMessage;
use crate::message::MessageView;
use crate::message::views_of;

verus! {

/// The context size (in tokens) that the tokenizer tables associate with a
/// model identifier.
pub uninterp spec fn context_size_of(model: Seq<char>) -> nat;

/// Whether the tokenizer tables resolve a model identifier to a supported
/// chat tokenizer.
pub uninterp spec fn chat_model_known(model: Seq<char>) -> bool;

/// The number of tokens left for a completion if exactly `messages` were
/// sent as the prompt of `model`: the model's context size minus the
/// prompt's token cost, saturating at zero.
pub uninterp spec fn remaining_budget_of(model: Seq<char>, messages: Seq<MessageView>) -> nat;

/// Ceiling on the length, in characters, of one text field handed to the
/// tokenizer.
///
/// The tokenizer's regex engine runs with backtracking caps of one million
/// stack entries and one million backtrack steps; a single text approaching
/// a million characters (a megabyte-long whitespace run, for instance) can
/// push it past those caps, a failure `tiktoken_rs` does not recover from.
/// Texts below this bound stay comfortably clear of the caps.
pub const MAX_TEXT_LEN: usize = 100000;

/// Ceiling on how many messages one estimator call may cost at a time.
///
/// The completion service itself never accepts a window of more than 2048
/// messages, so no window the splitter costs is larger.  The bound also
/// keeps the tokenizer's 32-bit token accumulator clear of overflow: a
/// message whose texts respect [`MAX_TEXT_LEN`] costs well under a million
/// tokens, and 2048 of those stay below two billion.
pub const MAX_WINDOW_MESSAGES: usize = 2048;

/// Whether one message's text fields stay within the tokenizer engine's
/// limit.
pub open spec fn message_text_within_limit(m: MessageView) -> bool {
    &&& (match m.content {
        Some(c) => c.len() <= MAX_TEXT_LEN,
        None => true,
    })
    &&& (match m.name {
        Some(n) => n.len() <= MAX_TEXT_LEN,
        None => true,
    })
}

/// Whether every message's text fields stay within the tokenizer engine's
/// limit.
pub open spec fn texts_within_limit(vm: Seq<MessageView>) -> bool {
    forall|i: int| 0 <= i < vm.len() ==> message_text_within_limit(vm[i])
}

/// Check that every message's text fields stay within the tokenizer
/// engine's limit: a caller holding an arbitrary log establishes the
/// precondition of a split with this.
pub fn messages_within_limit(messages: &[ChatMessage]) -> (r: bool)
    ensures
        r == texts_within_limit(views_of(messages@)),
{
    let mut i: usize = 0;
    while i < messages.len()
        invariant
            i <= messages@.len(),
            forall|k: int|
                0 <= k < i ==> message_text_within_limit(#[trigger] views_of(messages@)[k]),
        decreases messages@.len() - i,
    {
        let m = slice_index_get(messages, i);
        let content_ok = match &m.content {
            Some(c) => c.as_str().unicode_len() <= MAX_TEXT_LEN,
            None => true,
        };
        let name_ok = match &m.name {
            Some(n) => n.as_str().unicode_len() <= MAX_TEXT_LEN,
            None => true,
        };
        if !content_ok || !name_ok {
            assert(!message_text_within_limit(views_of(messages@)[i as int]));
            return false;
        }
        assert(message_text_within_limit(views_of(messages@)[i as int]));
        i = i + 1;
    }
    true
}

#[verifier::external_type_specification]
#[verifier::external_body]
pub struct ExAnyhowError(anyhow::Error);

/// Relies on `tiktoken_rs::model::get_context_size`: a pure lookup mapping a
/// model identifier prefix to its fixed context size.  Every arm of the
/// lookup returns a constant between 2048 and 128000 (unknown identifiers
/// get a 4096 default), so the result depends on the identifier alone and
/// lies in that range.
#[verifier::external_body]
pub(crate) fn context_size(model: &str) -> (r: usize)
    ensures
        r == context_size_of(model@),
        2048 <= r <= 128000,
{
    tiktoken_rs::model::get_context_size(model)
}

/// Relies on `tiktoken_rs::get_chat_completion_max_tokens`: it fails exactly
/// when the model identifier does not resolve to a supported chat tokenizer,
/// which is a property of the identifier alone; on success it returns the
/// model's context size minus the prompt's token count, saturating at zero.
/// The prompt cost is a 3-token reply-priming constant plus a per-message
/// cost that depends only on the model and the message.  Each message's
/// cost is non-negative, so a window loses no budget when messages are
/// dropped from its front: the budget is monotone over the suffixes of
/// `messages`.  And since the priming constant is always paid, the budget
/// stays at least 3 tokens below the model's context size.
///
/// The `requires` bounds keep the call inside the engine's own limits: a
/// text field far longer than [`MAX_TEXT_LEN`] can drive the tokenizer's
/// backtracking regex past its million-entry caps, and a window far larger
/// than [`MAX_WINDOW_MESSAGES`] of maximal messages could overflow its
/// 32-bit token count; within the bounds the call returns normally.
#[verifier::external_body]
pub(crate) fn remaining_budget(
    model: &str,
    messages: &[ChatMessage],
    from: usize,
) -> (r: Result<usize, anyhow::Error>)
    requires
        from <= messages@.len(),
        messages@.len() <= MAX_WINDOW_MESSAGES,
        texts_within_limit(views_of(messages@)),
    ensures
        r is Ok <==> chat_model_known(model@),
        r is Ok ==> r->Ok_0 == remaining_budget_of(
            model@,
            views_of(messages@).skip(from as int),
        ),
        r is Ok ==> r->Ok_0 + 3 <= context_size_of(model@),
        r is Ok ==> forall|i: int, j: int|
            0 <= i <= j <= messages@.len() ==> #[trigger] remaining_budget_of(
                model@,
                views_of(messages@).skip(i),
            ) <= #[trigger] remaining_budget_of(model@, views_of(messages@).skip(j)),
{
    let window: Vec<tiktoken_rs::ChatCompletionRequestMessage> = messages[from..]
        .iter()
        .map(|m| tiktoken_rs::ChatCompletionRequestMessage {
            role: m.role.label().to_owned(),
            content: m.content.clone(),
            name: m.name.clone(),
            function_call: m.function_call.as_ref().map(|f| tiktoken_rs::FunctionCall {
                name: f.name.clone(),
                arguments: f.arguments.clone(),
            }),
        })
        .collect();
    tiktoken_rs::get_chat_completion_max_tokens(model, &window)
}

} // verus!
