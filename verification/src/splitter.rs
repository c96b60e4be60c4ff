//! The window policy and the boundary search.
//!
//! A [`ChatSplitter`] holds the configuration of one split: the model whose
//! tokenizer and context size apply, the token reservation the completion
//! must keep, and a cap on the number of messages in a window.  Splitting
//! first applies the count cap (pure, no estimator calls), then narrows the
//! remaining suffix with a binary search over the estimator's monotone
//! remaining-budget function.

use vstd::prelude::*;
use vstd::pervasive::unreached;
use vstd::slice::slice_subrange;

use crate::estimator::chat_model_known;
use crate::estimator::context_size;
use crate::estimator::context_size_of;
use crate::estimator::remaining_budget;
use crate::estimator::remaining_budget_of;
use crate::estimator::message_text_within_limit;
use crate::estimator::texts_within_limit;
use crate::estimator::MAX_WINDOW_MESSAGES;
use crate::message::ChatMessage;
use crate::message::MessageView;
use crate::message::views_of;

verus! {

/// Hard ceiling on the number of messages in a window, imposed by the
/// completion service independently of any configuration.
pub const MAX_MESSAGES_LIMIT: usize = 2048;

/// Recommended floor for the completion-token reservation; a smaller
/// reservation is accepted, but leaves little room for a useful reply.
pub const RECOMMENDED_MIN_MAX_TOKENS: u16 = 256;

/// The failure of a split call.
#[derive(Clone, Copy, Debug, PartialEq, Eq, Structural)]
pub enum SplitError {
    /// The configured model resolves to no known chat tokenizer, so no
    /// window can be costed.  Retrying cannot change the outcome.
    UnsupportedModel,
}

/// The mathematical value of a [`ChatSplitter`].
pub ghost struct ChatSplitterView {
    pub model: Seq<char>,
    pub max_tokens: u16,
    pub max_messages: usize,
}

/// Splits a conversation log into `outdated` and `recent` messages, so that
/// the `recent` window fits both the message cap and the token budget.
#[derive(Clone, Debug)]
pub struct ChatSplitter {
    /// The model whose tokenizer and context size apply.
    model: String,
    /// The number of tokens to leave available for the completion.
    max_tokens: u16,
    /// The maximum number of messages in a window.
    max_messages: usize,
}

impl View for ChatSplitter {
    type V = ChatSplitterView;

    closed spec fn view(&self) -> ChatSplitterView {
        ChatSplitterView {
            model: self.model@,
            max_tokens: self.max_tokens,
            max_messages: self.max_messages,
        }
    }
}

/// The message cap actually enforced: the configured cap, clamped by the
/// absolute ceiling.
pub open spec fn effective_max_messages(p: ChatSplitterView) -> int {
    if p.max_messages <= MAX_MESSAGES_LIMIT {
        p.max_messages as int
    } else {
        MAX_MESSAGES_LIMIT as int
    }
}

/// The token reservation actually enforced: the configured reservation,
/// clamped by the model's context size.
pub open spec fn token_limit(p: ChatSplitterView) -> int {
    if p.max_tokens as int <= context_size_of(p.model) {
        p.max_tokens as int
    } else {
        context_size_of(p.model) as int
    }
}

/// The boundary the count prefilter selects: the smallest index `i` such
/// that at most `effective_max_messages` messages lie at or after `i`.
pub open spec fn spec_position_by_max_messages(p: ChatSplitterView, len: int) -> int {
    if len <= effective_max_messages(p) {
        0
    } else {
        len - effective_max_messages(p)
    }
}

/// Whether the window of `vm` that starts at `n` leaves at least the
/// configured token reservation available.
pub open spec fn window_fits(p: ChatSplitterView, vm: Seq<MessageView>, n: int) -> bool {
    remaining_budget_of(p.model, vm.skip(n)) >= token_limit(p)
}

/// Whether `n` is the boundary the token-budget search selects on `vm`: the
/// smallest index whose window fits.  When not even the window holding only
/// the last message fits, the boundary stays at that last message — the
/// window is never empty when `vm` is not, and the shortfall is left for
/// the caller to observe by re-estimating.
pub open spec fn is_token_boundary(p: ChatSplitterView, vm: Seq<MessageView>, n: int) -> bool {
    if vm.len() == 0 {
        n == 0
    } else {
        &&& 0 <= n < vm.len()
        &&& (window_fits(p, vm, n) || n == vm.len() - 1)
        &&& (forall|m: int| 0 <= m < n ==> !window_fits(p, vm, m))
    }
}

/// Whether `j` is the boundary of the combined split: the count prefilter,
/// then the token-budget search on the suffix it leaves.
pub open spec fn is_split_position(p: ChatSplitterView, vm: Seq<MessageView>, j: int) -> bool {
    let i = spec_position_by_max_messages(p, vm.len() as int);
    &&& i <= j <= vm.len()
    &&& is_token_boundary(p, vm.skip(i), j - i)
}

/// Taking the values of a subrange of messages is taking a subrange of
/// their values.
proof fn lemma_views_of_subrange(s: Seq<ChatMessage>, i: int, j: int)
    requires
        0 <= i <= j <= s.len(),
    ensures
        views_of(s.subrange(i, j)) == views_of(s).subrange(i, j),
{
    assert(views_of(s.subrange(i, j)) =~= views_of(s).subrange(i, j));
}

impl Default for ChatSplitter {
    /// A splitter for a `gpt-3.5-turbo`-class model, with the conservative
    /// defaults of [`ChatSplitter::new`].
    fn default() -> (r: Self)
        ensures
            r@.model == "gpt-3.5-turbo"@,
            r@.max_tokens == context_size_of("gpt-3.5-turbo"@) / 2,
            r@.max_messages == MAX_MESSAGES_LIMIT / 2,
    {
        Self::new("gpt-3.5-turbo")
    }
}

impl ChatSplitter {
    /// Create a splitter for the given model, with conservative defaults:
    /// half the model's context size is reserved for the completion, and
    /// half the absolute ceiling caps the message count.
    pub fn new(model: &str) -> (r: Self)
        ensures
            r@.model == model@,
            r@.max_tokens == context_size_of(model@) / 2,
            r@.max_messages == MAX_MESSAGES_LIMIT / 2,
    {
        let cs = context_size(model);
        let max_tokens: u16 = (cs / 2) as u16;
        ChatSplitter { model: model.to_owned(), max_tokens, max_messages: MAX_MESSAGES_LIMIT / 2 }
    }

    /// Set the maximum number of messages to have in a window.
    ///
    /// Splits will have at most that many messages, never more; the
    /// absolute ceiling still applies on top of this cap.
    pub fn max_messages(self, max_messages: usize) -> (r: Self)
        ensures
            r@ == (ChatSplitterView { max_messages, ..self@ }),
    {
        ChatSplitter { max_messages, ..self }
    }

    /// Set the number of tokens to leave available for the completion.
    ///
    /// Windows are chosen so that at least this many tokens of the model's
    /// context remain unused by the prompt, whenever any window within the
    /// message cap can achieve that.
    pub fn max_tokens(self, max_tokens: u16) -> (r: Self)
        ensures
            r@ == (ChatSplitterView { max_tokens, ..self@ }),
    {
        ChatSplitter { max_tokens, ..self }
    }

    /// Set the model whose tokenizer and context size apply.
    pub fn model(self, model: &str) -> (r: Self)
        ensures
            r@ == (ChatSplitterView { model: model@, ..self@ }),
    {
        ChatSplitter { model: model.to_owned(), ..self }
    }

    /// The boundary the count prefilter selects.  Pure: no estimator calls.
    pub fn position_by_max_messages(&self, messages: &[ChatMessage]) -> (n: usize)
        ensures
            n == spec_position_by_max_messages(self@, messages@.len() as int),
            messages@.len() - n <= effective_max_messages(self@),
    {
        let upper_limit = if self.max_messages <= MAX_MESSAGES_LIMIT {
            self.max_messages
        } else {
            MAX_MESSAGES_LIMIT
        };
        let n = messages.len();
        if n <= upper_limit {
            0
        } else {
            n - upper_limit
        }
    }

    /// The boundary the token-budget search selects on `messages`.
    ///
    /// The first estimator call discovers an unsupported model, in which
    /// case the search stops at once; otherwise the budget's monotonicity
    /// over suffixes lets a binary search find the exact boundary in
    /// logarithmically many estimator calls.
    fn position_by_max_tokens(&self, messages: &[ChatMessage]) -> (r: Result<usize, SplitError>)
        requires
            messages@.len() <= MAX_WINDOW_MESSAGES,
            texts_within_limit(views_of(messages@)),
        ensures
            (match r {
                Ok(n) => is_token_boundary(self@, views_of(messages@), n as int),
                Err(e) => e == SplitError::UnsupportedModel,
            }),
            r is Err <==> (messages@.len() > 0 && !chat_model_known(self@.model)),
            (r is Ok && r->Ok_0 < messages@.len() - 1) ==> remaining_budget_of(
                self@.model,
                views_of(messages@).skip(r->Ok_0 as int),
            ) + 3 <= context_size_of(self@.model),
    {
        let ghost vm = views_of(messages@);
        let len = messages.len();
        if len == 0 {
            return Ok(0);
        }
        let cs = context_size(self.model.as_str());
        let mt = self.max_tokens as usize;
        let limit = if mt < cs {
            mt
        } else {
            cs
        };
        assert(limit == token_limit(self@));
        let b0 = match remaining_budget(self.model.as_str(), messages, 0) {
            Ok(b) => b,
            Err(_) => {
                return Err(SplitError::UnsupportedModel);
            },
        };
        if b0 >= limit {
            return Ok(0);
        }
        let mut lo: usize = 0;
        let mut hi: usize = len - 1;
        while lo < hi
            invariant
                len == messages@.len(),
                1 <= len,
                len <= MAX_WINDOW_MESSAGES,
                texts_within_limit(views_of(messages@)),
                vm == views_of(messages@),
                lo <= hi <= len - 1,
                limit == token_limit(self@),
                chat_model_known(self@.model),
                forall|i: int, j: int|
                    0 <= i <= j <= len ==> #[trigger] remaining_budget_of(
                        self@.model,
                        vm.skip(i),
                    ) <= #[trigger] remaining_budget_of(self@.model, vm.skip(j)),
                lo > 0 ==> !window_fits(self@, vm, lo - 1),
                hi < len - 1 ==> window_fits(self@, vm, hi as int),
                hi < len - 1 ==> remaining_budget_of(self@.model, vm.skip(hi as int)) + 3
                    <= context_size_of(self@.model),
            decreases hi - lo,
        {
            let mid = lo + (hi - lo) / 2;
            let b = match remaining_budget(self.model.as_str(), messages, mid) {
                Ok(b) => b,
                Err(_) => unreached(),
            };
            if b >= limit {
                hi = mid;
            } else {
                lo = mid + 1;
            }
        }
        proof {
            if lo > 0 {
                assert forall|m: int| 0 <= m < lo implies !window_fits(self@, vm, m) by {
                    assert(remaining_budget_of(self@.model, vm.skip(m)) <= remaining_budget_of(
                        self@.model,
                        vm.skip(lo - 1),
                    ));
                }
            }
        }
        Ok(lo)
    }

    /// The boundary of the combined split: the count prefilter first, then
    /// the token-budget search on the suffix it leaves.  The second stage
    /// only ever moves the boundary further towards the recent end.
    fn position(&self, messages: &[ChatMessage]) -> (r: Result<usize, SplitError>)
        requires
            texts_within_limit(views_of(messages@)),
        ensures
            (match r {
                Ok(j) => is_split_position(self@, views_of(messages@), j as int),
                Err(e) => e == SplitError::UnsupportedModel,
            }),
            r is Err <==> (spec_position_by_max_messages(self@, messages@.len() as int)
                < messages@.len() && !chat_model_known(self@.model)),
            (r is Ok && r->Ok_0 < messages@.len() - 1) ==> remaining_budget_of(
                self@.model,
                views_of(messages@).skip(r->Ok_0 as int),
            ) + 3 <= context_size_of(self@.model),
    {
        let n = self.position_by_max_messages(messages);
        let suffix = slice_subrange(messages, n, messages.len());
        proof {
            lemma_views_of_subrange(messages@, n as int, messages@.len() as int);
            assert(views_of(messages@).subrange(n as int, messages@.len() as int) == views_of(
                messages@,
            ).skip(n as int));
            assert forall|i: int|
                0 <= i < views_of(suffix@).len() implies message_text_within_limit(
                views_of(suffix@)[i],
            ) by {
                assert(views_of(suffix@)[i] == views_of(messages@)[n + i]);
            }
        }
        let k = match self.position_by_max_tokens(suffix) {
            Ok(k) => k,
            Err(e) => {
                return Err(e);
            },
        };
        proof {
            assert(views_of(messages@).skip(n as int).skip(k as int) =~= views_of(messages@).skip(
                n + k,
            ));
        }
        Ok(n + k)
    }

    /// Split the conversation log into the `outdated` and the `recent`
    /// messages.
    ///
    /// The two parts are contiguous views of the input: their concatenation
    /// is exactly `messages`, in order, with nothing lost or duplicated.
    /// The `recent` part never exceeds the message cap, and whenever it
    /// holds two or more messages it leaves at least the configured token
    /// reservation available.  A window of a single message may fall short
    /// of the reservation — it is still returned rather than emptied, and
    /// the caller can observe the shortfall by re-estimating.
    ///
    /// Fails with [`SplitError::UnsupportedModel`], after the one estimator
    /// call that discovers it, exactly when the model has no known chat
    /// tokenizer and the count prefilter leaves a non-empty window to cost.
    ///
    /// Each message's content and name must stay within
    /// [`crate::estimator::MAX_TEXT_LEN`] characters.  This is a limit of
    /// the tokenizer engine, not of the splitting policy: its backtracking
    /// regex gives up on texts around a million characters, and the
    /// tokenizer does not recover from that.
    pub fn split<'a>(&self, messages: &'a [ChatMessage]) -> (r: Result<
        (&'a [ChatMessage], &'a [ChatMessage]),
        SplitError,
    >)
        requires
            texts_within_limit(views_of(messages@)),
        ensures
            (match r {
                Ok(parts) => ({
                    let vm = views_of(messages@);
                    let j = parts.0@.len() as int;
                    &&& is_split_position(self@, vm, j)
                    &&& parts.0@ == messages@.subrange(0, j)
                    &&& parts.1@ == messages@.subrange(j, messages@.len() as int)
                    &&& parts.0@ + parts.1@ == messages@
                    &&& parts.1@.len() <= effective_max_messages(self@)
                    &&& parts.1@.len() <= MAX_MESSAGES_LIMIT
                    &&& (parts.1@.len() >= 2 ==> remaining_budget_of(
                        self@.model,
                        views_of(parts.1@),
                    ) >= self@.max_tokens)
                }),
                Err(e) => e == SplitError::UnsupportedModel,
            }),
            r is Err <==> (spec_position_by_max_messages(self@, messages@.len() as int)
                < messages@.len() && !chat_model_known(self@.model)),
    {
        let j = match self.position(messages) {
            Ok(j) => j,
            Err(e) => {
                return Err(e);
            },
        };
        let outdated = slice_subrange(messages, 0, j);
        let recent = slice_subrange(messages, j, messages.len());
        proof {
            let vm = views_of(messages@);
            let len = messages@.len() as int;
            let i = spec_position_by_max_messages(self@, len);
            assert(messages@.subrange(0, j as int) + messages@.subrange(j as int, len)
                =~= messages@);
            lemma_views_of_subrange(messages@, j as int, len);
            assert(views_of(messages@.subrange(j as int, len)) == vm.skip(j as int));
            if len - j >= 2 {
                assert(vm.skip(i).skip(j - i) =~= vm.skip(j as int));
                assert(window_fits(self@, vm.skip(i), j - i));
                // The window fits the clamped limit, and its budget sits
                // strictly below the context size, so the limit was not the
                // context-size clamp: the full reservation is available.
                assert(remaining_budget_of(self@.model, vm.skip(j as int)) >= token_limit(self@));
                assert(remaining_budget_of(self@.model, vm.skip(j as int)) + 3 <= context_size_of(
                    self@.model,
                ));
                assert(remaining_budget_of(self@.model, vm.skip(j as int)) >= self@.max_tokens);
            }
        }
        Ok((outdated, recent))
    }
}

/// Splitting an already-selected recent window again with the same policy
/// moves nothing: the split boundary of such a window is zero, so the
/// second split returns an empty `outdated` part and the window unchanged.
pub proof fn lemma_split_idempotent(p: ChatSplitterView, vm: Seq<MessageView>, j: int)
    requires
        is_split_position(p, vm, j),
    ensures
        is_split_position(p, vm.skip(j), 0),
{
    let i = spec_position_by_max_messages(p, vm.len() as int);
    let rec = vm.skip(j);
    assert(rec.len() == vm.len() - j);
    assert(rec.len() <= effective_max_messages(p));
    assert(spec_position_by_max_messages(p, rec.len() as int) == 0);
    assert(rec.skip(0) =~= rec);
    if rec.len() >= 2 {
        assert(window_fits(p, vm.skip(i), j - i));
        assert(vm.skip(i).skip(j - i) =~= rec);
        assert(window_fits(p, rec, 0)) by {
            assert(rec.skip(0) =~= rec);
        }
    }
    assert(is_token_boundary(p, rec.skip(0), 0));
}

} // verus!
