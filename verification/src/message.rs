//! The canonical form of one conversation turn.
//!
//! A [`ChatMessage`] carries exactly the fields the token estimator reads:
//! a role, an optional text content, an optional author name and an optional
//! structured function call.  Richer client representations are converted to
//! and from this form at the edge of the library.

use vstd::prelude::*;

verus! {

/// The author of a conversation turn.
///
/// The set of roles is closed: every supported role label maps to exactly one
/// variant, and an unknown label is rejected at conversion time rather than
/// silently defaulted (see [`parse_role`]).
#[derive(Clone, Copy, Debug, PartialEq, Eq, Structural)]
pub enum Role {
    System,
    User,
    Assistant,
    Function,
}

/// A structured function call requested by the model.
#[derive(Clone, Debug, PartialEq, Eq)]
pub struct FunctionCall {
    /// The name of the function to call.
    pub name: String,
    /// The arguments of the call, as a JSON text.
    pub arguments: String,
}

/// One conversation turn, in the form the token estimator accepts.
#[derive(Clone, Debug, PartialEq, Eq)]
pub struct ChatMessage {
    /// Who authored the turn.
    pub role: Role,
    /// The text content of the turn, if any.
    pub content: Option<String>,
    /// The author name, if any.
    pub name: Option<String>,
    /// A structured function call, if any.
    pub function_call: Option<FunctionCall>,
}

/// The mathematical value of a [`FunctionCall`].
pub ghost struct FunctionCallView {
    pub name: Seq<char>,
    pub arguments: Seq<char>,
}

/// The mathematical value of a [`ChatMessage`].
pub ghost struct MessageView {
    pub role: Role,
    pub content: Option<Seq<char>>,
    pub name: Option<Seq<char>>,
    pub function_call: Option<FunctionCallView>,
}

impl View for FunctionCall {
    type V = FunctionCallView;

    open spec fn view(&self) -> FunctionCallView {
        FunctionCallView { name: self.name@, arguments: self.arguments@ }
    }
}

impl View for ChatMessage {
    type V = MessageView;

    open spec fn view(&self) -> MessageView {
        MessageView {
            role: self.role,
            content: match self.content {
                Some(c) => Some(c@),
                None => None,
            },
            name: match self.name {
                Some(n) => Some(n@),
                None => None,
            },
            function_call: match self.function_call {
                Some(f) => Some(f@),
                None => None,
            },
        }
    }
}

/// The values of a sequence of messages.
pub open spec fn views_of(s: Seq<ChatMessage>) -> Seq<MessageView> {
    s.map_values(|m: ChatMessage| m@)
}

/// The label under which a role travels on the wire.
pub open spec fn spec_role_label(r: Role) -> Seq<char> {
    match r {
        Role::System => "system"@,
        Role::User => "user"@,
        Role::Assistant => "assistant"@,
        Role::Function => "function"@,
    }
}

/// The role a label denotes, if it denotes one.
pub open spec fn spec_parse_role(s: Seq<char>) -> Option<Role> {
    if s == "system"@ {
        Some(Role::System)
    } else if s == "user"@ {
        Some(Role::User)
    } else if s == "assistant"@ {
        Some(Role::Assistant)
    } else if s == "function"@ {
        Some(Role::Function)
    } else {
        None
    }
}

/// Relies on `<str as PartialEq>::eq`: two string slices compare equal
/// exactly when their character contents are equal.
#[verifier::external_body]
fn str_eq(a: &str, b: &str) -> (r: bool)
    ensures
        r == (a@ == b@),
{
    a == b
}

impl Role {
    /// The wire label of this role.
    pub fn label(&self) -> (s: &'static str)
        ensures
            s@ == spec_role_label(*self),
    {
        match self {
            Role::System => "system",
            Role::User => "user",
            Role::Assistant => "assistant",
            Role::Function => "function",
        }
    }
}

/// Map a wire label back to a role.
///
/// The mapping is total and explicit: each of the four supported labels
/// yields its role, and every other string yields `None`, never a default.
pub fn parse_role(s: &str) -> (r: Option<Role>)
    ensures
        r == spec_parse_role(s@),
{
    if str_eq(s, "system") {
        Some(Role::System)
    } else if str_eq(s, "user") {
        Some(Role::User)
    } else if str_eq(s, "assistant") {
        Some(Role::Assistant)
    } else if str_eq(s, "function") {
        Some(Role::Function)
    } else {
        None
    }
}

/// Role mapping is lossless: parsing the label of a role yields that very
/// role back.
pub proof fn lemma_role_label_parses(r: Role)
    ensures
        spec_parse_role(spec_role_label(r)) == Some(r),
{
    reveal_strlit("system");
    reveal_strlit("user");
    reveal_strlit("assistant");
    reveal_strlit("function");
    assert("system"@.len() == 6);
    assert("user"@.len() == 4);
    assert("assistant"@.len() == 9);
    assert("function"@.len() == 8);
    match r {
        Role::System => assert(spec_parse_role(spec_role_label(r)) == Some(Role::System)),
        Role::User => assert(spec_parse_role(spec_role_label(r)) == Some(Role::User)),
        Role::Assistant => assert(spec_parse_role(spec_role_label(r)) == Some(Role::Assistant)),
        Role::Function => assert(spec_parse_role(spec_role_label(r)) == Some(Role::Function)),
    }
}

} // verus!
