//! Role-tagged chat messages for a remote chat-completion request.
//!
//! Only the message and role modelling lives here; the client that holds
//! sampling parameters and sends requests is plain unverified code around
//! the library.

use vstd::prelude::*;
use vstd::string::*;

verus! {

/// The role a chat message is tagged with.
#[derive(Debug, Clone, Copy, PartialEq, Eq, Structural)]
pub enum Role {
    System,
    User,
    Assistant,
    Function,
}

/// The role a tag names: one of the four known tags; anything else falls
/// back to the system role.
pub open spec fn spec_role_of(s: Seq<char>) -> Role {
    if s == "system"@ {
        Role::System
    } else if s == "user"@ {
        Role::User
    } else if s == "assistant"@ {
        Role::Assistant
    } else if s == "function"@ {
        Role::Function
    } else {
        Role::System
    }
}

/// The tag a role is written as.
pub open spec fn spec_role_name(r: Role) -> Seq<char> {
    match r {
        Role::System => "system"@,
        Role::User => "user"@,
        Role::Assistant => "assistant"@,
        Role::Function => "function"@,
    }
}

impl<'a> core::convert::From<&'a str> for Role {
    fn from(role: &'a str) -> (r: Role) {
        if str_eq_chars(role, "system") {
            Role::System
        } else if str_eq_chars(role, "user") {
            Role::User
        } else if str_eq_chars(role, "assistant") {
            Role::Assistant
        } else if str_eq_chars(role, "function") {
            Role::Function
        } else {
            Role::System
        }
    }
}

impl<'a> vstd::std_specs::convert::FromSpecImpl<&'a str> for Role {
    open spec fn obeys_from_spec() -> bool {
        true
    }

    open spec fn from_spec(role: &'a str) -> Role {
        spec_role_of(role@)
    }
}

impl Role {
    /// The tag this role is written as.
    pub fn name(&self) -> (r: String)
        ensures
            r@ == spec_role_name(*self),
    {
        match self {
            Role::System => String::from_str("system"),
            Role::User => String::from_str("user"),
            Role::Assistant => String::from_str("assistant"),
            Role::Function => String::from_str("function"),
        }
    }
}

/// One chat message: a role tag and the message text.
#[derive(Debug, Clone)]
pub struct Message {
    /// The message role (system, user, assistant, function).
    pub role: Role,
    /// The message text.
    pub message: String,
}

impl Message {
    /// Builds a message from a role and its text.
    pub fn new(role: Role, message: &str) -> (r: Message)
        ensures
            r.role == role,
            r.message@ == message@,
    {
        Message { role, message: String::from_str(message) }
    }

    /// The message rendered as "[role] text".
    pub fn to_text(&self) -> (r: String)
        ensures
            r@ == "["@ + spec_role_name(self.role) + "] "@ + self.message@,
    {
        let mut rendered = String::from_str("[");
        let tag = self.role.name();
        rendered.append(tag.as_str());
        rendered.append("] ");
        rendered.append(self.message.as_str());
        rendered
    }

    /// Builds the message list of a conversation from (role tag, text)
    /// pairs, keeping length and order.
    pub fn into_vec(v: Vec<(&str, &str)>) -> (r: Vec<Message>)
        ensures
            r@.len() == v@.len(),
            forall|i: int|
                0 <= i < v@.len() ==> #[trigger] r@[i].role == spec_role_of(v@[i].0@)
                    && r@[i].message@ == v@[i].1@,
    {
        let mut messages: Vec<Message> = Vec::new();
        let mut i: usize = 0;
        while i < v.len()
            invariant
                i <= v@.len(),
                messages@.len() == i,
                forall|j: int|
                    0 <= j < i ==> #[trigger] messages@[j].role == spec_role_of(v@[j].0@)
                        && messages@[j].message@ == v@[j].1@,
            decreases v@.len() - i,
        {
            let role: Role = Role::from(v[i].0);
            messages.push(Message::new(role, v[i].1));
            i += 1;
        }
        messages
    }
}

/// Character-by-character equality of two string slices.
fn str_eq_chars(a: &str, b: &str) -> (r: bool)
    ensures
        r == (a@ == b@),
{
    let a_len = a.unicode_len();
    let b_len = b.unicode_len();
    if a_len != b_len {
        return false;
    }
    let mut i: usize = 0;
    while i < a_len
        invariant
            a_len == a@.len(),
            b_len == b@.len(),
            a_len == b_len,
            i <= a_len,
            forall|j: int| 0 <= j < i ==> a@[j] == b@[j],
        decreases a_len - i,
    {
        if a.get_char(i) != b.get_char(i) {
            return false;
        }
        i += 1;
    }
    proof {
        assert(a@ =~= b@);
    }
    true
}

} // verus!
