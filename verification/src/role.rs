//! The three speakers a message can have.

use crate::text::{lowercase_of, to_lowercase};
use vstd::prelude::*;

verus! {

/// Who wrote a message.
#[derive(Clone, Copy, Debug, PartialEq, Eq, Structural)]
pub enum Role {
    System,
    User,
    Assistant,
}

/// A string that names no role.
#[derive(Debug, PartialEq, Eq)]
pub struct UnknownRole {
    pub value: String,
}

impl Role {
    /// The name of the role on the wire and in storage.
    pub open spec fn name(self) -> Seq<char> {
        match self {
            Role::System => "system"@,
            Role::User => "user"@,
            Role::Assistant => "assistant"@,
        }
    }

    /// The role that `name` is the exact name of.
    pub open spec fn named(name: Seq<char>) -> Option<Role> {
        if name == "system"@ {
            Some(Role::System)
        } else if name == "user"@ {
            Some(Role::User)
        } else if name == "assistant"@ {
            Some(Role::Assistant)
        } else {
            None
        }
    }

    pub fn as_str(&self) -> (r: &'static str)
        ensures
            r@ == self.name(),
    {
        match self {
            Role::System => "system",
            Role::User => "user",
            Role::Assistant => "assistant",
        }
    }

    pub fn to_string(&self) -> (r: String)
        ensures
            r@ == self.name(),
    {
        self.as_str().to_owned()
    }

    /// The role with exactly this name. Any other string is handed back in the error.
    pub fn from_name(name: &str) -> (r: Result<Role, UnknownRole>)
        ensures
            match Role::named(name@) {
                Some(role) => r == Ok::<Role, UnknownRole>(role),
                None => r is Err && r->Err_0.value@ == name@,
            },
    {
        let given: String = name.to_owned();
        let system: String = "system".to_owned();
        let user: String = "user".to_owned();
        let assistant: String = "assistant".to_owned();
        if given == system {
            Ok(Role::System)
        } else if given == user {
            Ok(Role::User)
        } else if given == assistant {
            Ok(Role::Assistant)
        } else {
            Err(UnknownRole { value: given })
        }
    }

    /// Reads a role name without regard to case. A string that names no role comes
    /// back in the error as it was given.
    pub fn parse(value: &str) -> (r: Result<Role, UnknownRole>)
        ensures
            match Role::named(lowercase_of(value@)) {
                Some(role) => r == Ok::<Role, UnknownRole>(role),
                None => r is Err && r->Err_0.value@ == value@,
            },
    {
        let lower: String = to_lowercase(value);
        match Role::from_name(lower.as_str()) {
            Ok(role) => Ok(role),
            Err(_) => Err(UnknownRole { value: value.to_owned() }),
        }
    }
}

/// Every role is read back from its own name.
pub proof fn lemma_name_round_trip(role: Role)
    ensures
        Role::named(role.name()) == Some(role),
{
    reveal_strlit("system");
    reveal_strlit("user");
    reveal_strlit("assistant");
    match role {
        Role::System => {},
        Role::User => {
            assert("user"@.len() != "system"@.len());
        },
        Role::Assistant => {
            assert("assistant"@.len() != "system"@.len());
            assert("assistant"@.len() != "user"@.len());
        },
    }
}

} // verus!
