//! The roles of the actors and what each may do.

use vstd::prelude::*;
use vstd::string::*;
use crate::text::str_eq;

verus! {

/// The role in which an actor performs a transition.
#[derive(Debug, Clone, Copy, PartialEq, Eq, Hash, Structural)]
pub enum UserRole {
    User,
    Manager,
    Admin,
}

impl UserRole {
    /// The name of a role, as it is stored and shown.
    pub open spec fn name(self) -> Seq<char> {
        match self {
            UserRole::User => "User"@,
            UserRole::Manager => "Manager"@,
            UserRole::Admin => "Admin"@,
        }
    }

    /// The authority to approve the completion of a task under review:
    /// managers and administrators have it, plain users do not.
    pub open spec fn approves(self) -> bool {
        self != UserRole::User
    }

    /// The message with which `from_str` refuses `s`.
    pub open spec fn invalid_message(s: Seq<char>) -> Seq<char> {
        "Invalid user role: "@ + s
    }

    /// The name of the role.
    pub fn as_str(&self) -> (s: &'static str)
        ensures
            s@ == self.name(),
    {
        match self {
            UserRole::User => "User",
            UserRole::Manager => "Manager",
            UserRole::Admin => "Admin",
        }
    }

    /// The role named `s`, exactly and with its capitals; any other text is
    /// refused with a message that quotes it.
    pub fn from_str(s: &str) -> (parsed: Result<UserRole, String>)
        ensures
            match parsed {
                Ok(role) => s@ == role.name(),
                Err(message) => (forall|role: UserRole| s@ != role.name()) && message@
                    == UserRole::invalid_message(s@),
            },
    {
        if str_eq(s, "User") {
            Ok(UserRole::User)
        } else if str_eq(s, "Manager") {
            Ok(UserRole::Manager)
        } else if str_eq(s, "Admin") {
            Ok(UserRole::Admin)
        } else {
            Err(String::from_str("Invalid user role: ").concat(s))
        }
    }

    /// Whether the role may approve the completion of a task under review.
    pub fn can_approve(&self) -> (allowed: bool)
        ensures
            allowed == self.approves(),
    {
        match self {
            UserRole::User => false,
            UserRole::Manager | UserRole::Admin => true,
        }
    }

    /// Only administrators manage users.
    pub fn can_manage_users(&self) -> (allowed: bool)
        ensures
            allowed == (*self == UserRole::Admin),
    {
        match self {
            UserRole::User | UserRole::Manager => false,
            UserRole::Admin => true,
        }
    }

    /// Managers and administrators have elevated permissions.
    pub fn has_elevated_permissions(&self) -> (elevated: bool)
        ensures
            elevated == (*self == UserRole::Manager || *self == UserRole::Admin),
    {
        match self {
            UserRole::User => false,
            UserRole::Manager | UserRole::Admin => true,
        }
    }

    /// No two roles share a name.
    pub proof fn lemma_name_injective(a: UserRole, b: UserRole)
        requires
            a.name() == b.name(),
        ensures
            a == b,
    {
        reveal_strlit("User");
        reveal_strlit("Manager");
        reveal_strlit("Admin");
        assert("User"@.len() == 4);
        assert("Manager"@.len() == 7);
        assert("Admin"@.len() == 5);
    }
}

impl Default for UserRole {
    fn default() -> (role: UserRole)
        ensures
            role == UserRole::User,
    {
        UserRole::User
    }
}

} // verus!
