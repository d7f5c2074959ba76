use vstd::prelude::*;

verus! {

/// The role of a principal. The set is closed: every stored role number
/// either names one of these or is rejected.
#[derive(Debug, Clone, Copy, PartialEq, Eq, Structural)]
pub enum UserRole {
    Admin,
    Moderator,
    User,
}

/// The stored number of a role.
pub open spec fn role_number(role: UserRole) -> int {
    match role {
        UserRole::Admin => 1,
        UserRole::Moderator => 2,
        UserRole::User => 3,
    }
}

/// The role that a stored number names, if any.
pub open spec fn role_of_number(value: int) -> Option<UserRole> {
    if value == 1 {
        Some(UserRole::Admin)
    } else if value == 2 {
        Some(UserRole::Moderator)
    } else if value == 3 {
        Some(UserRole::User)
    } else {
        None
    }
}

/// The lower-case name of a role.
pub open spec fn role_name(role: UserRole) -> Seq<char> {
    match role {
        UserRole::Admin => "admin"@,
        UserRole::Moderator => "moderator"@,
        UserRole::User => "user"@,
    }
}

impl UserRole {
    pub fn to_str(&self) -> (name: &'static str)
        ensures
            name@ == role_name(*self),
    {
        match self {
            UserRole::Admin => "admin",
            UserRole::Moderator => "moderator",
            UserRole::User => "user",
        }
    }

    pub fn from_i32(value: i32) -> (role: Option<UserRole>)
        ensures
            role == role_of_number(value as int),
    {
        match value {
            1 => Some(UserRole::Admin),
            2 => Some(UserRole::Moderator),
            3 => Some(UserRole::User),
            _ => None,
        }
    }

    /// The number under which the role is stored.
    pub fn to_i32(&self) -> (value: i32)
        ensures
            value == role_number(*self),
    {
        match self {
            UserRole::Admin => 1,
            UserRole::Moderator => 2,
            UserRole::User => 3,
        }
    }
}

/// Storing a role and reading it back gives the same role, and a number
/// names a role only if that role is stored under it.
pub proof fn lemma_role_number_round_trip(role: UserRole, value: int)
    ensures
        role_of_number(role_number(role)) == Some(role),
        role_of_number(value) == Some(role) <==> value == role_number(role),
{
}

} // verus!
