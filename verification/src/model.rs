use vstd::prelude::*;

use crate::enums::{role_name, role_of_number, UserRole};
use crate::response::RepositoryError;
use crate::text::{clone_opt, opt_text};

verus! {

/// A principal as the repository holds it. Times are whole seconds since
/// the Unix epoch. The one-time code and its expiry are the only fields
/// that the sign-in flow changes.
#[derive(Debug, Clone)]
pub struct UserModel {
    pub id: String,
    pub name: String,
    pub mobile: String,
    pub mobile_token: Option<String>,
    pub mobile_token_expire_at: Option<i64>,
    pub email: Option<String>,
    pub gender: Option<String>,
    pub role_id: i32,
    pub active: i8,
    pub protected: i8,
    pub created_at: Option<i64>,
    pub updated_at: Option<i64>,
}

pub struct UserModelView {
    pub id: Seq<char>,
    pub name: Seq<char>,
    pub mobile: Seq<char>,
    pub mobile_token: Option<Seq<char>>,
    pub mobile_token_expire_at: Option<i64>,
    pub email: Option<Seq<char>>,
    pub gender: Option<Seq<char>>,
    pub role_id: i32,
    pub active: i8,
    pub protected: i8,
    pub created_at: Option<i64>,
    pub updated_at: Option<i64>,
}

impl View for UserModel {
    type V = UserModelView;

    open spec fn view(&self) -> UserModelView {
        UserModelView {
            id: self.id@,
            name: self.name@,
            mobile: self.mobile@,
            mobile_token: opt_text(self.mobile_token),
            mobile_token_expire_at: self.mobile_token_expire_at,
            email: opt_text(self.email),
            gender: opt_text(self.gender),
            role_id: self.role_id,
            active: self.active,
            protected: self.protected,
            created_at: self.created_at,
            updated_at: self.updated_at,
        }
    }
}

/// What the repository returned for a principal, as the flows see it.
pub open spec fn found_view(found: Result<Option<UserModel>, RepositoryError>) -> Result<
    Option<UserModelView>,
    RepositoryError,
> {
    match found {
        Ok(Some(user)) => Ok(Some(user@)),
        Ok(None) => Ok(None),
        Err(e) => Err(e),
    }
}

impl UserModelView {
    /// A stored flag counts as set unless it is zero.
    pub open spec fn is_active(self) -> bool {
        self.active != 0
    }

    pub open spec fn is_protected(self) -> bool {
        self.protected != 0
    }

    /// The role that the stored number names, if any.
    pub open spec fn role(self) -> Option<UserRole> {
        role_of_number(self.role_id as int)
    }
}

impl UserModel {
    pub fn is_active(&self) -> (active: bool)
        ensures
            active == self@.is_active(),
    {
        self.active != 0
    }

    pub fn is_protected(&self) -> (protected: bool)
        ensures
            protected == self@.is_protected(),
    {
        self.protected != 0
    }

    pub fn role(&self) -> (role: Option<UserRole>)
        ensures
            role == self@.role(),
    {
        UserRole::from_i32(self.role_id)
    }
}

/// Who created a record, as shown beside it.
#[allow(non_snake_case)]
#[derive(Debug)]
pub struct CreatedByResponse {
    pub id: String,
    pub name: String,
    pub roleId: i32,
    pub active: bool,
}

#[allow(non_snake_case)]
pub struct CreatedByView {
    pub id: Seq<char>,
    pub name: Seq<char>,
    pub roleId: i32,
    pub active: bool,
}

impl View for CreatedByResponse {
    type V = CreatedByView;

    open spec fn view(&self) -> CreatedByView {
        CreatedByView { id: self.id@, name: self.name@, roleId: self.roleId, active: self.active }
    }
}

impl CreatedByResponse {
    pub fn filter_db(user: &UserModel) -> (shown: CreatedByResponse)
        ensures
            shown@ == (CreatedByView {
                id: user@.id,
                name: user@.name,
                roleId: user@.role_id,
                active: user@.is_active(),
            }),
    {
        CreatedByResponse {
            id: user.id.clone(),
            name: user.name.clone(),
            roleId: user.role_id,
            active: user.active != 0,
        }
    }
}

/// The identity that an interceptor attaches to a request: the principal
/// without its one-time code.
#[allow(non_snake_case)]
#[derive(Debug, Clone)]
pub struct AuthUser {
    pub id: String,
    pub name: String,
    pub mobile: String,
    pub email: Option<String>,
    pub gender: Option<String>,
    pub role_id: i32,
    pub active: bool,
    pub protected: bool,
    pub createdAt: Option<i64>,
    pub updatedAt: Option<i64>,
}

#[allow(non_snake_case)]
pub struct AuthUserView {
    pub id: Seq<char>,
    pub name: Seq<char>,
    pub mobile: Seq<char>,
    pub email: Option<Seq<char>>,
    pub gender: Option<Seq<char>>,
    pub role_id: i32,
    pub active: bool,
    pub protected: bool,
    pub createdAt: Option<i64>,
    pub updatedAt: Option<i64>,
}

impl View for AuthUser {
    type V = AuthUserView;

    open spec fn view(&self) -> AuthUserView {
        AuthUserView {
            id: self.id@,
            name: self.name@,
            mobile: self.mobile@,
            email: opt_text(self.email),
            gender: opt_text(self.gender),
            role_id: self.role_id,
            active: self.active,
            protected: self.protected,
            createdAt: self.createdAt,
            updatedAt: self.updatedAt,
        }
    }
}

/// The identity of a principal: every field but the one-time code and its
/// expiry, with the two flags read as booleans.
pub open spec fn identity_of(user: UserModelView) -> AuthUserView {
    AuthUserView {
        id: user.id,
        name: user.name,
        mobile: user.mobile,
        email: user.email,
        gender: user.gender,
        role_id: user.role_id,
        active: user.is_active(),
        protected: user.is_protected(),
        createdAt: user.created_at,
        updatedAt: user.updated_at,
    }
}

impl AuthUser {
    pub fn filter_db(user: &mut UserModel) -> (identity: AuthUser)
        ensures
            identity@ == identity_of(old(user)@),
            *final(user) == *old(user),
    {
        AuthUser {
            id: user.id.clone(),
            name: user.name.clone(),
            mobile: user.mobile.clone(),
            email: clone_opt(&user.email),
            gender: clone_opt(&user.gender),
            role_id: user.role_id,
            active: user.active != 0,
            protected: user.protected != 0,
            createdAt: user.created_at,
            updatedAt: user.updated_at,
        }
    }
}

/// A principal as an administrator sees it: the role by name, no one-time
/// code.
#[allow(non_snake_case)]
#[derive(Debug)]
pub struct UserModelResponse {
    pub id: String,
    pub name: String,
    pub mobile: String,
    pub email: Option<String>,
    pub gender: Option<String>,
    pub role: String,
    pub active: bool,
    pub protected: bool,
    pub createdAt: Option<i64>,
    pub updatedAt: Option<i64>,
}

#[allow(non_snake_case)]
pub struct UserModelResponseView {
    pub id: Seq<char>,
    pub name: Seq<char>,
    pub mobile: Seq<char>,
    pub email: Option<Seq<char>>,
    pub gender: Option<Seq<char>>,
    pub role: Seq<char>,
    pub active: bool,
    pub protected: bool,
    pub createdAt: Option<i64>,
    pub updatedAt: Option<i64>,
}

impl View for UserModelResponse {
    type V = UserModelResponseView;

    open spec fn view(&self) -> UserModelResponseView {
        UserModelResponseView {
            id: self.id@,
            name: self.name@,
            mobile: self.mobile@,
            email: opt_text(self.email),
            gender: opt_text(self.gender),
            role: self.role@,
            active: self.active,
            protected: self.protected,
            createdAt: self.createdAt,
            updatedAt: self.updatedAt,
        }
    }
}

/// The name shown for a stored role number: the role's name, or `unknown`
/// for a number that names no role.
pub open spec fn shown_role(role_id: i32) -> Seq<char> {
    match role_of_number(role_id as int) {
        Some(role) => role_name(role),
        None => "unknown"@,
    }
}

impl UserModelResponse {
    pub fn filter_db(user: &mut UserModel) -> (shown: UserModelResponse)
        ensures
            shown@ == (UserModelResponseView {
                id: old(user)@.id,
                name: old(user)@.name,
                mobile: old(user)@.mobile,
                email: old(user)@.email,
                gender: old(user)@.gender,
                role: shown_role(old(user)@.role_id),
                active: old(user)@.is_active(),
                protected: old(user)@.is_protected(),
                createdAt: old(user)@.created_at,
                updatedAt: old(user)@.updated_at,
            }),
            *final(user) == *old(user),
    {
        let role = match UserRole::from_i32(user.role_id) {
            Some(user_role) => user_role.to_str().to_owned(),
            None => "unknown".to_owned(),
        };
        UserModelResponse {
            id: user.id.clone(),
            name: user.name.clone(),
            mobile: user.mobile.clone(),
            email: clone_opt(&user.email),
            gender: clone_opt(&user.gender),
            role,
            active: user.active != 0,
            protected: user.protected != 0,
            createdAt: user.created_at,
            updatedAt: user.updated_at,
        }
    }
}

/// A principal's own profile: no one-time code, no times.
#[allow(non_snake_case)]
#[derive(Debug)]
pub struct ProfileResponse {
    pub id: String,
    pub name: String,
    pub mobile: String,
    pub email: Option<String>,
    pub gender: Option<String>,
    pub roleId: i32,
    pub active: bool,
    pub protected: bool,
}

#[allow(non_snake_case)]
pub struct ProfileView {
    pub id: Seq<char>,
    pub name: Seq<char>,
    pub mobile: Seq<char>,
    pub email: Option<Seq<char>>,
    pub gender: Option<Seq<char>>,
    pub roleId: i32,
    pub active: bool,
    pub protected: bool,
}

impl View for ProfileResponse {
    type V = ProfileView;

    open spec fn view(&self) -> ProfileView {
        ProfileView {
            id: self.id@,
            name: self.name@,
            mobile: self.mobile@,
            email: opt_text(self.email),
            gender: opt_text(self.gender),
            roleId: self.roleId,
            active: self.active,
            protected: self.protected,
        }
    }
}

/// The profile of a principal.
pub open spec fn profile_of(user: UserModelView) -> ProfileView {
    ProfileView {
        id: user.id,
        name: user.name,
        mobile: user.mobile,
        email: user.email,
        gender: user.gender,
        roleId: user.role_id,
        active: user.is_active(),
        protected: user.is_protected(),
    }
}

impl ProfileResponse {
    pub fn new(profile: &UserModel) -> (shown: ProfileResponse)
        ensures
            shown@ == profile_of(profile@),
    {
        ProfileResponse {
            id: profile.id.clone(),
            name: profile.name.clone(),
            mobile: profile.mobile.clone(),
            email: clone_opt(&profile.email),
            gender: clone_opt(&profile.gender),
            roleId: profile.role_id,
            active: profile.active != 0,
            protected: profile.protected != 0,
        }
    }
}

/// The identity and the profile of a principal do not depend on its
/// one-time code: two records that differ in the code and its expiry alone
/// are shown alike.
pub proof fn lemma_shown_without_code(a: UserModelView, b: UserModelView)
    requires
        a == (UserModelView {
            mobile_token: a.mobile_token,
            mobile_token_expire_at: a.mobile_token_expire_at,
            ..b
        }),
    ensures
        identity_of(a) == identity_of(b),
        profile_of(a) == profile_of(b),
{
}

} // verus!
