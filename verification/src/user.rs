//! Users and how they are made.
//!
//! A user is either local, with a name and the hash of a secret that this
//! service manages, or federated, with a subject and the profile that an
//! identity provider asserted. Which of the two a user is never changes.
//! Either kind carries a set of role names.

use crate::credential::{
    gen_hash, generate_secret, is_secret, is_stored_hash, lemma_secret_bytes,
    lemma_secret_is_no_hash, verifies, verify, verify_outcome, HashGenerationFailure,
    MalformedHashError, MAX_SECRET_BYTES, SECRET_LENGTH,
};
use crate::profile::{UserInfo, UserInfoView};
use crate::roles::{
    distinct, distinct_roles, insert_role, lemma_distinct, lemma_with_role, with_role,
};
use crate::text::texts;
use vstd::pervasive::unreached;
use vstd::prelude::*;
use vstd::string::StringSliceAdditionalSpecFns;

verus! {

/// A local identity: a user name and the hash of the user's secret.
#[derive(Debug, Clone, PartialEq, Eq)]
pub struct Basic {
    pub username: String,
    /// The encoded hash of the secret, never the secret itself.
    pub password_hash: String,
}

/// A federated identity: the subject and the provider's profile of it.
#[derive(Debug, Clone, PartialEq, Eq)]
pub struct OAuth {
    pub userid: String,
    pub user_info: UserInfo,
}

/// The two kinds of identity.
#[derive(Debug, Clone, PartialEq, Eq)]
pub enum UserType {
    Native(Basic),
    OAuth(OAuth),
}

/// A user: an identity and the names of the user's roles.
#[derive(Debug, Clone, PartialEq, Eq)]
pub struct User {
    pub ty: UserType,
    /// The role names. No name occurs twice; the order means nothing.
    pub roles: Vec<String>,
}

/// A freshly generated secret and its hash. The secret is to be shown to
/// its owner once and then forgotten; only the hash is kept.
pub struct PassCode {
    pub password: String,
    pub hash: String,
}

/// A `Basic` with its strings as sequences of characters.
pub struct BasicView {
    pub username: Seq<char>,
    pub password_hash: Seq<char>,
}

/// An `OAuth` with its strings as sequences of characters.
pub struct OAuthView {
    pub userid: Seq<char>,
    pub user_info: UserInfoView,
}

/// A `UserType` with its strings as sequences of characters.
pub enum UserTypeView {
    Native(BasicView),
    OAuth(OAuthView),
}

/// A `User` with its strings as sequences of characters. The roles are in
/// the order in which they were added.
pub struct UserView {
    pub ty: UserTypeView,
    pub roles: Seq<Seq<char>>,
}

impl View for Basic {
    type V = BasicView;

    open spec fn view(&self) -> BasicView {
        BasicView { username: self.username@, password_hash: self.password_hash@ }
    }
}

impl View for OAuth {
    type V = OAuthView;

    open spec fn view(&self) -> OAuthView {
        OAuthView { userid: self.userid@, user_info: self.user_info@ }
    }
}

impl View for UserType {
    type V = UserTypeView;

    open spec fn view(&self) -> UserTypeView {
        match *self {
            UserType::Native(basic) => UserTypeView::Native(basic@),
            UserType::OAuth(oauth) => UserTypeView::OAuth(oauth@),
        }
    }
}

impl View for User {
    type V = UserView;

    open spec fn view(&self) -> UserView {
        UserView { ty: self.ty@, roles: texts(self.roles@) }
    }
}

impl BasicView {
    /// The hash is one that `verify` can read.
    pub open spec fn well_formed(self) -> bool {
        is_stored_hash(self.password_hash)
    }
}

impl UserView {
    /// The name a user goes by: the user name of a local identity, the
    /// subject of a federated one.
    pub open spec fn username(self) -> Seq<char> {
        match self.ty {
            UserTypeView::Native(basic) => basic.username,
            UserTypeView::OAuth(oauth) => oauth.userid,
        }
    }

    /// The roles as a set.
    pub open spec fn role_set(self) -> Set<Seq<char>> {
        self.roles.to_set()
    }

    /// No role occurs twice, and the hash of a local identity is one that
    /// `verify` can read.
    pub open spec fn well_formed(self) -> bool {
        &&& self.roles.no_duplicates()
        &&& self.ty matches UserTypeView::Native(basic) ==> basic.well_formed()
    }
}

/// The subject of a federated user: the display name of the profile where
/// it has one, else the name that the caller supplied.
pub open spec fn subject_of(fallback: Seq<char>, profile: UserInfoView) -> Seq<char> {
    match profile.name {
        Some(name) => name,
        None => fallback,
    }
}

/// The role of the administrator.
pub open spec fn admin_role() -> Seq<char> {
    "admin"@
}

impl Basic {
    /// Generates a secret of `SECRET_LENGTH` random letters and digits and
    /// hashes it. The hash is one that `verify` accepts the secret against,
    /// and it is not the secret.
    pub fn gen_new_password() -> (code: PassCode)
        ensures
            is_secret(code.password@, SECRET_LENGTH as nat),
            verifies(code.hash@, code.password@),
            code.hash@ != code.password@,
    {
        let password = generate_secret(SECRET_LENGTH);
        proof {
            lemma_secret_bytes(password@, SECRET_LENGTH as nat);
            lemma_secret_is_no_hash(password@, SECRET_LENGTH as nat);
        }
        match gen_hash(password.as_str()) {
            Ok(hash) => PassCode { password, hash },
            Err(_) => unreached(),
        }
    }

    /// Verifies `password` against the stored hash. A well-formed identity
    /// gives no error.
    pub fn verify_password(&self, password: &str) -> (r: Result<bool, MalformedHashError>)
        ensures
            r == verify_outcome(self@.password_hash, password@),
            self@.well_formed() ==> r is Ok,
    {
        verify(self.password_hash.as_str(), password)
    }
}

impl User {
    /// Makes a local user with a freshly generated secret and no roles, and
    /// returns the user together with the secret.
    pub fn new_basic(username: String) -> (r: (User, String))
        ensures
            r.0@.ty matches UserTypeView::Native(basic) && basic.username == username@,
            r.0@.ty matches UserTypeView::Native(basic) && verifies(basic.password_hash, r.1@),
            r.0@.ty matches UserTypeView::Native(basic) && basic.password_hash != r.1@,
            r.0@.roles == Seq::<Seq<char>>::empty(),
            r.0@.well_formed(),
            is_secret(r.1@, SECRET_LENGTH as nat),
    {
        let PassCode { password, hash } = Basic::gen_new_password();
        let user = User {
            ty: UserType::Native(Basic { username, password_hash: hash }),
            roles: Vec::new(),
        };
        (user, password)
    }

    /// Makes a federated user from a provider's profile. The subject is the
    /// profile's display name, or `username` where the profile has none. The
    /// roles are those of `roles`, each once.
    pub fn new_oauth(username: String, roles: Vec<String>, user_info: UserInfo) -> (user: User)
        ensures
            user@ == (UserView {
                ty: UserTypeView::OAuth(
                    OAuthView { userid: subject_of(username@, user_info@), user_info: user_info@ },
                ),
                roles: distinct(texts(roles@)),
            }),
            user@.role_set() == texts(roles@).to_set(),
            user@.well_formed(),
    {
        let userid = match &user_info.name {
            Some(name) => name.clone(),
            None => username,
        };
        proof {
            lemma_distinct(texts(roles@));
        }
        User { ty: UserType::OAuth(OAuth { userid, user_info }), roles: distinct_roles(&roles) }
    }

    /// The name the user goes by.
    pub fn username(&self) -> (name: &str)
        ensures
            name@ == self@.username(),
    {
        match &self.ty {
            UserType::Native(basic) => basic.username.as_str(),
            UserType::OAuth(oauth) => oauth.userid.as_str(),
        }
    }

    /// Whether the user is federated.
    pub fn is_oauth(&self) -> (federated: bool)
        ensures
            federated == (self@.ty is OAuth),
    {
        match &self.ty {
            UserType::Native(_) => false,
            UserType::OAuth(_) => true,
        }
    }

    /// The names of the user's roles.
    pub fn roles(&self) -> (names: Vec<String>)
        ensures
            texts(names@) == self@.roles,
    {
        self.roles.clone()
    }

    /// Gives the user the role `role`, unless the user has it already, and
    /// says whether it was added.
    pub fn add_role(&mut self, role: String) -> (added: bool)
        ensures
            final(self)@.ty == old(self)@.ty,
            final(self)@.roles == with_role(old(self)@.roles, role@),
            final(self)@.role_set() == old(self)@.role_set().insert(role@),
            added == !old(self)@.roles.contains(role@),
            old(self)@.well_formed() ==> final(self)@.well_formed(),
    {
        proof {
            lemma_with_role(texts(self.roles@), role@);
        }
        insert_role(&mut self.roles, role)
    }
}

/// Makes the administrator: a local user with the given name, the hash of
/// the given password, and the one role `admin`.
///
/// Fails only on a password of more than `MAX_SECRET_BYTES` bytes.
pub fn get_admin_user(username: String, password: &str) -> (r: Result<User, HashGenerationFailure>)
    ensures
        r is Ok <==> password.spec_bytes().len() <= MAX_SECRET_BYTES,
        r matches Ok(user) ==> user@.ty matches UserTypeView::Native(basic) && basic.username
            == username@,
        r matches Ok(user) ==> user@.ty matches UserTypeView::Native(basic) && verifies(
            basic.password_hash,
            password@,
        ),
        r matches Ok(user) ==> user@.roles == seq![admin_role()],
        r matches Ok(user) ==> user@.well_formed(),
{
    match gen_hash(password) {
        Ok(hashcode) => {
            let mut roles: Vec<String> = Vec::new();
            roles.push("admin".to_owned());
            Ok(User { ty: UserType::Native(Basic { username, password_hash: hashcode }), roles })
        },
        Err(e) => Err(e),
    }
}

} // verus!
