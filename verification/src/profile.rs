//! What an identity provider says of a user.
//!
//! A provider answers with a set of claims. `UserInfo` is the part of it
//! that is kept with a federated user. Every attribute is optional, and one
//! that the provider did not send stays `None`: it is never replaced by an
//! empty string or a zero.

use crate::text::{opt_text, texts};
use vstd::prelude::*;

verus! {

/// A parsed URL of the `url` crate. It is carried, never read.
#[verifier::external_type_specification]
#[verifier::external_body]
pub struct ExUrl(url::Url);

/// The claims of a provider's userinfo response that this library reads.
#[derive(Debug, Clone, PartialEq, Eq)]
pub struct UserinfoClaims {
    /// The subject: the provider's identifier of the user.
    pub sub: String,
    /// The full name, for display.
    pub name: Option<String>,
    /// The shorthand name that the user wishes to go by.
    pub preferred_username: Option<String>,
    /// Where the user's picture is.
    pub picture: Option<url::Url>,
    /// The preferred e-mail address.
    pub email: Option<String>,
    /// The gender.
    pub gender: Option<String>,
    /// When the claims were last updated, in seconds since the epoch.
    pub updated_at: Option<i64>,
}

/// The profile of a federated user.
#[derive(Debug, Clone, PartialEq, Eq)]
pub struct UserInfo {
    /// The full name, for display.
    pub name: Option<String>,
    /// The shorthand name that the user wishes to go by.
    pub preferred_username: Option<String>,
    /// Where the user's picture is.
    pub picture: Option<url::Url>,
    /// The preferred e-mail address.
    pub email: Option<String>,
    /// The gender.
    pub gender: Option<String>,
    /// When the profile was last updated, in seconds since the epoch.
    pub updated_at: Option<i64>,
    /// The groups the user belongs to. `None` where they are not known,
    /// which is not the same as belonging to none.
    pub groups: Option<Vec<String>>,
}

/// A `UserInfo` with its strings as sequences of characters.
pub struct UserInfoView {
    pub name: Option<Seq<char>>,
    pub preferred_username: Option<Seq<char>>,
    pub picture: Option<url::Url>,
    pub email: Option<Seq<char>>,
    pub gender: Option<Seq<char>>,
    pub updated_at: Option<i64>,
    pub groups: Option<Seq<Seq<char>>>,
}

impl View for UserInfo {
    type V = UserInfoView;

    open spec fn view(&self) -> UserInfoView {
        UserInfoView {
            name: opt_text(self.name),
            preferred_username: opt_text(self.preferred_username),
            picture: self.picture,
            email: opt_text(self.email),
            gender: opt_text(self.gender),
            updated_at: self.updated_at,
            groups: match self.groups {
                Some(g) => Some(texts(g@)),
                None => None,
            },
        }
    }
}

impl UserInfo {
    /// The profile in which nothing is set.
    pub open spec fn unset() -> UserInfo {
        UserInfo {
            name: None,
            preferred_username: None,
            picture: None,
            email: None,
            gender: None,
            updated_at: None,
            groups: None,
        }
    }
}

impl Default for UserInfo {
    fn default() -> (r: UserInfo)
        ensures
            r == UserInfo::unset(),
    {
        UserInfo {
            name: None,
            preferred_username: None,
            picture: None,
            email: None,
            gender: None,
            updated_at: None,
            groups: None,
        }
    }
}

impl From<UserinfoClaims> for UserInfo {
    /// Takes each attribute over as the provider sent it. The groups are not
    /// among these claims and stay unset.
    fn from(user: UserinfoClaims) -> (r: UserInfo) {
        UserInfo {
            name: user.name,
            preferred_username: user.preferred_username,
            picture: user.picture,
            email: user.email,
            gender: user.gender,
            updated_at: user.updated_at,
            groups: None,
        }
    }
}

impl vstd::std_specs::convert::FromSpecImpl<UserinfoClaims> for UserInfo {
    open spec fn obeys_from_spec() -> bool {
        true
    }

    open spec fn from_spec(user: UserinfoClaims) -> UserInfo {
        UserInfo {
            name: user.name,
            preferred_username: user.preferred_username,
            picture: user.picture,
            email: user.email,
            gender: user.gender,
            updated_at: user.updated_at,
            groups: None,
        }
    }
}

} // verus!
