use rbac_user::profile::{UserInfo, UserinfoClaims};
use url::Url;

fn claims() -> UserinfoClaims {
    UserinfoClaims {
        sub: String::from("24400320"),
        name: Some(String::from("Jane Doe")),
        preferred_username: Some(String::from("j.doe")),
        picture: Some(Url::parse("https://example.com/jane.png").unwrap()),
        email: Some(String::from("jane@example.com")),
        gender: Some(String::from("female")),
        updated_at: Some(1700000000),
    }
}

#[test]
fn claims_map_straight_across() {
    let info = UserInfo::from(claims());
    assert_eq!(
        info,
        UserInfo {
            name: Some(String::from("Jane Doe")),
            preferred_username: Some(String::from("j.doe")),
            picture: Some(Url::parse("https://example.com/jane.png").unwrap()),
            email: Some(String::from("jane@example.com")),
            gender: Some(String::from("female")),
            updated_at: Some(1700000000),
            groups: None,
        }
    );
}

#[test]
fn claims_never_set_the_groups() {
    assert_eq!(UserInfo::from(claims()).groups, None);
}

#[test]
fn absent_claims_stay_unset() {
    let info = UserInfo::from(UserinfoClaims {
        sub: String::from("s"),
        name: None,
        preferred_username: None,
        picture: None,
        email: None,
        gender: None,
        updated_at: None,
    });
    assert_eq!(info, UserInfo::default());
    assert_eq!(info.name, None);
    assert_eq!(info.updated_at, None);
}

#[test]
fn empty_and_zero_claims_are_not_unset() {
    let info = UserInfo::from(UserinfoClaims {
        sub: String::new(),
        name: Some(String::new()),
        preferred_username: None,
        picture: None,
        email: Some(String::new()),
        gender: None,
        updated_at: Some(0),
    });
    assert_eq!(info.name, Some(String::new()));
    assert_eq!(info.email, Some(String::new()));
    assert_eq!(info.updated_at, Some(0));
    assert_eq!(info.preferred_username, None);
    assert_ne!(info, UserInfo::default());
}

#[test]
fn into_gives_the_same_as_from() {
    let info: UserInfo = claims().into();
    assert_eq!(info, UserInfo::from(claims()));
}

#[test]
fn default_profile_has_nothing_set() {
    assert_eq!(
        UserInfo::default(),
        UserInfo {
            name: None,
            preferred_username: None,
            picture: None,
            email: None,
            gender: None,
            updated_at: None,
            groups: None,
        }
    );
}
