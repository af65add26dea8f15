use fofo::api::storage::SignedFlag;
use fofo::model::object::ObjectFlag;
use fofo::model::post::PostFilterTime;
use fofo::model::user::{SafeUserInfo, UserInfo, UserStatus, UserType};
use fofo::request_client::RequestClient;

fn user(user_type: UserType) -> UserInfo {
    UserInfo {
        id: 3,
        email: "a@b.cd".to_string(),
        username: "alice1".to_string(),
        alias: "Alice".to_string(),
        password: "secret123".to_string(),
        group_ids: vec![1, 2],
        status: UserStatus::Active,
        user_type,
        avatar_url: None,
        signature: "hi".to_string(),
        created_at: 100,
        total_post: 4,
        total_comment: 5,
    }
}

#[test]
fn filter_time_names() {
    assert_eq!(PostFilterTime::from_str("lifetime", 3), PostFilterTime::Lifetime);
    assert_eq!(PostFilterTime::from_str("day", 3), PostFilterTime::Day(3));
    assert_eq!(PostFilterTime::from_str("week", 2), PostFilterTime::Week(2));
    assert_eq!(PostFilterTime::from_str("month", 5), PostFilterTime::Month(5));
    assert_eq!(PostFilterTime::from_str("year", 1), PostFilterTime::Year(1));
    assert_eq!(PostFilterTime::from_str("bogus", 9), PostFilterTime::Week(1));
    assert!(PostFilterTime::Lifetime.is_lifetime());
    assert!(!PostFilterTime::Day(1).is_lifetime());
}

#[test]
fn filter_time_spans() {
    assert_eq!(PostFilterTime::Lifetime.days(), u32::MAX);
    assert_eq!(PostFilterTime::Day(0).days(), 1);
    assert_eq!(PostFilterTime::Day(4).days(), 4);
    assert_eq!(PostFilterTime::Week(0).days(), 7);
    assert_eq!(PostFilterTime::Week(2).days(), 14);
    assert_eq!(PostFilterTime::Month(3).days(), 90);
    assert_eq!(PostFilterTime::Year(2).days(), 730);
    assert_eq!(PostFilterTime::Day(1).to_timestamp(true, 1_000_000), 1_000_000 - 86400);
    assert_eq!(PostFilterTime::Week(1).to_timestamp(false, 1_000_000), 1_000_000 + 7 * 86400);
    assert_eq!(PostFilterTime::Day(1).to_timestamp(true, 0), (-86400i64) as u32);
}

#[test]
fn admins() {
    assert!(user(UserType::Administrator).is_admin());
    assert!(!user(UserType::General).is_admin());
    assert!(!user(UserType::Guest).is_admin());
}

#[test]
fn safe_user_drops_secrets() {
    let safe: SafeUserInfo = user(UserType::General).into();
    assert_eq!(safe.id, 3);
    assert_eq!(safe.username, "alice1");
    assert_eq!(safe.alias, "Alice");
    assert_eq!(safe.group_ids, vec![1, 2]);
    assert_eq!(safe.signature, "hi");
    assert_eq!(safe.total_comment, 5);
}

#[test]
fn signed_flags_map_to_object_flags() {
    assert_eq!(ObjectFlag::from(SignedFlag::UserAvatar), ObjectFlag::UserAvatar);
    assert_eq!(ObjectFlag::from(SignedFlag::PostCover), ObjectFlag::PostCover);
    assert_eq!(ObjectFlag::from(SignedFlag::CategoryCover), ObjectFlag::CategoryCover);
}

#[test]
fn request_clients() {
    let guest = RequestClient::new(None);
    assert!(!guest.is_logined());
    assert!(guest.get_user().is_none());
    let member = RequestClient::new(Some(user(UserType::General)));
    assert!(member.is_logined());
    assert_eq!(member.get_user().unwrap().id, 3);
    assert_eq!(member.get_user_unwrap().username, "alice1");
}
