use fofo::api::category::GetCategoriesQuery;
use fofo::api::comment::GetCommentsQuery;
use fofo::api::error::{DetailError, DetailErrorCode};
use fofo::api::group::GetGroupsQuery;
use fofo::api::post::GetPostQuery;
use fofo::api::user::{GetUsersQuery, GetUsersSort, ToLoginUser};
use fofo::api::util::{GetDatasExtended, ListSlice, VerificationTargetWrapper, Verify};
use fofo::config::{Config, LocalStorageConfig};
use fofo::content::ContentType;
use fofo::model::category::{CategoryStatus, CategoryToCreate};
use fofo::model::post::PostToCreate;
use fofo::model::user::{UserToCreate, UserToUpdate, UserType};

fn wrap<T>(target: T) -> VerificationTargetWrapper<T> {
    VerificationTargetWrapper { target, verification: None }
}

fn err_of(r: Result<(), DetailError>) -> (DetailErrorCode, String) {
    let e = r.unwrap_err();
    (e.code, e.msg)
}

fn post(title: &str, content: &str, tags: &[&str]) -> PostToCreate {
    PostToCreate {
        title: title.to_string(),
        content: content.to_string(),
        content_type: ContentType::Markdown,
        category_id: 1,
        tags: tags.iter().map(|t| t.to_string()).collect(),
        cover_url: None,
        top_index: 0,
    }
}

#[test]
fn request_defaults() {
    assert!(!GetCategoriesQuery::default_extended());
    assert!(!GetGroupsQuery::default_extended());
    assert!(!GetUsersQuery::default_extended());
    assert!(GetCommentsQuery::enable());
    assert!(GetPostQuery::enable());
    assert_eq!(GetPostQuery::default_time_num(), 1);
    assert_eq!(GetPostQuery::default_time(), "lifetime");
}

#[test]
fn error_codes() {
    assert_eq!(DetailErrorCode::InternalError.code(), 10000);
    assert_eq!(DetailErrorCode::FetchLimit.code(), 10004);
    assert_eq!(DetailErrorCode::NoPermission.code(), 10202);
    assert_eq!(DetailErrorCode::PasswordNotMatch.code(), 10305);
    assert_eq!(DetailErrorCode::ReplyCommentMissing.code(), 10804);
    assert_eq!(DetailErrorCode::TooManyTags.code(), 10902);
    assert_eq!(DetailErrorCode::PostArchived.code(), 11003);
}

#[test]
fn sort_columns() {
    assert_eq!(GetUsersSort::Id.to_string(), "id");
    assert_eq!(GetUsersSort::Username.to_string(), "username");
    assert_eq!(GetUsersSort::Alias.to_string(), "alias");
    assert_eq!(GetUsersSort::UserLevel.to_string(), "user_level");
}

#[test]
fn new_user_checks() {
    let ok = UserToCreate {
        email: "a@b.cd".to_string(),
        username: "alice1".to_string(),
        password: "secret123".to_string(),
        alias: "Alice".to_string(),
    };
    assert!(wrap(ok.clone()).verify().is_ok());
    let mut bad = ok.clone();
    bad.email = "nope".to_string();
    bad.username = "A".to_string();
    assert_eq!(
        err_of(wrap(bad).verify()),
        (DetailErrorCode::IllegalText, "The email is illegal!".to_string())
    );
    let mut bad = ok.clone();
    bad.username = "A".to_string();
    assert_eq!(
        err_of(wrap(bad).verify()),
        (DetailErrorCode::IllegalText, "The username is illegal!".to_string())
    );
    let mut bad = ok;
    bad.password = "short1".to_string();
    assert_eq!(
        err_of(wrap(bad).verify()),
        (DetailErrorCode::IllegalText, "The password is illegal!".to_string())
    );
}

#[test]
fn user_update_and_login_checks() {
    let upd = UserToUpdate {
        email: "a@b.cd".to_string(),
        password: "nodigits".to_string(),
        alias: "A".to_string(),
        avatar_url: None,
        signature: String::new(),
    };
    assert_eq!(
        err_of(wrap(upd).verify()),
        (DetailErrorCode::IllegalText, "The password is illegal!".to_string())
    );
    let login = ToLoginUser { username: "bob".to_string(), password: "secret123".to_string() };
    assert_eq!(
        err_of(wrap(login).verify()),
        (DetailErrorCode::IllegalText, "The username is illegal!".to_string())
    );
    let login = ToLoginUser { username: "bobby".to_string(), password: "secret123".to_string() };
    assert!(wrap(login).verify().is_ok());
}

#[test]
fn category_checks() {
    let c = CategoryToCreate {
        title: " padded".to_string(),
        description: "d".to_string(),
        description_content_type: ContentType::Markdown,
        status: CategoryStatus::Active,
        read_level: UserType::Guest,
        write_level: UserType::General,
        comment_level: UserType::General,
        moderator_ids: vec![],
        group_ids: vec![],
        cover_url: None,
    };
    assert_eq!(
        err_of(wrap(c.clone()).verify()),
        (DetailErrorCode::IllegalText, "The title is illegal!".to_string())
    );
    let mut c2 = c.clone();
    c2.title = "News".to_string();
    c2.description = "x".repeat(65536);
    assert_eq!(
        err_of(wrap(c2.clone()).verify()),
        (DetailErrorCode::IllegalText, "The content is illegal!".to_string())
    );
    c2.description = "about".to_string();
    assert!(wrap(c2).verify().is_ok());
}

#[test]
fn post_checks() {
    assert!(wrap(post("Title", "body", &["a", "b"])).verify().is_ok());
    let ten = ["t"; 10];
    assert_eq!(
        err_of(wrap(post("Title", "body", &ten)).verify()),
        (DetailErrorCode::TooManyTags, "Too many tags!".to_string())
    );
    assert!(wrap(post("Title", "body", &["t"; 9])).verify().is_ok());
    assert_eq!(
        err_of(wrap(post("Title", "body", &["ok", " x", "\ty"])).verify()),
        (DetailErrorCode::IllegalText, "The tag ` x` is illegal!".to_string())
    );
    assert_eq!(
        err_of(wrap(post("", "body", &["ok"])).verify()),
        (DetailErrorCode::IllegalText, "The title is illegal!".to_string())
    );
}

#[test]
fn listings() {
    let s: ListSlice<u32> = ListSlice::empty();
    assert!(s.items.is_empty());
    assert_eq!(s.total, 0);
    let mut d: GetDatasExtended<u32> = GetDatasExtended::empty();
    assert!(d.posts.is_none() && d.users.is_none() && d.comments_like_status.is_none());
    d.set_data(ListSlice { items: vec![1, 2], total: 7 });
    assert_eq!(d.data.items, vec![1, 2]);
    assert_eq!(d.data.total, 7);
    assert!(d.groups.is_none());
}

#[test]
fn config_defaults() {
    let c = Config::default();
    assert_eq!(c.buffer_size, 999);
    assert_eq!(c.fetch_limit, 30);
    assert_eq!(c.task_trigger_ms, 500);
    assert_eq!(c.editable_seconds, 1800);
    assert_eq!(c.log_level, "info");
    assert_eq!(c.image_format, "jpeg");
    assert!(c.s3.is_none());
    assert_eq!(LocalStorageConfig::default_max_bytes(), 2 * 1024 * 1024);
    assert_eq!(LocalStorageConfig::default_public_url(), "");
}
