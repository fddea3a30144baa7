use annotation_store::handlers::login;
use annotation_store::models::{LoginRequest, User, UserInfo};
use annotation_store::services::UserService;

fn request(username: &str, password: &str) -> LoginRequest {
    LoginRequest { username: username.to_string(), password: password.to_string() }
}

#[test]
fn user_new_keeps_its_fields() {
    let user = User::new("erin".to_string(), "pw".to_string(), "user".to_string());
    assert_eq!(user.username, "erin");
    assert_eq!(user.password, "pw");
    assert_eq!(user.role, "user");
    let copy = user.clone();
    assert_eq!(copy.username, "erin");
    assert_eq!(copy.password, "pw");
    assert_eq!(copy.role, "user");
}

#[test]
fn user_info_is_plain_data() {
    let info = UserInfo { username: "erin".to_string(), role: "user".to_string() };
    assert_eq!(info.username, "erin");
    assert_eq!(info.role, "user");
}

#[test]
fn register_starts_with_six_users() {
    let service = UserService::new();
    let mut names = service.get_all_usernames();
    names.sort();
    assert_eq!(
        names,
        vec![
            "admin".to_string(),
            "alice".to_string(),
            "bob".to_string(),
            "charlie".to_string(),
            "diana".to_string(),
            "user".to_string(),
        ]
    );
}

#[test]
fn get_user_finds_by_name() {
    let service = UserService::new();
    let admin = service.get_user("admin").expect("admin is registered");
    assert_eq!(admin.username, "admin");
    assert_eq!(admin.role, "admin");
    let alice = service.get_user("alice").expect("alice is registered");
    assert_eq!(alice.role, "user");
    assert_eq!(alice.password, "alice123");
    assert!(service.get_user("mallory").is_none());
    assert!(service.get_user("Admin").is_none());
}

#[test]
fn authenticate_wants_the_users_own_password() {
    let service = UserService::new();
    assert_eq!(service.authenticate("bob", "bob123").unwrap().username, "bob");
    assert!(service.authenticate("bob", "alice123").is_none());
    assert!(service.authenticate("bob", "").is_none());
    assert!(service.authenticate("mallory", "bob123").is_none());
    assert!(service.authenticate("", "").is_none());
}

#[test]
fn login_reports_name_and_role() {
    let service = UserService::new();
    let answer = login(&service, &request("admin", "admin123")).expect("the password is right");
    assert!(answer.success);
    assert_eq!(answer.username, "admin");
    assert_eq!(answer.role, "admin");
    assert_eq!(answer.message, "Login successful");
    let answer = login(&service, &request("diana", "diana123")).unwrap();
    assert_eq!(answer.role, "user");
}

#[test]
fn login_refuses_wrong_credentials() {
    let service = UserService::new();
    assert!(login(&service, &request("admin", "admin")).is_none());
    assert!(login(&service, &request("nobody", "admin123")).is_none());
}
