use trustee::layout::{generated_key_base, get_key_paths, join, key_pair_paths, resolve_home};

#[test]
fn join_puts_one_separator_between_directory_and_name() {
    assert_eq!(join("/home/user", "file"), "/home/user/file");
    assert_eq!(join("/home/user/", "file"), "/home/user/file");
    assert_eq!(join("", "file"), "file");
    assert_eq!(join("/", "file"), "/file");
    assert_eq!(join("relative", "auth_key.pem"), "relative/auth_key.pem");
}

#[test]
fn key_pair_paths_add_the_two_extensions() {
    assert_eq!(key_pair_paths("auth_key"), ("auth_key.pem".to_string(), "auth_key.pub".to_string()));
    assert_eq!(key_pair_paths("a/b.c"), ("a/b.c.pem".to_string(), "a/b.c.pub".to_string()));
    assert_eq!(key_pair_paths(""), (".pem".to_string(), ".pub".to_string()));
}

#[test]
fn key_paths_lie_under_the_base_directory() {
    assert_eq!(
        get_key_paths("/opt/store", "https_key"),
        ("/opt/store/https_key.pem".to_string(), "/opt/store/https_key.pub".to_string())
    );
    assert_eq!(
        get_key_paths("", "auth_key"),
        ("auth_key.pem".to_string(), "auth_key.pub".to_string())
    );
}

#[test]
fn stated_home_wins() {
    let home = resolve_home(Some("/srv/trust".to_string()), true, Some("/root".to_string()));
    assert_eq!(home, "/srv/trust");
    let home = resolve_home(Some("/srv/trust".to_string()), false, None);
    assert_eq!(home, "/srv/trust");
}

#[test]
fn superuser_gets_the_system_home() {
    assert_eq!(resolve_home(None, true, Some("/root".to_string())), "/opt/confidential-containers");
    assert_eq!(resolve_home(None, true, None), "/opt/confidential-containers");
}

#[test]
fn user_gets_a_home_under_their_own_directory() {
    assert_eq!(resolve_home(None, false, Some("/home/alice".to_string())), "/home/alice/.trustee");
    assert_eq!(resolve_home(None, false, None), ".trustee");
    assert_eq!(resolve_home(None, false, Some(String::new())), ".trustee");
}

#[test]
fn generated_key_goes_under_home_by_default() {
    assert_eq!(generated_key_base("/home/alice/.trustee"), "/home/alice/.trustee/key");
}
