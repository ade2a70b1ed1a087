use azure_mgmt::error::SimpleError;
use azure_mgmt::permission::rbac::has_nul;
use azure_mgmt::permission::rbac::HasRbacPermission;
use azure_mgmt::permission::rbac::RbacManager;
use azure_mgmt::permission::rbac::Role;
use azure_mgmt::permission::rbac::UserId;
use azure_mgmt::permission::command_route;
use azure_mgmt::permission::server_name;
use azure_mgmt::permission::ts_route;
use azure_mgmt::permission::ConnectPermission;
use azure_mgmt::permission::DisconnectPermission;
use azure_mgmt::permission::PingPermission;
use azure_mgmt::permission::RbacPermission;
use azure_mgmt::permission::StartPermission;
use azure_mgmt::permission::StopPermission;
use azure_mgmt::permission::CMD_PREFIX;

fn usage(r: Result<&str, SimpleError>) -> String {
    match r {
        Err(SimpleError::UsageError(text)) => text,
        other => panic!("unexpected: {:?}", other),
    }
}

fn routes(list: &[&str]) -> Vec<String> {
    list.iter().map(|s| (*s).to_owned()).collect()
}

fn manager() -> RbacManager {
    let mut rbac = RbacManager::new();
    assert!(rbac.add_role(Role("admin".to_owned()), &routes(&["/*all"])));
    assert!(rbac.add_role(
        Role("player".to_owned()),
        &routes(&["/ping", "/mc/start", "/:server/stop"])
    ));
    assert!(rbac.add_role(Role("guest".to_owned()), &routes(&[])));
    rbac.add_user(UserId(1), vec![Role("admin".to_owned())]);
    rbac.add_user(
        UserId(2),
        vec![Role("guest".to_owned()), Role("player".to_owned())],
    );
    rbac.add_user(UserId(3), vec![Role("unknown".to_owned())]);
    rbac.add_user(UserId(4), vec![]);
    rbac
}

#[test]
fn fixed_routes() {
    assert_eq!(CMD_PREFIX, "~");
    assert_eq!(PingPermission.rbac(), "/ping");
    assert_eq!(ConnectPermission.rbac(), "/ts/connect");
    assert_eq!(DisconnectPermission.rbac(), "/ts/disconnect");
}

#[test]
fn routes_with_the_server_name() {
    assert_eq!(StartPermission("mc".to_owned()).rbac(), "/mc/start");
    assert_eq!(StopPermission("mc".to_owned()).rbac(), "/mc/stop");
    assert_eq!(StartPermission(String::new()).rbac(), "//start");
}

#[test]
fn server_name_follows_the_command() {
    assert_eq!(server_name("~start mc", "start").unwrap(), "mc");
    assert_eq!(server_name("~stop mc one", "stop").unwrap(), "mc one");
    assert_eq!(server_name("~start  x", "start").unwrap(), " x");
    assert_eq!(server_name("~start \u{e9}", "start").unwrap(), "\u{e9}");
}

#[test]
fn missing_server_name_is_a_usage_error() {
    assert_eq!(usage(server_name("~start", "start")), "Syntax: ~start <instance>.");
    assert_eq!(usage(server_name("~start ", "start")), "Syntax: ~start <instance>.");
    assert_eq!(usage(server_name("~stop", "stop")), "Syntax: ~stop <instance>.");
    assert_eq!(usage(server_name("", "stop")), "Syntax: ~stop <instance>.");
}

#[test]
fn a_name_that_would_begin_inside_a_character_is_a_usage_error() {
    assert_eq!(
        usage(server_name("~start\u{e9}x", "start")),
        "Syntax: ~start <instance>."
    );
}

#[test]
fn permissions_from_messages() {
    assert_eq!(StartPermission::from_message("~start mc").unwrap().0, "mc");
    assert_eq!(StopPermission::from_message("~stop mc").unwrap().0, "mc");
    match StartPermission::from_message("~start") {
        Err(SimpleError::UsageError(text)) => assert_eq!(text, "Syntax: ~start <instance>."),
        other => panic!("unexpected: {:?}", other),
    }
    match StopPermission::from_message("~stop ") {
        Err(SimpleError::UsageError(text)) => assert_eq!(text, "Syntax: ~stop <instance>."),
        other => panic!("unexpected: {:?}", other),
    }
}

#[test]
fn roles_are_matched_against_their_routes() {
    let rbac = manager();
    assert!(rbac.role_allows("player", "/ping"));
    assert!(rbac.role_allows("player", "/mc/start"));
    assert!(!rbac.role_allows("player", "/other/start"));
    assert!(rbac.role_allows("player", "/other/stop"));
    assert!(!rbac.role_allows("player", "/ts/connect"));
    assert!(rbac.role_allows("admin", "/ts/connect"));
    assert!(!rbac.role_allows("guest", "/ping"));
    assert!(!rbac.role_allows("nobody", "/ping"));
}

#[test]
fn users_may_what_one_of_their_roles_may() {
    let rbac = manager();
    assert!(rbac.user_allows(UserId(1), "/anything"));
    assert!(rbac.user_allows(UserId(2), "/ping"));
    assert!(!rbac.user_allows(UserId(2), "/ts/connect"));
    assert!(!rbac.user_allows(UserId(3), "/ping"));
    assert!(!rbac.user_allows(UserId(4), "/ping"));
    assert!(!rbac.user_allows(UserId(5), "/ping"));
}

#[test]
fn permissions_are_asked_by_their_routes() {
    let rbac = manager();
    assert!(UserId(2).has_permission(&PingPermission, &rbac));
    assert!(UserId(2).has_permission(&StartPermission("mc".to_owned()), &rbac));
    assert!(!UserId(2).has_permission(&StartPermission("web".to_owned()), &rbac));
    assert!(UserId(2).has_permission(&StopPermission("web".to_owned()), &rbac));
    assert!(!UserId(2).has_permission(&ConnectPermission, &rbac));
    assert!(UserId(1).has_permission(&DisconnectPermission, &rbac));
    assert!(Role("player".to_owned()).has_permission(&PingPermission, &rbac));
    assert!(!Role("guest".to_owned()).has_permission(&PingPermission, &rbac));
}

#[test]
fn later_routes_of_a_role_take_the_place_of_earlier_ones() {
    let mut rbac = manager();
    assert!(rbac.add_role(Role("player".to_owned()), &routes(&["/ts/connect"])));
    assert!(rbac.role_allows("player", "/ts/connect"));
    assert!(!rbac.role_allows("player", "/ping"));
    rbac.add_user(UserId(2), vec![Role("guest".to_owned())]);
    assert!(!rbac.user_allows(UserId(2), "/ts/connect"));
}

#[test]
fn a_route_outside_ascii_is_refused_and_changes_nothing() {
    let mut rbac = manager();
    assert!(!rbac.add_role(
        Role("player".to_owned()),
        &routes(&["/ts/connect", "/\u{e9}/start"])
    ));
    assert!(rbac.role_allows("player", "/ping"));
    assert!(!rbac.role_allows("player", "/ts/connect"));
}

#[test]
fn an_empty_manager_allows_nothing() {
    let rbac = RbacManager::new();
    assert!(!rbac.role_allows("admin", "/ping"));
    assert!(!rbac.user_allows(UserId(1), "/ping"));
}

#[test]
fn each_command_has_its_route() {
    assert_eq!(command_route("ping", "~ping").unwrap(), Some("/ping".to_owned()));
    assert_eq!(
        command_route("start", "~start mc").unwrap(),
        Some("/mc/start".to_owned())
    );
    assert_eq!(
        command_route("stop", "~stop web 2").unwrap(),
        Some("/web 2/stop".to_owned())
    );
    assert_eq!(
        command_route("ts", "~ts connect abc").unwrap(),
        Some("/ts/connect".to_owned())
    );
    assert_eq!(
        command_route("ts", "~ts disconnect").unwrap(),
        Some("/ts/disconnect".to_owned())
    );
}

#[test]
fn what_is_not_known_has_no_route() {
    assert_eq!(command_route("ts", "~ts list").unwrap(), None);
    assert_eq!(command_route("ts", "~ts").unwrap(), None);
    assert_eq!(command_route("help", "~help").unwrap(), None);
    assert_eq!(command_route("", "").unwrap(), None);
    assert_eq!(command_route("Ping", "~Ping").unwrap(), None);
}

#[test]
fn a_start_or_stop_without_a_server_is_a_usage_error() {
    match command_route("start", "~start") {
        Err(SimpleError::UsageError(text)) => assert_eq!(text, "Syntax: ~start <instance>."),
        other => panic!("unexpected: {:?}", other),
    }
    match command_route("stop", "~stop ") {
        Err(SimpleError::UsageError(text)) => assert_eq!(text, "Syntax: ~stop <instance>."),
        other => panic!("unexpected: {:?}", other),
    }
}

#[test]
fn sub_commands_of_ts() {
    assert_eq!(ts_route(Some("connect".to_owned())), Some("/ts/connect".to_owned()));
    assert_eq!(
        ts_route(Some("disconnect".to_owned())),
        Some("/ts/disconnect".to_owned())
    );
    assert_eq!(ts_route(Some("Connect".to_owned())), None);
    assert_eq!(ts_route(None), None);
}

#[test]
fn the_zero_character_is_found() {
    assert!(has_nul("\0"));
    assert!(has_nul("/a\0"));
    assert!(has_nul("\0/a"));
    assert!(!has_nul(""));
    assert!(!has_nul("/a/0"));
    assert!(!has_nul("\u{e9}\u{1}"));
}

#[test]
fn a_route_with_the_zero_character_is_refused_and_changes_nothing() {
    let mut rbac = manager();
    assert!(!rbac.add_role(Role("player".to_owned()), &routes(&["/a\0"])));
    assert!(!rbac.add_role(Role("other".to_owned()), &routes(&["/ping", "\0"])));
    assert!(rbac.role_allows("player", "/ping"));
    assert!(!rbac.role_allows("other", "/ping"));
}

#[test]
fn nobody_may_take_a_path_with_the_zero_character() {
    let rbac = manager();
    assert!(!rbac.role_allows("admin", "\0"));
    assert!(!rbac.role_allows("admin", "/a\0b"));
    assert!(!rbac.role_allows("player", "/\0/stop"));
    assert!(!rbac.user_allows(UserId(1), "/\0"));
    assert!(!UserId(1).has_permission(&StartPermission("\0".to_owned()), &rbac));
    assert!(!Role("admin".to_owned()).has_permission(&StopPermission("a\0".to_owned()), &rbac));
    assert!(rbac.role_allows("admin", "/\u{1}"));
    assert!(UserId(1).has_permission(&StartPermission("\u{e9}".to_owned()), &rbac));
}
