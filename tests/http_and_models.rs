use seria::client::SeriaClientBuilder;
use seria::error::SeriaError;
use seria::http::{Endpoint, HttpConfig};
use seria::models::permission::{Permission, PermissionFlag, UserPermission, UserPermissionFlag};
use seria::models::{CheckRelationship, MessageSend, RelationshipStatus, UserRelationship};

#[test]
fn endpoint_paths() {
    assert_eq!(Endpoint::User("@me".to_string()).path(), "/users/@me");
    assert_eq!(Endpoint::UserFlags("u1".to_string()).path(), "/users/u1/flags");
    assert_eq!(Endpoint::BotCreate().path(), "/bots/create");
    assert_eq!(
        Endpoint::ChannelMessageReaction("c".to_string(), "m".to_string(), "e".to_string()).path(),
        "/channels/c/messages/m/reactions/e"
    );
    assert_eq!(
        Endpoint::ChannelMessageAck("c".to_string(), "m".to_string()).path(),
        "/channels/c/ack/m"
    );
    assert_eq!(Endpoint::ServerRoles("s".to_string()).path(), "/server/s/roles");
    assert_eq!(Endpoint::UserSafety().path(), "/safety/report");
    assert_eq!(Endpoint::Emoji("x".to_string()).path(), "/custom/emoji/x");
}

#[test]
fn urls_join_base_and_path() {
    let c = HttpConfig::new("t").unwrap();
    assert_eq!(c.api_url, "https://api.revolt.chat");
    assert_eq!(c.make_url("users/@me"), "https://api.revolt.chat/users/@me");
    assert_eq!(c.make_url("/users/@me"), "https://api.revolt.chat//users/@me");
    let slashed = HttpConfig { token: "t".to_string(), api_url: "http://h///".to_string() };
    assert_eq!(slashed.make_url("p"), "http://h/p");
}

#[test]
fn http_config_refuses_empty_token() {
    assert!(matches!(HttpConfig::new(""), Err(SeriaError::Other(m)) if m == "Token cannot be empty"));
}

#[test]
fn builder_needs_a_token() {
    assert!(matches!(
        SeriaClientBuilder::new().configs(),
        Err(SeriaError::Other(m)) if m == "Token must be provided"
    ));
    assert!(matches!(
        SeriaClientBuilder::new().token("").configs(),
        Err(SeriaError::Other(m)) if m == "Token cannot be empty"
    ));
    let (http, gateway) = SeriaClientBuilder::new().token("abc").configs().unwrap();
    assert_eq!(http.token, "abc");
    assert_eq!(gateway.token, "abc");
}

#[test]
fn permission_bits() {
    let mut p = Permission::default();
    assert!(p.is_empty());
    p.insert(PermissionFlag::SendMessage);
    p.insert(PermissionFlag::MoveMembers);
    assert_eq!(p.0, (1 << 22) | (1 << 35));
    assert!(p.contains(PermissionFlag::SendMessage));
    assert!(!p.contains(PermissionFlag::ManageChannel));
    p.remove(PermissionFlag::SendMessage);
    assert!(!p.contains(PermissionFlag::SendMessage));
    assert!(p.contains(PermissionFlag::MoveMembers));
    p.remove(PermissionFlag::MoveMembers);
    assert!(p.is_empty());
    assert_eq!(PermissionFlag::KickMembers.bits(), 1 << 6);
}

#[test]
fn user_permission_bits() {
    let mut p = UserPermission(0);
    p.insert(UserPermissionFlag::Invite);
    assert_eq!(p.0, 8);
    assert!(p.contains(UserPermissionFlag::Invite));
    assert!(!p.contains(UserPermissionFlag::Access));
    p.remove(UserPermissionFlag::Invite);
    assert!(p.is_empty());
}

#[test]
fn relationship_lookup_takes_first_match() {
    let rels = vec![
        UserRelationship { id: "a".to_string(), status: RelationshipStatus::Friend },
        UserRelationship { id: "b".to_string(), status: RelationshipStatus::Blocked },
        UserRelationship { id: "a".to_string(), status: RelationshipStatus::Incoming },
    ];
    assert_eq!(rels.with("a"), RelationshipStatus::Friend);
    assert_eq!(rels.with("b"), RelationshipStatus::Blocked);
    assert_eq!(rels.with("z"), RelationshipStatus::Unrelated);
    assert_eq!(Vec::<UserRelationship>::new().with("a"), RelationshipStatus::Unrelated);
}

#[test]
fn message_send_from_text_and_reply() {
    let m = MessageSend::from("hello");
    assert_eq!(m.content, "hello");
    assert!(m.replies.is_empty() && m.attachments.is_empty() && m.flags.is_none());
    let r = m.with_reply("m1", true);
    assert_eq!(r.content, "hello");
    assert_eq!(r.replies.len(), 1);
    assert_eq!(r.replies[0].id, "m1");
    assert!(r.replies[0].mention);
    assert!(r.replies[0].fail_if_not_exists);
    let s = MessageSend::from("x".to_string()).with_reply("m2", false);
    assert!(!s.replies[0].mention);
}
