use bucket_access_control::entity::{Entity, Role, Team};
use bucket_access_control::text::{same_text, strip_prefix};

#[test]
fn special_entities_are_read() {
    assert_eq!(Entity::parse("allUsers"), Some(Entity::AllUsers));
    assert_eq!(Entity::parse("allAuthenticatedUsers"), Some(Entity::AllAuthenticatedUsers));
}

#[test]
fn principals_are_read_by_prefix() {
    assert_eq!(
        Entity::parse("user-me@example.com"),
        Some(Entity::User("me@example.com".to_string()))
    );
    assert_eq!(Entity::parse("group-a/b"), Some(Entity::Group("a/b".to_string())));
    assert_eq!(Entity::parse("domain-exämple.com"), Some(Entity::Domain("exämple.com".to_string())));
    assert_eq!(Entity::parse("user-"), Some(Entity::User(String::new())));
}

#[test]
fn project_teams_are_read() {
    assert_eq!(
        Entity::parse("project-editors-123"),
        Some(Entity::Project(Team::Editors, "123".to_string()))
    );
    assert_eq!(
        Entity::parse("project-owners-p-1"),
        Some(Entity::Project(Team::Owners, "p-1".to_string()))
    );
    assert_eq!(
        Entity::parse("project-viewers-"),
        Some(Entity::Project(Team::Viewers, String::new()))
    );
}

#[test]
fn other_text_is_no_entity() {
    assert_eq!(Entity::parse(""), None);
    assert_eq!(Entity::parse("user"), None);
    assert_eq!(Entity::parse("User-me"), None);
    assert_eq!(Entity::parse("allusers"), None);
    assert_eq!(Entity::parse("allUsers "), None);
    assert_eq!(Entity::parse("project-nobody-1"), None);
    assert_eq!(Entity::parse("project-editors"), None);
    assert_eq!(Entity::parse("project-"), None);
}

#[test]
fn reading_gives_back_what_was_written() {
    let entities = vec![
        Entity::User("me@example.com".to_string()),
        Entity::User("user-".to_string()),
        Entity::Group("project-editors-1".to_string()),
        Entity::Domain(String::new()),
        Entity::Project(Team::Editors, "a-b".to_string()),
        Entity::Project(Team::Owners, "日本".to_string()),
        Entity::Project(Team::Viewers, "1".to_string()),
        Entity::AllUsers,
        Entity::AllAuthenticatedUsers,
    ];
    for entity in entities {
        assert_eq!(Entity::parse(&entity.to_string()), Some(entity));
    }
}

#[test]
fn roles_are_read_by_name() {
    assert_eq!(Role::parse("OWNER"), Some(Role::Owner));
    assert_eq!(Role::parse("READER"), Some(Role::Reader));
    assert_eq!(Role::parse("reader"), None);
    assert_eq!(Role::parse("READERS"), None);
    assert_eq!(Role::parse(""), None);
    assert_eq!(Role::parse(Role::Owner.as_str()), Some(Role::Owner));
}

#[test]
fn prefix_is_taken_off() {
    assert_eq!(strip_prefix("user-me", "user-"), Some("me"));
    assert_eq!(strip_prefix("user-", "user-"), Some(""));
    assert_eq!(strip_prefix("abc", ""), Some("abc"));
    assert_eq!(strip_prefix("éa日", "éa"), Some("日"));
}

#[test]
fn missing_prefix_gives_nothing() {
    assert_eq!(strip_prefix("use", "user-"), None);
    assert_eq!(strip_prefix("usex-me", "user-"), None);
    assert_eq!(strip_prefix("", "a"), None);
}

#[test]
fn texts_are_compared_whole() {
    assert!(same_text("", ""));
    assert!(same_text("allUsers", "allUsers"));
    assert!(!same_text("allUsers", "allUser"));
    assert!(!same_text("allUser", "allUsers"));
    assert!(!same_text("allUsers", "allusers"));
}
