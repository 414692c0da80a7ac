use bucket_access_control::entity::{Entity, Role, Team};

#[test]
fn special_entities_have_fixed_text() {
    assert_eq!(Entity::AllUsers.to_string(), "allUsers");
    assert_eq!(Entity::AllAuthenticatedUsers.to_string(), "allAuthenticatedUsers");
}

#[test]
fn principals_are_prefixed_by_kind() {
    assert_eq!(Entity::User("me@example.com".to_string()).to_string(), "user-me@example.com");
    assert_eq!(Entity::Group("00b4903a97".to_string()).to_string(), "group-00b4903a97");
    assert_eq!(Entity::Domain("example.com".to_string()).to_string(), "domain-example.com");
}

#[test]
fn project_teams_name_team_and_project() {
    assert_eq!(
        Entity::Project(Team::Editors, "123".to_string()).to_string(),
        "project-editors-123"
    );
    assert_eq!(
        Entity::Project(Team::Owners, "p-1".to_string()).to_string(),
        "project-owners-p-1"
    );
    assert_eq!(Entity::Project(Team::Viewers, String::new()).to_string(), "project-viewers-");
}

#[test]
fn empty_identifier_leaves_the_prefix() {
    assert_eq!(Entity::User(String::new()).to_string(), "user-");
}

#[test]
fn roles_and_teams_have_wire_names() {
    assert_eq!(Role::Owner.as_str(), "OWNER");
    assert_eq!(Role::Reader.as_str(), "READER");
    assert_eq!(Team::Editors.as_str(), "editors");
    assert_eq!(Team::Owners.as_str(), "owners");
    assert_eq!(Team::Viewers.as_str(), "viewers");
}
