use bucket_access_control::client::BucketAccessControlClient;
use bucket_access_control::entity::{Entity, Team};
use bucket_access_control::escape::percent_decode;
use bucket_access_control::locator::{locate_collection, locate_member};

const BASE: &str = "https://storage.googleapis.com/storage/v1";

fn final_segment(url: &str) -> &str {
    match url.rfind('/') {
        Some(at) => &url[at + 1..],
        None => url,
    }
}

#[test]
fn collection_url_names_the_bucket() {
    assert_eq!(
        locate_collection(BASE, "my-bucket"),
        "https://storage.googleapis.com/storage/v1/b/my-bucket/acl"
    );
}

#[test]
fn collection_url_escapes_the_bucket() {
    assert_eq!(locate_collection("http://h", "a b/c"), "http://h/b/a%20b%2Fc/acl");
}

#[test]
fn member_url_appends_the_entity() {
    let collection = locate_collection(BASE, "my-bucket");
    assert_eq!(
        locate_member(&collection, &Entity::AllUsers),
        "https://storage.googleapis.com/storage/v1/b/my-bucket/acl/allUsers"
    );
    assert_eq!(
        locate_member(&collection, &Entity::User("me@example.com".to_string())),
        "https://storage.googleapis.com/storage/v1/b/my-bucket/acl/user-me%40example.com"
    );
}

#[test]
fn member_url_round_trips_every_kind_of_entity() {
    let client = BucketAccessControlClient::new(BASE, "my-bucket");
    let entities = vec![
        Entity::User("me@example.com".to_string()),
        Entity::Group("team/a@example.com".to_string()),
        Entity::Domain("exämple.com".to_string()),
        Entity::Project(Team::Viewers, "12/34".to_string()),
        Entity::AllUsers,
        Entity::AllAuthenticatedUsers,
    ];
    for entity in entities {
        let url = client.locate_member(&entity);
        let decoded = percent_decode(final_segment(&url));
        assert_eq!(String::from_utf8(decoded).unwrap(), entity.to_string());
    }
}

#[test]
fn reserved_characters_do_not_split_the_path() {
    let client = BucketAccessControlClient::new(BASE, "my-bucket");
    let collection = client.collection_url().to_string();
    let entity = Entity::Group("a/b/c@example.com".to_string());
    let url = client.locate_member(&entity);
    let slashes = |text: &str| text.matches('/').count();
    assert_eq!(slashes(&url), slashes(&collection) + 1);
    assert_eq!(final_segment(&url), "group-a%2Fb%2Fc%40example.com");
    assert!(!final_segment(&url).contains('@'));
}

#[test]
fn client_holds_the_collection_url() {
    let client = BucketAccessControlClient::new(BASE, "my-bucket");
    assert_eq!(
        client.collection_url(),
        "https://storage.googleapis.com/storage/v1/b/my-bucket/acl"
    );
}
