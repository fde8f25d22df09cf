use blog_store::catalog::UserCatalog;
use blog_store::datetime::{DateTimeError, DateTimeScalar};
use blog_store::model::{CreatePostInput, Post, User};
use blog_store::repository::PostRepository;
use blog_store::resolver::{CreatePostError, Mutation, Query};

fn user(id: &str, name: &str, avatar: Option<&str>) -> User {
    User {
        id: id.to_string(),
        name: name.to_string(),
        avatar_url: avatar.map(|a| a.to_string()),
    }
}

fn seed_users() -> UserCatalog {
    UserCatalog::new(vec![
        user("1", "Keisuke", Some("https://example.com/avatar.png")),
        user("2", "Taro", None),
        user("3", "Hanako", None),
        user("4", "Jiro", None),
        user("5", "Saburo", None),
    ])
}

fn seed_posts() -> PostRepository {
    let mut posts = PostRepository::new();
    posts.insert(Post {
        id: "1".to_string(),
        title: "Hello".to_string(),
        author: user("1", "Keisuke", Some("https://example.com/avatar.png")),
        body: "The first post.".to_string(),
        tags: vec!["intro".to_string(), "blog".to_string()],
        published_at: DateTimeScalar::now(),
    });
    posts
}

fn input(title: &str, body: &str, tags: Option<Vec<&str>>, author: &str) -> CreatePostInput {
    CreatePostInput {
        title: title.to_string(),
        body: body.to_string(),
        tags: tags.map(|t| t.into_iter().map(|s| s.to_string()).collect()),
        author_id: author.to_string(),
    }
}

#[test]
fn reading_posts_twice_gives_equal_lists() {
    let posts = seed_posts();
    let first = Query.posts(&posts);
    let second = Query.posts(&posts);
    assert_eq!(first, second);
    assert_eq!(first.len(), 1);
    assert_eq!(first[0].id, "1");
}

#[test]
fn listed_posts_have_distinct_ids() {
    let users = seed_users();
    let mut posts = seed_posts();
    for author in ["1", "2", "3", "2"] {
        Mutation.create_post(&users, &mut posts, input("t", "b", None, author)).unwrap();
    }
    let listed = Query.posts(&posts);
    assert_eq!(listed.len(), 5);
    for i in 0..listed.len() {
        for j in 0..listed.len() {
            if i != j {
                assert_ne!(listed[i].id, listed[j].id);
            }
        }
    }
}

#[test]
fn created_post_snapshots_its_author() {
    let users = seed_users();
    let mut posts = seed_posts();
    let p = Mutation.create_post(&users, &mut posts, input("t", "b", None, "1")).unwrap();
    assert_eq!(Some(p.author.clone()), Query.user(&users, &"1".to_string()));
    assert_eq!(p.author.avatar_url, Some("https://example.com/avatar.png".to_string()));
}

#[test]
fn create_then_read() {
    let users = seed_users();
    let mut posts = seed_posts();
    let before = DateTimeScalar::now().timestamp();
    let p = Mutation
        .create_post(&users, &mut posts, input("T", "B", Some(vec!["x"]), "1"))
        .unwrap();
    let after = DateTimeScalar::now().timestamp();
    assert!(!p.id.is_empty());
    assert_eq!(p.id.len(), 36);
    assert_ne!(p.id, "1");
    assert_eq!(p.title, "T");
    assert_eq!(p.body, "B");
    assert_eq!(p.author.id, "1");
    assert_eq!(p.tags, vec!["x".to_string()]);
    assert!(before <= p.published_at.timestamp() && p.published_at.timestamp() <= after);
    assert_eq!(Query.post(&posts, &p.id), Some(p.clone()));
    assert_eq!(posts.len(), 2);
    assert_eq!(Query.posts(&posts)[1], p);
}

#[test]
fn create_without_tags_gives_none() {
    let users = seed_users();
    let mut posts = seed_posts();
    let p = Mutation.create_post(&users, &mut posts, input("T", "B", None, "2")).unwrap();
    assert!(p.tags.is_empty());
    assert_eq!(p.author, user("2", "Taro", None));
}

#[test]
fn create_keeps_tag_order_and_duplicates() {
    let users = seed_users();
    let mut posts = seed_posts();
    let p = Mutation
        .create_post(&users, &mut posts, input("T", "B", Some(vec!["b", "a", "b"]), "3"))
        .unwrap();
    assert_eq!(p.tags, vec!["b".to_string(), "a".to_string(), "b".to_string()]);
}

#[test]
fn create_with_unknown_author() {
    let users = seed_users();
    let mut posts = seed_posts();
    let before = Query.posts(&posts);
    let r = Mutation.create_post(&users, &mut posts, input("T", "B", None, "does-not-exist"));
    assert_eq!(r, Err(CreatePostError::AuthorNotFound));
    assert_eq!(Query.posts(&posts).len(), 1);
    assert_eq!(Query.posts(&posts), before);
}

#[test]
fn create_with_taken_id() {
    let users = seed_users();
    let mut posts = seed_posts();
    let before = Query.posts(&posts);
    let at = DateTimeScalar::now();
    let r = Mutation.create_post_with(&users, &mut posts, input("T", "B", None, "2"), "1".to_string(), at);
    assert_eq!(r, Err(CreatePostError::DuplicateId));
    assert_eq!(Query.posts(&posts), before);
}

#[test]
fn create_with_given_id_and_time() {
    let users = seed_users();
    let mut posts = seed_posts();
    let at = DateTimeScalar::parse(&"2024-01-02T03:04:05Z".to_string()).unwrap();
    let p = Mutation
        .create_post_with(&users, &mut posts, input("T", "B", Some(vec!["x"]), "4"), "abc".to_string(), at)
        .unwrap();
    assert_eq!(p.id, "abc");
    assert_eq!(p.published_at, at);
    assert_eq!(p.author, user("4", "Jiro", None));
    assert_eq!(Query.post(&posts, &"abc".to_string()), Some(p));
}

#[test]
fn create_with_given_id_and_unknown_author() {
    let users = seed_users();
    let mut posts = seed_posts();
    let at = DateTimeScalar::now();
    let r = Mutation.create_post_with(&users, &mut posts, input("T", "B", None, "9"), "1".to_string(), at);
    assert_eq!(r, Err(CreatePostError::AuthorNotFound));
    assert_eq!(posts.len(), 1);
}

#[test]
fn delete_existing() {
    let mut posts = seed_posts();
    assert!(Mutation.delete_post(&mut posts, &"1".to_string()));
    assert_eq!(Query.post(&posts, &"1".to_string()), None);
    assert!(Query.posts(&posts).is_empty());
}

#[test]
fn delete_missing() {
    let mut posts = seed_posts();
    let before = Query.posts(&posts);
    assert!(!Mutation.delete_post(&mut posts, &"unknown".to_string()));
    assert_eq!(Query.posts(&posts), before);
}

#[test]
fn delete_twice() {
    let mut posts = seed_posts();
    assert!(Mutation.delete_post(&mut posts, &"1".to_string()));
    assert!(!Mutation.delete_post(&mut posts, &"1".to_string()));
}

#[test]
fn delete_keeps_order_of_the_rest() {
    let users = seed_users();
    let mut posts = seed_posts();
    let a = Mutation.create_post(&users, &mut posts, input("a", "b", None, "1")).unwrap();
    let b = Mutation.create_post(&users, &mut posts, input("b", "b", None, "2")).unwrap();
    assert!(Mutation.delete_post(&mut posts, &a.id));
    let listed = Query.posts(&posts);
    assert_eq!(listed.len(), 2);
    assert_eq!(listed[0].id, "1");
    assert_eq!(listed[1], b);
}

#[test]
fn many_creates_give_that_many_distinct_posts() {
    let users = seed_users();
    let mut posts = seed_posts();
    let n: usize = 50;
    let mut ids: Vec<String> = Vec::new();
    for i in 0..n {
        let author = ["1", "2", "3", "4", "5"][i % 5];
        let title = format!("post {}", i);
        let p = Mutation.create_post(&users, &mut posts, input(&title, "b", None, author)).unwrap();
        ids.push(p.id);
    }
    assert_eq!(posts.len(), n + 1);
    let mut sorted = ids.clone();
    sorted.sort();
    sorted.dedup();
    assert_eq!(sorted.len(), n);
}

#[test]
fn user_lookup() {
    let users = seed_users();
    assert_eq!(Query.user(&users, &"3".to_string()), Some(user("3", "Hanako", None)));
    assert_eq!(Query.user(&users, &"6".to_string()), None);
    assert_eq!(users.len(), 5);
}

#[test]
fn user_lookup_takes_first_match() {
    let users = UserCatalog::new(vec![user("7", "first", None), user("7", "second", None)]);
    assert_eq!(Query.user(&users, &"7".to_string()), Some(user("7", "first", None)));
}

#[test]
fn post_lookup_missing() {
    let posts = seed_posts();
    assert_eq!(Query.post(&posts, &"2".to_string()), None);
    assert_eq!(Query.post(&posts, &"1".to_string()).unwrap().title, "Hello");
}

#[test]
fn empty_repository() {
    let mut posts = PostRepository::new();
    assert!(Query.posts(&posts).is_empty());
    assert!(!posts.contains_id(&"1".to_string()));
    assert!(!posts.remove_by_id(&"1".to_string()));
}

#[test]
fn parse_rfc3339_with_offset() {
    let d = DateTimeScalar::parse(&"1996-12-19T16:39:57-08:00".to_string()).unwrap();
    assert_eq!(d.timestamp(), 851042397);
    assert_eq!(d.subsec_nanos(), 0);
    assert_eq!(d.to_value(), "1996-12-20T00:39:57+00:00");
}

#[test]
fn parse_rfc3339_with_fraction() {
    let d = DateTimeScalar::parse(&"1970-01-01T00:00:01.5Z".to_string()).unwrap();
    assert_eq!(d.timestamp(), 1);
    assert_eq!(d.subsec_nanos(), 500_000_000);
    assert_eq!(d.to_value(), "1970-01-01T00:00:01.500+00:00");
}

#[test]
fn parse_leap_second() {
    let d = DateTimeScalar::parse(&"2016-12-31T23:59:60Z".to_string()).unwrap();
    assert_eq!(d.timestamp(), 1483228799);
    assert_eq!(d.subsec_nanos(), 1_000_000_000);
    assert_eq!(d.to_value(), "2016-12-31T23:59:60+00:00");
}

#[test]
fn parse_rejects_malformed_text() {
    for s in ["", "not a date", "2024-01-02", "2024-13-02T00:00:00Z", "2024-01-02T03:04:05"] {
        assert_eq!(DateTimeScalar::parse(&s.to_string()), Err(DateTimeError::InvalidFormat));
    }
}

#[test]
fn timestamp_round_trip() {
    let now = DateTimeScalar::now();
    let again = DateTimeScalar::parse(&now.to_value()).unwrap();
    assert_eq!(again, now);
}
