use blog_store::catalog::UserCatalog;
use blog_store::model::{CreatePostInput, User};
use blog_store::datetime::DateTimeScalar;
use blog_store::resolver::CreatePostError;
use blog_store::shared::SharedBlog;

fn shared_blog() -> SharedBlog {
    let users = UserCatalog::new(vec![
        User { id: "1".to_string(), name: "Keisuke".to_string(), avatar_url: None },
        User { id: "2".to_string(), name: "Taro".to_string(), avatar_url: None },
    ]);
    SharedBlog::new(users)
}

fn input(author: &str) -> CreatePostInput {
    CreatePostInput {
        title: "T".to_string(),
        body: "B".to_string(),
        tags: Some(vec!["x".to_string()]),
        author_id: author.to_string(),
    }
}

#[test]
fn shared_create_read_delete() {
    let blog = shared_blog();
    let p = blog.create_post(input("1")).unwrap();
    assert_eq!(p.id.len(), 36);
    assert_eq!(p.author.id, "1");
    assert_eq!(p.tags, vec!["x".to_string()]);
    assert_eq!(blog.post(&p.id), Some(p.clone()));
    assert_eq!(blog.posts(), vec![p.clone()]);
    assert!(blog.delete_post(&p.id));
    assert_eq!(blog.post(&p.id), None);
    assert!(!blog.delete_post(&p.id));
    assert!(blog.posts().is_empty());
}

#[test]
fn shared_create_with_unknown_author() {
    let blog = shared_blog();
    assert_eq!(blog.create_post(input("does-not-exist")), Err(CreatePostError::AuthorNotFound));
    assert!(blog.posts().is_empty());
}

#[test]
fn shared_user_lookup() {
    let blog = shared_blog();
    assert_eq!(blog.user(&"2".to_string()).unwrap().name, "Taro");
    assert_eq!(blog.user(&"3".to_string()), None);
}

#[test]
fn shared_reads_twice_agree() {
    let blog = shared_blog();
    blog.create_post(input("1")).unwrap();
    blog.create_post(input("2")).unwrap();
    assert_eq!(blog.posts(), blog.posts());
    assert_eq!(blog.posts().len(), 2);
}


#[test]
fn shared_create_with_given_id() {
    let blog = shared_blog();
    let at = DateTimeScalar::parse(&"2024-01-02T03:04:05Z".to_string()).unwrap();
    let p = blog.create_post_with(input("2"), "1".to_string(), at).unwrap();
    assert_eq!(p.id, "1");
    assert_eq!(p.published_at, at);
    assert_eq!(p.author.name, "Taro");
    assert_eq!(blog.post(&"1".to_string()), Some(p));
    assert_eq!(
        blog.create_post_with(input("1"), "1".to_string(), at),
        Err(CreatePostError::DuplicateId)
    );
    assert_eq!(
        blog.create_post_with(input("7"), "2".to_string(), at),
        Err(CreatePostError::AuthorNotFound)
    );
    assert_eq!(blog.posts().len(), 1);
}
