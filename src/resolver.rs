use crate::catalog::{find_user, UserCatalog};
use crate::datetime::DateTimeScalar;
use crate::model::{CreatePostInput, CreatePostInputView, Post, PostView, User, UserView};
use crate::repository::{
    find_post, has_id, posts_view, unique_ids, without_id, PostRepository,
};
use uuid::Uuid;
use vstd::prelude::*;

verus! {

/// Why a post was not made.
#[derive(Clone, Copy, Debug, PartialEq, Eq)]
pub enum CreatePostError {
    /// No user has the identifier given as author.
    AuthorNotFound,
    /// The identifier drawn for the new post is already in use.
    DuplicateId,
}

/// The tags of a new post: those given, or none.
pub open spec fn input_tags(input: CreatePostInputView) -> Seq<Seq<char>> {
    match input.tags {
        Some(t) => t,
        None => Seq::empty(),
    }
}

/// The post made from `input`, with a copy of `author`, the identifier `id` and
/// the time `at`.
pub open spec fn new_post(
    input: CreatePostInputView,
    author: UserView,
    id: Seq<char>,
    at: (int, int),
) -> PostView {
    PostView {
        id,
        title: input.title,
        author,
        body: input.body,
        tags: input_tags(input),
        published_at: at,
    }
}

/// Relies on uuid's `Uuid::new_v4` for a random identifier, and on its text form
/// (`to_string`, the hyphenated form), which has 36 characters.
#[verifier::external_body]
pub(crate) fn fresh_id() -> (r: String)
    ensures
        r@.len() == 36,
{
    Uuid::new_v4().to_string()
}

/// The read operations.
pub struct Query;

impl Query {
    /// Copies of all posts, in the order they were added; no two share an
    /// identifier.
    pub fn posts(&self, posts: &PostRepository) -> (r: Vec<Post>)
        ensures
            posts_view(r@) == posts@,
            unique_ids(posts_view(r@)),
    {
        posts.list_posts()
    }

    /// A copy of the post whose identifier is `id`, if any.
    pub fn post(&self, posts: &PostRepository, id: &String) -> (r: Option<Post>)
        ensures
            match r {
                Some(p) => find_post(posts@, id@) == Some(p@),
                None => find_post(posts@, id@) is None,
            },
    {
        posts.get_post(id)
    }

    /// A copy of the user whose identifier is `id`, if any.
    pub fn user(&self, users: &UserCatalog, id: &String) -> (r: Option<User>)
        ensures
            match r {
                Some(u) => find_user(users@, id@) == Some(u@),
                None => find_user(users@, id@) is None,
            },
    {
        users.get_user(id)
    }
}

/// The write operations.
pub struct Mutation;

impl Mutation {
    /// Makes a post from `input` with the identifier `id` and the time
    /// `published_at`, and adds it after the others. Fails, and changes nothing,
    /// where the author is unknown or `id` is already in use.
    pub fn create_post_with(
        &self,
        users: &UserCatalog,
        posts: &mut PostRepository,
        input: CreatePostInput,
        id: String,
        published_at: DateTimeScalar,
    ) -> (r: Result<Post, CreatePostError>)
        ensures
            match find_user(users@, input@.author_id) {
                None => r == Err::<Post, CreatePostError>(CreatePostError::AuthorNotFound)
                    && final(posts)@ == old(posts)@,
                Some(author) => if has_id(old(posts)@, id@) {
                    r == Err::<Post, CreatePostError>(CreatePostError::DuplicateId)
                        && final(posts)@ == old(posts)@
                } else {
                    &&& r is Ok
                    &&& r->Ok_0@ == new_post(input@, author, id@, published_at@)
                    &&& final(posts)@ == old(posts)@.push(r->Ok_0@)
                },
            },
    {
        let author = match users.get_user(&input.author_id) {
            Some(u) => u,
            None => {
                return Err(CreatePostError::AuthorNotFound);
            },
        };
        if posts.contains_id(&id) {
            return Err(CreatePostError::DuplicateId);
        }
        let ghost input_view = input@;
        let tags = match input.tags {
            Some(t) => t,
            None => Vec::new(),
        };
        let post = Post {
            id,
            title: input.title,
            author,
            body: input.body,
            tags,
            published_at,
        };
        proof {
            assert(post@.tags == input_tags(input_view));
        }
        posts.insert(post.snapshot());
        Ok(post)
    }

    /// Makes a post from `input`, by a known author, with a fresh identifier and
    /// the current time, and adds it after the others. Where the author is
    /// unknown it fails before drawing an identifier and changes nothing. A
    /// drawn identifier has 36 characters, so it can be taken only where some
    /// stored post has an identifier of that length.
    pub fn create_post(
        &self,
        users: &UserCatalog,
        posts: &mut PostRepository,
        input: CreatePostInput,
    ) -> (r: Result<Post, CreatePostError>)
        ensures
            (r == Err::<Post, CreatePostError>(CreatePostError::AuthorNotFound)) <==> find_user(
                users@,
                input@.author_id,
            ) is None,
            match r {
                Ok(p) => {
                    &&& find_user(users@, input@.author_id) == Some(p@.author)
                    &&& p@ == new_post(input@, p@.author, p@.id, p@.published_at)
                    &&& p@.id.len() == 36
                    &&& !has_id(old(posts)@, p@.id)
                    &&& final(posts)@ == old(posts)@.push(p@)
                },
                Err(_) => final(posts)@ == old(posts)@,
            },
            r == Err::<Post, CreatePostError>(CreatePostError::DuplicateId) ==> exists|i: int|
                0 <= i < old(posts)@.len() && (#[trigger] old(posts)@[i]).id.len() == 36,
    {
        if users.get_user(&input.author_id).is_none() {
            return Err(CreatePostError::AuthorNotFound);
        }
        let id = fresh_id();
        let published_at = DateTimeScalar::now();
        let ghost before = posts@;
        let ghost drawn = id@;
        let r = self.create_post_with(users, posts, input, id, published_at);
        proof {
            if r == Err::<Post, CreatePostError>(CreatePostError::DuplicateId) {
                let w = choose|w: int| 0 <= w < before.len() && #[trigger] before[w].id == drawn;
                assert(before[w].id.len() == 36);
            }
        }
        r
    }

    /// Removes every post whose identifier is `id`; says whether one was there.
    /// A missing post is no error.
    pub fn delete_post(&self, posts: &mut PostRepository, id: &String) -> (r: bool)
        ensures
            r == has_id(old(posts)@, id@),
            final(posts)@ == without_id(old(posts)@, id@),
            r ==> final(posts)@.len() == old(posts)@.len() - 1,
            !r ==> final(posts)@ == old(posts)@,
    {
        posts.remove_by_id(id)
    }
}

} // verus!
