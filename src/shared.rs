use crate::catalog::{find_user, lemma_find_user_id, UserCatalog};
use crate::datetime::DateTimeScalar;
use crate::model::{CreatePostInput, Post, PostView, User, UserView};
use crate::repository::{lemma_find_post_id, posts_view, unique_ids, without_id, PostRepository};
use crate::resolver::{fresh_id, new_post, CreatePostError, Mutation, Query};
use vstd::prelude::*;
use vstd::rwlock::{RwLock, RwLockPredicate};

verus! {

/// Every post's author is a copy of the catalog's user with that identifier.
pub open spec fn authors_from(users: Seq<UserView>, posts: Seq<PostView>) -> bool {
    forall|i: int|
        0 <= i < posts.len() ==> find_user(users, #[trigger] posts[i].author.id) == Some(
            posts[i].author,
        )
}

/// What the lock asks of the repository it guards: every post's author came
/// from the catalog `users`.
pub struct CatalogAuthors {
    pub users: Ghost<Seq<UserView>>,
}

impl RwLockPredicate<PostRepository> for CatalogAuthors {
    open spec fn inv(self, v: PostRepository) -> bool {
        authors_from(self.users@, v@)
    }
}

/// The two stores, shared between callers that run at the same time. The
/// catalog is only read, so readers need no lock; the repository sits behind a
/// reader-writer lock, taken for the shortest span around each read or write.
/// No operation ever holds more than that one lock.
pub struct SharedBlog {
    users: UserCatalog,
    posts: RwLock<PostRepository, CatalogAuthors>,
}

impl SharedBlog {
    #[verifier::type_invariant]
    spec fn inv(self) -> bool {
        self.posts.pred().users@ == self.users@
    }

    /// The authors, as the blog was started with them.
    pub closed spec fn users(&self) -> Seq<UserView> {
        self.users@
    }

    /// Shares the catalog `users`, with no posts yet.
    pub fn new(users: UserCatalog) -> (r: SharedBlog)
        ensures
            r.users() == users@,
    {
        let pred = CatalogAuthors { users: Ghost(users@) };
        let repository = PostRepository::new();
        SharedBlog { users, posts: RwLock::new(repository, Ghost(pred)) }
    }

    /// Copies of all posts present at one moment, in the order they were added;
    /// no two share an identifier, and each author is a copy of a catalog user.
    pub fn posts(&self) -> (r: Vec<Post>)
        ensures
            unique_ids(posts_view(r@)),
            authors_from(self.users(), posts_view(r@)),
    {
        proof {
            use_type_invariant(self);
        }
        let handle = self.posts.acquire_read();
        let r = Query.posts(handle.borrow());
        handle.release_read();
        r
    }

    /// A copy of the post whose identifier is `id`, if one is present; its
    /// author is a copy of a catalog user.
    pub fn post(&self, id: &String) -> (r: Option<Post>)
        ensures
            r matches Some(p) ==> p@.id == id@ && find_user(self.users(), p@.author.id) == Some(
                p@.author,
            ),
    {
        proof {
            use_type_invariant(self);
        }
        let handle = self.posts.acquire_read();
        let r = Query.post(handle.borrow(), id);
        proof {
            let all = handle.view()@;
            lemma_find_post_id(all, id@, 0);
            if let Some(ref p) = r {
                let k = choose|k: int| 0 <= k < all.len() && all[k] == p@;
                assert(find_user(self.users(), all[k].author.id) == Some(all[k].author));
            }
        }
        handle.release_read();
        r
    }

    /// A copy of the user whose identifier is `id`, if any.
    pub fn user(&self, id: &String) -> (r: Option<User>)
        ensures
            match r {
                Some(u) => find_user(self.users(), id@) == Some(u@),
                None => find_user(self.users(), id@) is None,
            },
    {
        Query.user(&self.users, id)
    }

    /// Makes a post from `input` with the identifier `id` and the time
    /// `published_at`, and adds it after the posts present then. Fails where the
    /// author is unknown or `id` is in use at that moment.
    pub fn create_post_with(
        &self,
        input: CreatePostInput,
        id: String,
        published_at: DateTimeScalar,
    ) -> (r: Result<Post, CreatePostError>)
        ensures
            (r == Err::<Post, CreatePostError>(CreatePostError::AuthorNotFound)) <==> find_user(
                self.users(),
                input@.author_id,
            ) is None,
            r matches Ok(p) ==> {
                &&& find_user(self.users(), input@.author_id) == Some(p@.author)
                &&& p@ == new_post(input@, p@.author, id@, published_at@)
            },
    {
        proof {
            use_type_invariant(self);
        }
        let ghost input_view = input@;
        let (mut posts, handle) = self.posts.acquire_write();
        let ghost before = posts@;
        let r = Mutation.create_post_with(&self.users, &mut posts, input, id, published_at);
        proof {
            if let Ok(ref p) = r {
                lemma_find_user_id(self.users@, input_view.author_id, 0);
                let after = posts@;
                assert forall|i: int| 0 <= i < after.len() implies find_user(
                    self.users@,
                    #[trigger] after[i].author.id,
                ) == Some(after[i].author) by {
                    if i < before.len() {
                        assert(after[i] == before[i]);
                    }
                }
            }
        }
        handle.release_write(posts);
        r
    }

    /// Makes a post from `input` by a known author, with a fresh identifier and
    /// the current time, and adds it after the posts present then. Where the
    /// author is unknown it fails before drawing an identifier or taking the
    /// lock, and changes nothing.
    pub fn create_post(&self, input: CreatePostInput) -> (r: Result<Post, CreatePostError>)
        ensures
            (r == Err::<Post, CreatePostError>(CreatePostError::AuthorNotFound)) <==> find_user(
                self.users(),
                input@.author_id,
            ) is None,
            r matches Ok(p) ==> {
                &&& find_user(self.users(), input@.author_id) == Some(p@.author)
                &&& p@ == new_post(input@, p@.author, p@.id, p@.published_at)
                &&& p@.id.len() == 36
            },
    {
        if self.users.get_user(&input.author_id).is_none() {
            return Err(CreatePostError::AuthorNotFound);
        }
        let id = fresh_id();
        let published_at = DateTimeScalar::now();
        self.create_post_with(input, id, published_at)
    }

    /// Removes every post whose identifier is `id`; says whether one was there.
    pub fn delete_post(&self, id: &String) -> (r: bool) {
        proof {
            use_type_invariant(self);
        }
        let (mut posts, handle) = self.posts.acquire_write();
        let ghost before = posts@;
        let r = Mutation.delete_post(&mut posts, id);
        proof {
            let after = posts@;
            assert forall|i: int| 0 <= i < after.len() implies find_user(
                self.users@,
                #[trigger] after[i].author.id,
            ) == Some(after[i].author) by {
                assert(after.contains(after[i]));
                before.lemma_filter_contains_rev(|p: PostView| p.id != id@, after[i]);
                let k = choose|k: int| 0 <= k < before.len() && before[k] == after[i];
                assert(find_user(self.users@, before[k].author.id) == Some(before[k].author));
            }
        }
        handle.release_write(posts);
        r
    }
}

} // verus!
