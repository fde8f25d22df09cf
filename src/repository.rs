use crate::model::{Post, PostView};
use vstd::prelude::*;

verus! {

/// No two posts share an identifier.
pub open spec fn unique_ids(posts: Seq<PostView>) -> bool {
    forall|i: int, j: int|
        0 <= i < posts.len() && 0 <= j < posts.len() && i != j ==> #[trigger] posts[i].id
            != #[trigger] posts[j].id
}

/// Some post has the identifier `id`.
pub open spec fn has_id(posts: Seq<PostView>, id: Seq<char>) -> bool {
    exists|i: int| 0 <= i < posts.len() && #[trigger] posts[i].id == id
}

/// The first post, from position `i` on, whose identifier is `id`.
pub open spec fn find_post_from(posts: Seq<PostView>, id: Seq<char>, i: int) -> Option<PostView>
    decreases posts.len() - i,
{
    if i < 0 || i >= posts.len() {
        None
    } else if posts[i].id == id {
        Some(posts[i])
    } else {
        find_post_from(posts, id, i + 1)
    }
}

/// The first post whose identifier is `id`, if any.
pub open spec fn find_post(posts: Seq<PostView>, id: Seq<char>) -> Option<PostView> {
    find_post_from(posts, id, 0)
}

/// What the search from position `i` finds is a stored post with the
/// identifier searched for.
pub proof fn lemma_find_post_id(posts: Seq<PostView>, id: Seq<char>, i: int)
    ensures
        find_post_from(posts, id, i) matches Some(p) ==> p.id == id && posts.contains(p),
    decreases posts.len() - i,
{
    if 0 <= i < posts.len() && posts[i].id != id {
        lemma_find_post_id(posts, id, i + 1);
    }
}

/// The posts, in their order, without every one whose identifier is `id`.
pub open spec fn without_id(posts: Seq<PostView>, id: Seq<char>) -> Seq<PostView> {
    posts.filter(|p: PostView| p.id != id)
}

/// Removing by identifier after adding a post: the post stays unless it has
/// that identifier.
pub proof fn lemma_without_id_push(posts: Seq<PostView>, post: PostView, id: Seq<char>)
    ensures
        without_id(posts.push(post), id) == if post.id != id {
            without_id(posts, id).push(post)
        } else {
            without_id(posts, id)
        },
{
    reveal_with_fuel(Seq::filter, 1);
    assert(posts.push(post).drop_last() =~= posts);
    assert(posts.push(post).last() == post);
}

pub open spec fn posts_view(posts: Seq<Post>) -> Seq<PostView> {
    posts.map_values(|p: Post| p@)
}

/// The posts, in the order they were added; no two share an identifier.
pub struct PostRepository {
    posts: Vec<Post>,
}

impl View for PostRepository {
    type V = Seq<PostView>;

    closed spec fn view(&self) -> Seq<PostView> {
        posts_view(self.posts@)
    }
}

impl PostRepository {
    #[verifier::type_invariant]
    spec fn inv(self) -> bool {
        unique_ids(posts_view(self.posts@))
    }

    /// A repository with no posts.
    pub fn new() -> (r: PostRepository)
        ensures
            r@ == Seq::<PostView>::empty(),
    {
        let r = PostRepository { posts: Vec::new() };
        proof {
            assert(posts_view(r.posts@) =~= Seq::<PostView>::empty());
        }
        r
    }

    /// How many posts the repository holds.
    pub fn len(&self) -> (r: usize)
        ensures
            r == self@.len(),
    {
        self.posts.len()
    }

    /// Copies of all posts, in the order they were added; no two share an
    /// identifier.
    pub fn list_posts(&self) -> (r: Vec<Post>)
        ensures
            posts_view(r@) == self@,
            unique_ids(posts_view(r@)),
    {
        proof {
            use_type_invariant(self);
        }
        let mut r: Vec<Post> = Vec::new();
        let mut i: usize = 0;
        while i < self.posts.len()
            invariant
                i <= self.posts@.len(),
                r@.len() == i,
                forall|k: int| 0 <= k < i ==> #[trigger] r@[k]@ == self.posts@[k]@,
            decreases self.posts@.len() - i,
        {
            r.push(self.posts[i].snapshot());
            i = i + 1;
        }
        proof {
            assert(posts_view(r@) =~= self@);
        }
        r
    }

    /// A copy of the post whose identifier is `id`, or `None` where there is none.
    pub fn get_post(&self, id: &String) -> (r: Option<Post>)
        ensures
            match r {
                Some(p) => find_post(self@, id@) == Some(p@),
                None => find_post(self@, id@) is None,
            },
    {
        let mut i: usize = 0;
        while i < self.posts.len()
            invariant
                i <= self.posts@.len(),
                self@.len() == self.posts@.len(),
                find_post_from(self@, id@, i as int) == find_post(self@, id@),
            decreases self.posts@.len() - i,
        {
            if self.posts[i].id == *id {
                return Some(self.posts[i].snapshot());
            }
            i = i + 1;
        }
        None
    }

    /// Whether some post has the identifier `id`.
    pub fn contains_id(&self, id: &String) -> (r: bool)
        ensures
            r == has_id(self@, id@),
    {
        let mut i: usize = 0;
        while i < self.posts.len()
            invariant
                i <= self.posts@.len(),
                self@.len() == self.posts@.len(),
                forall|k: int| 0 <= k < i ==> #[trigger] self@[k].id != id@,
            decreases self.posts@.len() - i,
        {
            if self.posts[i].id == *id {
                proof {
                    assert(self@[i as int].id == id@);
                }
                return true;
            }
            i = i + 1;
        }
        false
    }

    /// Adds a post, made and checked by the caller, after the others.
    pub fn insert(&mut self, post: Post)
        requires
            !has_id(old(self)@, post@.id),
        ensures
            final(self)@ == old(self)@.push(post@),
    {
        let mut taken = PostRepository::new();
        core::mem::swap(self, &mut taken);
        proof {
            use_type_invariant(&taken);
        }
        let mut posts = taken.posts;
        let ghost before = posts_view(posts@);
        posts.push(post);
        proof {
            assert(posts_view(posts@) =~= before.push(post@));
            crate::laws::law_create_adds_one(before, post@);
        }
        *self = PostRepository { posts };
    }

    /// Removes every post whose identifier is `id`; says whether one was there.
    pub fn remove_by_id(&mut self, id: &String) -> (r: bool)
        ensures
            r == has_id(old(self)@, id@),
            final(self)@ == without_id(old(self)@, id@),
            r ==> final(self)@.len() == old(self)@.len() - 1,
            !r ==> final(self)@ == old(self)@,
    {
        proof {
            use_type_invariant(&*self);
        }
        let ghost all = self@;
        let mut kept: Vec<Post> = Vec::new();
        let mut removed = false;
        let mut i: usize = 0;
        while i < self.posts.len()
            invariant
                i <= self.posts@.len(),
                all == posts_view(self.posts@),
                unique_ids(all),
                unique_ids(posts_view(kept@)),
                posts_view(kept@) == without_id(all.take(i as int), id@),
                forall|k: int|
                    0 <= k < kept@.len() ==> exists|j: int|
                        0 <= j < i && #[trigger] kept@[k]@.id == #[trigger] all[j].id,
                removed == has_id(all.take(i as int), id@),
                kept@.len() + (if removed { 1int } else { 0int }) == i,
            decreases self.posts@.len() - i,
        {
            let ghost before = kept@;
            proof {
                assert(all[i as int] == self.posts@[i as int]@);
                assert(all.take(i + 1) =~= all.take(i as int).push(all[i as int]));
                lemma_without_id_push(all.take(i as int), all[i as int], id@);
            }
            if self.posts[i].id == *id {
                proof {
                    if removed {
                        let w = choose|w: int| 0 <= w < i && #[trigger] all.take(i as int)[w].id == id@;
                        assert(all[w].id == all[i as int].id);
                    }
                }
                removed = true;
                proof {
                    assert(all.take(i + 1)[i as int].id == id@);
                }
            } else {
                kept.push(self.posts[i].snapshot());
                proof {
                    assert(posts_view(kept@) =~= posts_view(before).push(all[i as int]));
                    assert forall|k: int| 0 <= k < kept@.len() implies exists|j: int|
                        0 <= j < i + 1 && #[trigger] kept@[k]@.id == #[trigger] all[j].id by {
                        if k == kept@.len() - 1 {
                            assert(kept@[k]@.id == all[i as int].id);
                        } else {
                            assert(kept@[k] == before[k]);
                        }
                    }
                    let kv = posts_view(kept@);
                    assert forall|a: int, b: int|
                        0 <= a < kv.len() && 0 <= b < kv.len() && a != b implies #[trigger] kv[a].id
                        != #[trigger] kv[b].id by {
                        if a == kv.len() - 1 || b == kv.len() - 1 {
                            let o = if a == kv.len() - 1 { b } else { a };
                            assert(kept@[o] == before[o]);
                            let j = choose|j: int| 0 <= j < i && #[trigger] before[o]@.id == #[trigger] all[j].id;
                            assert(all[j].id != all[i as int].id);
                        } else {
                            assert(kv[a] == posts_view(before)[a]);
                            assert(kv[b] == posts_view(before)[b]);
                        }
                    }
                }
            }
            proof {
                if has_id(all.take(i as int), id@) {
                    let w = choose|w: int| 0 <= w < i && #[trigger] all.take(i as int)[w].id == id@;
                    assert(all.take(i + 1)[w].id == id@);
                }
                if has_id(all.take(i + 1), id@) && all[i as int].id != id@ {
                    let w = choose|w: int| 0 <= w < i + 1 && #[trigger] all.take(i + 1)[w].id == id@;
                    assert(all.take(i as int)[w].id == id@);
                }
            }
            i = i + 1;
        }
        proof {
            assert(all.take(i as int) =~= all);
            if !removed {
                crate::laws::law_delete_missing_changes_nothing(all, id@);
            }
        }
        *self = PostRepository { posts: kept };
        removed
    }
}

} // verus!
