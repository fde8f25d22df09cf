use crate::model::PostView;
use crate::repository::{
    find_post, find_post_from, has_id, lemma_without_id_push, unique_ids, without_id,
};
use vstd::prelude::*;

verus! {

/// A stored post, with its author's copy, is never altered by a write: adding a
/// post keeps it, and removing by an identifier other than its own keeps it.
/// Only whether a post is present ever changes.
pub proof fn law_writes_keep_stored_posts(
    posts: Seq<PostView>,
    stored: PostView,
    added: PostView,
    id: Seq<char>,
)
    requires
        posts.contains(stored),
    ensures
        posts.push(added).contains(stored),
        stored.id != id ==> without_id(posts, id).contains(stored),
{
    let k = choose|k: int| 0 <= k < posts.len() && posts[k] == stored;
    assert(posts.push(added)[k] == stored);
    if stored.id != id {
        posts.lemma_filter_contains(|p: PostView| p.id != id, k);
    }
}

/// Where no post from position `i` on has the identifier `id`, the search from
/// there finds nothing.
proof fn lemma_find_post_absent(posts: Seq<PostView>, id: Seq<char>, i: int)
    requires
        forall|k: int| i <= k < posts.len() ==> #[trigger] posts[k].id != id,
    ensures
        find_post_from(posts, id, i) is None,
    decreases posts.len() - i,
{
    if 0 <= i < posts.len() {
        lemma_find_post_absent(posts, id, i + 1);
    } else if i < 0 {
        assert(find_post_from(posts, id, i) is None);
    }
}

/// A post added after others whose identifiers all differ from its own is what
/// a read by its identifier returns.
pub proof fn law_create_then_read(posts: Seq<PostView>, post: PostView)
    requires
        !has_id(posts, post.id),
    ensures
        find_post(posts.push(post), post.id) == Some(post),
{
    let all = posts.push(post);
    assert forall|k: int| 0 <= k < posts.len() implies #[trigger] all[k].id != post.id by {
        assert(all[k] == posts[k]);
    }
    lemma_find_from_last(all, post.id, 0);
}

proof fn lemma_find_from_last(all: Seq<PostView>, id: Seq<char>, i: int)
    requires
        0 <= i < all.len(),
        all.last().id == id,
        forall|k: int| 0 <= k < all.len() - 1 ==> #[trigger] all[k].id != id,
    ensures
        find_post_from(all, id, i) == Some(all.last()),
    decreases all.len() - i,
{
    if i < all.len() - 1 {
        lemma_find_from_last(all, id, i + 1);
    }
}

/// Adding a post whose identifier is new keeps the identifiers distinct and
/// makes the collection exactly one post longer, holding that post: no write is
/// lost and no identifier repeats, however many posts are made one after another.
pub proof fn law_create_adds_one(posts: Seq<PostView>, post: PostView)
    requires
        unique_ids(posts),
        !has_id(posts, post.id),
    ensures
        unique_ids(posts.push(post)),
        posts.push(post).len() == posts.len() + 1,
        has_id(posts.push(post), post.id),
{
    let all = posts.push(post);
    assert(all[posts.len() as int].id == post.id);
    assert forall|a: int, b: int|
        0 <= a < all.len() && 0 <= b < all.len() && a != b implies #[trigger] all[a].id
        != #[trigger] all[b].id by {
        if a == posts.len() {
            assert(all[b] == posts[b]);
        } else if b == posts.len() {
            assert(all[a] == posts[a]);
        } else {
            assert(all[a] == posts[a] && all[b] == posts[b]);
        }
    }
}

/// After removing by an identifier, a read by that identifier finds nothing.
pub proof fn law_delete_then_read(posts: Seq<PostView>, id: Seq<char>)
    ensures
        find_post(without_id(posts, id), id) is None,
{
    let rest = without_id(posts, id);
    assert forall|k: int| 0 <= k < rest.len() implies #[trigger] rest[k].id != id by {
        posts.lemma_filter_pred(|p: PostView| p.id != id, k);
    }
    lemma_find_post_absent(rest, id, 0);
}

/// Removing by an identifier that no post has changes nothing.
pub proof fn law_delete_missing_changes_nothing(posts: Seq<PostView>, id: Seq<char>)
    requires
        !has_id(posts, id),
    ensures
        without_id(posts, id) == posts,
    decreases posts.len(),
{
    if posts.len() > 0 {
        let init = posts.drop_last();
        assert(!has_id(init, id)) by {
            if has_id(init, id) {
                let w = choose|w: int| 0 <= w < init.len() && #[trigger] init[w].id == id;
                assert(posts[w].id == id);
            }
        }
        law_delete_missing_changes_nothing(init, id);
        assert(posts[posts.len() - 1].id != id);
        lemma_without_id_push(init, posts.last(), id);
        assert(init.push(posts.last()) =~= posts);
    } else {
        reveal_with_fuel(Seq::filter, 1);
    }
}

} // verus!
