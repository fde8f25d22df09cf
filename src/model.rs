use crate::datetime::DateTimeScalar;
use vstd::prelude::*;

verus! {

/// An author, as callers see it.
pub struct UserView {
    pub id: Seq<char>,
    pub name: Seq<char>,
    pub avatar_url: Option<Seq<char>>,
}

/// A post, as callers see it; `author` is a copy of the author taken when the
/// post was made.
pub struct PostView {
    pub id: Seq<char>,
    pub title: Seq<char>,
    pub author: UserView,
    pub body: Seq<char>,
    pub tags: Seq<Seq<char>>,
    pub published_at: (int, int),
}

/// The fields a caller gives to make a post.
pub struct CreatePostInputView {
    pub title: Seq<char>,
    pub body: Seq<char>,
    pub tags: Option<Seq<Seq<char>>>,
    pub author_id: Seq<char>,
}

pub open spec fn strings_view(v: Seq<String>) -> Seq<Seq<char>> {
    v.map_values(|s: String| s@)
}

pub open spec fn option_string_view(o: Option<String>) -> Option<Seq<char>> {
    match o {
        Some(s) => Some(s@),
        None => None,
    }
}

/// An author of posts.
#[derive(Clone, Debug, PartialEq, Eq)]
pub struct User {
    pub id: String,
    pub name: String,
    pub avatar_url: Option<String>,
}

impl View for User {
    type V = UserView;

    open spec fn view(&self) -> UserView {
        UserView { id: self.id@, name: self.name@, avatar_url: option_string_view(self.avatar_url) }
    }
}

/// A published post.
#[derive(Clone, Debug, PartialEq, Eq)]
pub struct Post {
    pub id: String,
    pub title: String,
    pub author: User,
    pub body: String,
    pub tags: Vec<String>,
    pub published_at: DateTimeScalar,
}

impl View for Post {
    type V = PostView;

    open spec fn view(&self) -> PostView {
        PostView {
            id: self.id@,
            title: self.title@,
            author: self.author@,
            body: self.body@,
            tags: strings_view(self.tags@),
            published_at: self.published_at@,
        }
    }
}

/// What a caller gives to make a post; absent tags stand for none.
#[derive(Clone, Debug, PartialEq, Eq)]
pub struct CreatePostInput {
    pub title: String,
    pub body: String,
    pub tags: Option<Vec<String>>,
    pub author_id: String,
}

impl View for CreatePostInput {
    type V = CreatePostInputView;

    open spec fn view(&self) -> CreatePostInputView {
        CreatePostInputView {
            title: self.title@,
            body: self.body@,
            tags: match self.tags {
                Some(t) => Some(strings_view(t@)),
                None => None,
            },
            author_id: self.author_id@,
        }
    }
}

/// An independent copy of a list of strings.
pub fn copy_strings(v: &Vec<String>) -> (r: Vec<String>)
    ensures
        strings_view(r@) == strings_view(v@),
{
    let mut r: Vec<String> = Vec::new();
    let mut i: usize = 0;
    while i < v.len()
        invariant
            i <= v@.len(),
            r@.len() == i,
            forall|k: int| 0 <= k < i ==> #[trigger] r@[k]@ == v@[k]@,
        decreases v@.len() - i,
    {
        r.push(v[i].clone());
        i = i + 1;
    }
    proof {
        assert(strings_view(r@) =~= strings_view(v@));
    }
    r
}

fn copy_option_string(o: &Option<String>) -> (r: Option<String>)
    ensures
        option_string_view(r) == option_string_view(*o),
{
    match o {
        Some(s) => Some(s.clone()),
        None => None,
    }
}

impl User {
    /// A copy of this user, sharing nothing with it.
    pub fn snapshot(&self) -> (r: User)
        ensures
            r@ == self@,
    {
        User {
            id: self.id.clone(),
            name: self.name.clone(),
            avatar_url: copy_option_string(&self.avatar_url),
        }
    }
}

impl Post {
    /// A copy of this post, sharing nothing with it.
    pub fn snapshot(&self) -> (r: Post)
        ensures
            r@ == self@,
    {
        Post {
            id: self.id.clone(),
            title: self.title.clone(),
            author: self.author.snapshot(),
            body: self.body.clone(),
            tags: copy_strings(&self.tags),
            published_at: self.published_at,
        }
    }
}

} // verus!
