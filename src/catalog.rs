use crate::model::{User, UserView};
use vstd::prelude::*;

verus! {

/// The first user, from position `i` on, whose identifier is `id`.
pub open spec fn find_user_from(users: Seq<UserView>, id: Seq<char>, i: int) -> Option<UserView>
    decreases users.len() - i,
{
    if i < 0 || i >= users.len() {
        None
    } else if users[i].id == id {
        Some(users[i])
    } else {
        find_user_from(users, id, i + 1)
    }
}

/// The first user whose identifier is `id`, if any.
pub open spec fn find_user(users: Seq<UserView>, id: Seq<char>) -> Option<UserView> {
    find_user_from(users, id, 0)
}

/// What the search from position `i` finds has the identifier searched for.
pub proof fn lemma_find_user_id(users: Seq<UserView>, id: Seq<char>, i: int)
    ensures
        find_user_from(users, id, i) matches Some(u) ==> u.id == id,
    decreases users.len() - i,
{
    if 0 <= i < users.len() && users[i].id != id {
        lemma_find_user_id(users, id, i + 1);
    }
}

/// The authors, fixed once the catalog is made.
pub struct UserCatalog {
    users: Vec<User>,
}

impl View for UserCatalog {
    type V = Seq<UserView>;

    closed spec fn view(&self) -> Seq<UserView> {
        self.users@.map_values(|u: User| u@)
    }
}

impl UserCatalog {
    /// A catalog holding these users, in this order.
    pub fn new(users: Vec<User>) -> (r: UserCatalog)
        ensures
            r@ == users@.map_values(|u: User| u@),
    {
        UserCatalog { users }
    }

    /// How many users the catalog holds.
    pub fn len(&self) -> (r: usize)
        ensures
            r == self@.len(),
    {
        self.users.len()
    }

    /// A copy of the user whose identifier is `id`, or `None` where there is none.
    pub fn get_user(&self, id: &String) -> (r: Option<User>)
        ensures
            match r {
                Some(u) => find_user(self@, id@) == Some(u@),
                None => find_user(self@, id@) is None,
            },
    {
        let mut i: usize = 0;
        while i < self.users.len()
            invariant
                i <= self@.len(),
                self@.len() == self.users@.len(),
                find_user_from(self@, id@, i as int) == find_user(self@, id@),
            decreases self.users@.len() - i,
        {
            if self.users[i].id == *id {
                return Some(self.users[i].snapshot());
            }
            i = i + 1;
        }
        None
    }
}

} // verus!
