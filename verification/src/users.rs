//! User records and the view fragments built from them.

use vstd::prelude::*;

verus! {

/// One user record as the database hands it out.
#[derive(Debug, PartialEq, Eq)]
pub struct User {
    pub id: i64,
    pub name: String,
    pub email: String,
}

/// Mathematical image of a [`User`].
pub struct UserModel {
    pub id: int,
    pub name: Seq<char>,
    pub email: Seq<char>,
}

impl View for User {
    type V = UserModel;

    open spec fn view(&self) -> UserModel {
        UserModel { id: self.id as int, name: self.name@, email: self.email@ }
    }
}

impl Clone for User {
    fn clone(&self) -> (r: Self)
        ensures
            r@ == self@,
    {
        User { id: self.id, name: self.name.clone(), email: self.email.clone() }
    }
}

/// The sequence of models of a sequence of records.
pub open spec fn users_view(s: Seq<User>) -> Seq<UserModel> {
    s.map_values(|u: User| u@)
}

/// Copies a user list, keeping its model.
pub fn clone_users(us: &Vec<User>) -> (r: Vec<User>)
    ensures
        users_view(r@) == users_view(us@),
{
    let mut r: Vec<User> = Vec::new();
    let mut i: usize = 0;
    while i < us.len()
        invariant
            0 <= i <= us@.len(),
            r@.len() == i,
            forall|j: int| 0 <= j < i ==> r@[j]@ == us@[j]@,
        decreases us@.len() - i,
    {
        r.push(us[i].clone());
        i = i + 1;
    }
    proof {
        assert(users_view(r@) =~= users_view(us@));
    }
    r
}

/// Paging summary shown beside a result list.
#[derive(Clone, Copy, Debug, PartialEq, Eq)]
pub struct Pagination {
    pub current_page: i64,
    pub per_page: i64,
    pub total: i64,
    pub total_pages: i64,
    pub has_prev: bool,
    pub has_next: bool,
}

/// View fragment for a page of search results.
#[derive(Debug)]
pub struct UserSearchResultsTemplate {
    pub users: Vec<User>,
    pub query: String,
    pub pagination: Pagination,
    pub start_item: i64,
    pub end_item: i64,
    pub base_url: String,
    pub target: String,
}

/// View fragment for a single user.
#[derive(Debug)]
pub struct UserDetailTemplate {
    pub user: User,
}

/// Query-string payload of a search request.
#[derive(Debug)]
pub struct SearchQuery {
    pub q: Option<String>,
    pub page: Option<i64>,
    pub per_page: Option<i64>,
}

/// Assembles the search-results fragment from one page of matches: the
/// paging summary over the full match count, the ordinals of the first and
/// last row shown, and the fixed fragment endpoint and target.
pub fn build_search_results(users: Vec<User>, query: String, page: i64, per_page: i64, total: i64)
    -> (r: UserSearchResultsTemplate)
    requires
        page >= 1,
        1 <= per_page <= 100,
        total >= 0,
        total + per_page <= i64::MAX,
        (page - 1) * per_page + 1 + users@.len() <= i64::MAX,
    ensures
        r.users == users,
        r.query == query,
        r.pagination.current_page == page,
        r.pagination.per_page == per_page,
        r.pagination.total == total,
        r.pagination.total_pages == (total + per_page - 1) / (per_page as int),
        r.pagination.has_prev == (page > 1),
        r.pagination.has_next == (page < r.pagination.total_pages),
        r.start_item == (page - 1) * per_page + 1,
        r.end_item == r.start_item - 1 + users@.len(),
        r.base_url@ == "/block/users/search"@,
        r.target@ == "#search-results"@,
{
    let total_pages = (total + per_page - 1) / per_page;
    let pagination = Pagination {
        current_page: page,
        per_page,
        total,
        total_pages,
        has_prev: page > 1,
        has_next: page < total_pages,
    };
    proof {
        assert((page - 1) * per_page >= 0) by (nonlinear_arith)
            requires
                page >= 1,
                per_page >= 1,
        ;
    }
    let start_item = (page - 1) * per_page + 1;
    let end_item = start_item - 1 + (users.len() as i64);
    UserSearchResultsTemplate {
        users,
        query,
        pagination,
        start_item,
        end_item,
        base_url: "/block/users/search".to_owned(),
        target: "#search-results".to_owned(),
    }
}

} // verus!
