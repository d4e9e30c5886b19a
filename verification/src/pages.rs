//! Page rendering data and the per-page cache in front of the database.
//!
//! Beside the generic store in [`crate::cache`], the page handlers keep a
//! small dedicated cache: one slot for the to-do page data and one for the
//! user list, each refreshed when older than a fixed duration.  The database
//! reads themselves happen outside; this module decides when the cached copy
//! may be served and holds what came back.

use crate::todos::{clone_todos, spec_completed_count, Todo, TodoModel, todos_view};
use crate::users::{clone_users, User, UserModel, users_view};
use vstd::prelude::*;

verus! {

/// Ticks a page-cache slot stays fresh after it was filled.
pub const PAGE_CACHE_TTL_MILLIS: u64 = 60000;

/// Key of the to-do page data in the shared store.
pub const CACHE_KEY_TODOS: &'static str = "todos";

/// Key of the full user list in the shared store.
pub const CACHE_KEY_USERS: &'static str = "users";

/// Key of the first page of users, warmed separately for the first paint.
pub const INITIAL_USERS_CACHE_KEY: &'static str = "initial_users";

/// Full page shown on the first visit.
#[derive(Debug)]
pub struct IndexTemplate;

/// Full to-do page, with the list and its counters.
#[derive(Debug)]
pub struct TodosFullPageTemplate {
    pub todos: Vec<Todo>,
    pub completed_count: usize,
    pub pending_count: usize,
}

/// Full user page.
#[derive(Debug)]
pub struct UsersFullPageTemplate {
    pub users: Vec<User>,
}

/// Home content fragment for in-page navigation.
#[derive(Debug)]
pub struct HomePageTemplate;

/// To-do content fragment for in-page navigation.
#[derive(Debug)]
pub struct TodosPageTemplate {
    pub todos: Vec<Todo>,
    pub completed_count: usize,
    pub pending_count: usize,
}

/// User content fragment for in-page navigation.
#[derive(Debug)]
pub struct UsersPageTemplate {
    pub users: Vec<User>,
}

/// Example modal dialog fragment.
#[derive(Debug)]
pub struct ModalExampleTemplate;

/// The landing page served at the site root.
#[derive(Debug)]
pub struct OfficialIndexTemplate;

/// The cached to-do page data.
struct TodoCacheEntry {
    todos: Vec<Todo>,
    completed: usize,
    pending: usize,
    timestamp: u64,
}

/// The cached user list.
struct UserCacheEntry {
    users: Vec<User>,
    timestamp: u64,
}

/// Mathematical image of the cached to-do page data.
pub struct TodoPageModel {
    pub todos: Seq<TodoModel>,
    pub completed: int,
    pub pending: int,
    pub timestamp: int,
}

/// Mathematical image of the cached user list.
pub struct UserPageModel {
    pub users: Seq<UserModel>,
    pub timestamp: int,
}

/// Mathematical image of the whole page cache.
#[verifier::ext_equal]
pub struct PageCacheModel {
    pub todo_cache: Option<TodoPageModel>,
    pub user_cache: Option<UserPageModel>,
    pub cache_duration: u64,
}

/// A slot filled at `timestamp` is still fresh at `now`.
pub open spec fn slot_fresh(timestamp: int, now: u64, duration: u64) -> bool {
    timestamp <= now && now - timestamp < duration
}

/// The dedicated cache in front of the page handlers' database reads.
pub struct CacheManager {
    todo_cache: Option<TodoCacheEntry>,
    user_cache: Option<UserCacheEntry>,
    cache_duration: u64,
}

impl View for CacheManager {
    type V = PageCacheModel;

    closed spec fn view(&self) -> PageCacheModel {
        PageCacheModel {
            todo_cache: match self.todo_cache {
                Some(e) => Some(
                    TodoPageModel {
                        todos: todos_view(e.todos@),
                        completed: e.completed as int,
                        pending: e.pending as int,
                        timestamp: e.timestamp as int,
                    },
                ),
                None => None,
            },
            user_cache: match self.user_cache {
                Some(e) => Some(
                    UserPageModel { users: users_view(e.users@), timestamp: e.timestamp as int },
                ),
                None => None,
            },
            cache_duration: self.cache_duration,
        }
    }
}

impl CacheManager {
    /// Both slots empty, with the fixed refresh duration.
    pub fn new() -> (c: CacheManager)
        ensures
            c@.todo_cache is None,
            c@.user_cache is None,
            c@.cache_duration == PAGE_CACHE_TTL_MILLIS,
    {
        CacheManager {
            todo_cache: None,
            user_cache: None,
            cache_duration: PAGE_CACHE_TTL_MILLIS,
        }
    }

    /// The cached to-do page data, when the slot is filled and still fresh at
    /// `now`; nothing otherwise, and the caller recomputes from the database.
    pub fn cached_todos(&self, now: u64) -> (r: Option<(Vec<Todo>, usize, usize)>)
        ensures
            match r {
                Some(p) => self@.todo_cache matches Some(e) && slot_fresh(
                    e.timestamp,
                    now,
                    self@.cache_duration,
                ) && todos_view(p.0@) == e.todos && p.1 == e.completed && p.2 == e.pending,
                None => match self@.todo_cache {
                    Some(e) => !slot_fresh(e.timestamp, now, self@.cache_duration),
                    None => true,
                },
            },
    {
        match &self.todo_cache {
            Some(e) => {
                if e.timestamp <= now && now - e.timestamp < self.cache_duration {
                    Some((clone_todos(&e.todos), e.completed, e.pending))
                } else {
                    None
                }
            },
            None => None,
        }
    }

    /// Fills the to-do slot with data read at `now`.  The counts must be the
    /// list's own — what [`crate::todos::count_completed`] and
    /// [`crate::todos::count_pending`] compute — so every served copy keeps
    /// counters and list in step.
    pub fn store_todos(&mut self, todos: Vec<Todo>, completed: usize, pending: usize, now: u64)
        requires
            completed == spec_completed_count(todos_view(todos@)),
            completed + pending == todos@.len(),
        ensures
            final(self)@ == (PageCacheModel {
                todo_cache: Some(
                    TodoPageModel {
                        todos: todos_view(todos@),
                        completed: completed as int,
                        pending: pending as int,
                        timestamp: now as int,
                    },
                ),
                ..old(self)@
            }),
    {
        self.todo_cache = Some(TodoCacheEntry { todos, completed, pending, timestamp: now });
        proof {
            assert(self@ =~= (PageCacheModel {
                todo_cache: self@.todo_cache,
                ..old(self)@
            }));
        }
    }

    /// The cached user list, when the slot is filled and still fresh at
    /// `now`; nothing otherwise.
    pub fn cached_users(&self, now: u64) -> (r: Option<Vec<User>>)
        ensures
            match r {
                Some(us) => self@.user_cache matches Some(e) && slot_fresh(
                    e.timestamp,
                    now,
                    self@.cache_duration,
                ) && users_view(us@) == e.users,
                None => match self@.user_cache {
                    Some(e) => !slot_fresh(e.timestamp, now, self@.cache_duration),
                    None => true,
                },
            },
    {
        match &self.user_cache {
            Some(e) => {
                if e.timestamp <= now && now - e.timestamp < self.cache_duration {
                    Some(clone_users(&e.users))
                } else {
                    None
                }
            },
            None => None,
        }
    }

    /// Fills the user slot with data read at `now`.
    pub fn store_users(&mut self, users: Vec<User>, now: u64)
        ensures
            final(self)@ == (PageCacheModel {
                user_cache: Some(
                    UserPageModel { users: users_view(users@), timestamp: now as int },
                ),
                ..old(self)@
            }),
    {
        self.user_cache = Some(UserCacheEntry { users, timestamp: now });
        proof {
            assert(self@ =~= (PageCacheModel {
                user_cache: self@.user_cache,
                ..old(self)@
            }));
        }
    }

    /// Empties the to-do slot: the next page view reads the database afresh.
    pub fn invalidate_todo_cache(&mut self)
        ensures
            final(self)@ == (PageCacheModel { todo_cache: None, ..old(self)@ }),
    {
        self.todo_cache = None;
        proof {
            assert(self@ =~= (PageCacheModel { todo_cache: None, ..old(self)@ }));
        }
    }

    /// Empties the user slot.
    pub fn invalidate_user_cache(&mut self)
        ensures
            final(self)@ == (PageCacheModel { user_cache: None, ..old(self)@ }),
    {
        self.user_cache = None;
        proof {
            assert(self@ =~= (PageCacheModel { user_cache: None, ..old(self)@ }));
        }
    }
}

/// Empties the shared to-do slot after a data change.
pub fn invalidate_todo_cache(manager: &mut CacheManager)
    ensures
        final(manager)@ == (PageCacheModel { todo_cache: None, ..old(manager)@ }),
{
    manager.invalidate_todo_cache()
}

/// Empties the shared user slot after a data change.
pub fn invalidate_user_cache(manager: &mut CacheManager)
    ensures
        final(manager)@ == (PageCacheModel { user_cache: None, ..old(manager)@ }),
{
    manager.invalidate_user_cache()
}

} // verus!
