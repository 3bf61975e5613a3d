use vstd::prelude::*;

use crate::errors::{AppError, Failure};
use crate::models::{Comment, CommentRecord, Post, PostRecord, User, UserRecord};

verus! {

/// The rows of a users table, in specifications.
pub open spec fn users_view(s: Seq<User>) -> Seq<UserRecord> {
    s.map_values(|u: User| u@)
}

/// The rows of a posts table, in specifications.
pub open spec fn posts_view_of(s: Seq<Post>) -> Seq<PostRecord> {
    s.map_values(|p: Post| p@)
}

/// The rows of a comments table, in specifications.
pub open spec fn comments_view(s: Seq<Comment>) -> Seq<CommentRecord> {
    s.map_values(|c: Comment| c@)
}

/// The contents of the blog's three tables, each in the order of its row ids.
pub struct Tables {
    pub users: Seq<UserRecord>,
    pub posts: Seq<PostRecord>,
    pub comments: Seq<CommentRecord>,
}

pub open spec fn user_ids_increase(s: Seq<UserRecord>) -> bool {
    forall|i: int, j: int| 0 <= i < j < s.len() ==> s[i].id < s[j].id
}

pub open spec fn post_ids_increase(s: Seq<PostRecord>) -> bool {
    forall|i: int, j: int| 0 <= i < j < s.len() ==> s[i].id < s[j].id
}

pub open spec fn comment_ids_increase(s: Seq<CommentRecord>) -> bool {
    forall|i: int, j: int| 0 <= i < j < s.len() ==> s[i].id < s[j].id
}

/// No two users have the same username (the unique index on `users.username`).
pub open spec fn usernames_unique(s: Seq<UserRecord>) -> bool {
    forall|i: int, j: int|
        0 <= i < s.len() && 0 <= j < s.len() && i != j ==> s[i].username != s[j].username
}

/// Some user has the username `name`.
pub open spec fn username_taken(users: Seq<UserRecord>, name: Seq<char>) -> bool {
    exists|i: int| 0 <= i < users.len() && users[i].username == name
}

/// The user whose username is `name`, if there is one.
pub open spec fn user_named(users: Seq<UserRecord>, name: Seq<char>) -> Option<UserRecord> {
    if username_taken(users, name) {
        Some(users[choose|i: int| 0 <= i < users.len() && users[i].username == name])
    } else {
        None
    }
}

/// The user whose id is `id`, if there is one.
pub open spec fn user_with_id(users: Seq<UserRecord>, id: i32) -> Option<UserRecord> {
    if exists|i: int| 0 <= i < users.len() && users[i].id == id {
        Some(users[choose|i: int| 0 <= i < users.len() && users[i].id == id])
    } else {
        None
    }
}

/// The position of the post whose id is `id`, if there is one.
pub open spec fn post_position(posts: Seq<PostRecord>, id: i32) -> Option<int> {
    if exists|k: int| 0 <= k < posts.len() && posts[k].id == id {
        Some(choose|k: int| 0 <= k < posts.len() && posts[k].id == id)
    } else {
        None
    }
}

/// The post whose id is `id`, if there is one.
pub open spec fn post_with_id(posts: Seq<PostRecord>, id: i32) -> Option<PostRecord> {
    match post_position(posts, id) {
        Some(k) => Some(posts[k]),
        None => None,
    }
}

/// The result of an operation that changes the tables, without the new tables.
pub open spec fn result_of<A>(s: Result<(Tables, A), Failure>) -> Result<A, Failure> {
    match s {
        Ok((_, a)) => Ok(a),
        Err(f) => Err(f),
    }
}

/// The tables after an operation: the new tables where it succeeds, `t` unchanged where it fails.
pub open spec fn tables_after<A>(t: Tables, s: Result<(Tables, A), Failure>) -> Tables {
    match s {
        Ok((t2, _)) => t2,
        Err(_) => t,
    }
}

/// `r` is the answer that the specification `s` describes: the same value, or the
/// error that reports the same refusal.
pub open spec fn answers<T: View>(r: Result<T, AppError>, s: Result<T::V, Failure>) -> bool {
    match (r, s) {
        (Ok(x), Ok(y)) => x@ == y,
        (Err(e), Err(f)) => e.reports(f),
        _ => false,
    }
}

/// `r` completes as the specification `s` describes: `Ok` where it succeeds, the
/// error that reports its refusal where it fails.
pub open spec fn completes<A>(r: Result<(), AppError>, s: Result<A, Failure>) -> bool {
    match (r, s) {
        (Ok(_), Ok(_)) => true,
        (Err(e), Err(f)) => e.reports(f),
        _ => false,
    }
}

impl Tables {
    /// Tables with no rows.
    pub open spec fn empty() -> Tables {
        Tables { users: seq![], posts: seq![], comments: seq![] }
    }

    /// Row ids increase along each table, and usernames are unique.
    pub open spec fn wf(self) -> bool {
        &&& user_ids_increase(self.users)
        &&& post_ids_increase(self.posts)
        &&& comment_ids_increase(self.comments)
        &&& usernames_unique(self.users)
    }

    /// The id that the next user gets: one more than the largest, or 1 in an empty table.
    pub open spec fn next_user_id(self) -> int {
        if self.users.len() == 0 {
            1
        } else {
            self.users.last().id + 1
        }
    }

    /// The id that the next post gets: one more than the largest, or 1 in an empty table.
    pub open spec fn next_post_id(self) -> int {
        if self.posts.len() == 0 {
            1
        } else {
            self.posts.last().id + 1
        }
    }

    /// The id that the next comment gets: one more than the largest, or 1 in an empty table.
    pub open spec fn next_comment_id(self) -> int {
        if self.comments.len() == 0 {
            1
        } else {
            self.comments.last().id + 1
        }
    }

    /// Inserting a user named `name`: refused if the name is taken, or if the new
    /// id would not fit in 32 bits; otherwise the new row, appended.
    pub open spec fn create_user(self, name: Seq<char>) -> Result<(Tables, UserRecord), Failure> {
        if username_taken(self.users, name) {
            Err(Failure::AlreadyExists)
        } else if self.next_user_id() > i32::MAX {
            Err(Failure::IdOverflow)
        } else {
            let u = UserRecord { id: self.next_user_id() as i32, username: name };
            Ok((Tables { users: self.users.push(u), ..self }, u))
        }
    }

    /// Inserting a post by `user_id`, unpublished: refused only if the new id would
    /// not fit in 32 bits.
    pub open spec fn create_post(self, user_id: i32, title: Seq<char>, body: Seq<char>) -> Result<
        (Tables, PostRecord),
        Failure,
    > {
        if self.next_post_id() > i32::MAX {
            Err(Failure::IdOverflow)
        } else {
            let p = PostRecord {
                id: self.next_post_id() as i32,
                user_id,
                title,
                body,
                published: false,
            };
            Ok((Tables { posts: self.posts.push(p), ..self }, p))
        }
    }

    /// Inserting a comment by `user_id` on `post_id`: refused only if the new id would
    /// not fit in 32 bits.
    pub open spec fn create_comment(self, user_id: i32, post_id: i32, body: Seq<char>) -> Result<
        (Tables, CommentRecord),
        Failure,
    > {
        if self.next_comment_id() > i32::MAX {
            Err(Failure::IdOverflow)
        } else {
            let c = CommentRecord { id: self.next_comment_id() as i32, user_id, post_id, body };
            Ok((Tables { comments: self.comments.push(c), ..self }, c))
        }
    }

    /// Marking the post `post_id` as published: the tables with that row updated, or
    /// unchanged if there is no such post.
    pub open spec fn mark_published(self, post_id: i32) -> Tables {
        match post_position(self.posts, post_id) {
            Some(k) => Tables {
                posts: self.posts.update(k, PostRecord { published: true, ..self.posts[k] }),
                ..self
            },
            None => self,
        }
    }
}

/// Storage of the blog's tables: the rows in the order of their ids, which increase
/// along each table, with unique usernames. New rows get the next id, as SQLite gives
/// an integer primary key.
pub struct Database {
    users: Vec<User>,
    posts: Vec<Post>,
    comments: Vec<Comment>,
}

impl View for Database {
    type V = Tables;

    closed spec fn view(&self) -> Tables {
        Tables {
            users: users_view(self.users@),
            posts: posts_view_of(self.posts@),
            comments: comments_view(self.comments@),
        }
    }
}

/// If ids increase, the user at position `i` is the user with its id.
pub proof fn lemma_user_with_id(users: Seq<UserRecord>, i: int)
    requires
        user_ids_increase(users),
        0 <= i < users.len(),
    ensures
        user_with_id(users, users[i].id) == Some(users[i]),
{
    let id = users[i].id;
    let j = choose|j: int| 0 <= j < users.len() && users[j].id == id;
    assert(users[j].id == id);
    if j < i {
        assert(users[j].id < users[i].id);
    } else if j > i {
        assert(users[i].id < users[j].id);
    }
}

/// If no user has id `id`, there is no user with it.
pub proof fn lemma_no_user_with_id(users: Seq<UserRecord>, id: i32)
    requires
        forall|i: int| 0 <= i < users.len() ==> users[i].id != id,
    ensures
        user_with_id(users, id) is None,
{
}

/// If usernames are unique, the user at position `i` is the user with its name.
pub proof fn lemma_user_named(users: Seq<UserRecord>, i: int)
    requires
        usernames_unique(users),
        0 <= i < users.len(),
    ensures
        user_named(users, users[i].username) == Some(users[i]),
{
    let name = users[i].username;
    assert(username_taken(users, name));
    let j = choose|j: int| 0 <= j < users.len() && users[j].username == name;
    assert(users[j].username == name);
    if j != i {
        assert(users[j].username != users[i].username);
    }
}

/// If ids increase, the post at position `k` is at the position of its id.
pub proof fn lemma_post_position(posts: Seq<PostRecord>, k: int)
    requires
        post_ids_increase(posts),
        0 <= k < posts.len(),
    ensures
        post_position(posts, posts[k].id) == Some(k),
        post_with_id(posts, posts[k].id) == Some(posts[k]),
{
    let id = posts[k].id;
    assert(exists|j: int| 0 <= j < posts.len() && posts[j].id == id) by {
        assert(posts[k].id == id);
    }
    let j = choose|j: int| 0 <= j < posts.len() && posts[j].id == id;
    assert(posts[j].id == id);
    if j < k {
        assert(posts[j].id < posts[k].id);
    } else if j > k {
        assert(posts[k].id < posts[j].id);
    }
}

fn user_ids_ok(users: &Vec<User>) -> (b: bool)
    ensures
        b == user_ids_increase(users_view(users@)),
{
    let ghost s = users_view(users@);
    let n = users.len();
    if n == 0 {
        return true;
    }
    let mut i: usize = 1;
    while i < n
        invariant
            1 <= i <= n,
            n == users@.len(),
            s == users_view(users@),
            forall|a: int, b: int| 0 <= a < b < i ==> users@[a].id < users@[b].id,
        decreases n - i,
    {
        if users[i - 1].id >= users[i].id {
            assert(s[i - 1].id >= s[i as int].id);
            return false;
        }
        i = i + 1;
    }
    assert forall|a: int, b: int| 0 <= a < b < s.len() implies s[a].id < s[b].id by {
        assert(users@[a].id < users@[b].id);
    }
    true
}

fn post_ids_ok(posts: &Vec<Post>) -> (b: bool)
    ensures
        b == post_ids_increase(posts_view_of(posts@)),
{
    let ghost s = posts_view_of(posts@);
    let n = posts.len();
    if n == 0 {
        return true;
    }
    let mut i: usize = 1;
    while i < n
        invariant
            1 <= i <= n,
            n == posts@.len(),
            s == posts_view_of(posts@),
            forall|a: int, b: int| 0 <= a < b < i ==> posts@[a].id < posts@[b].id,
        decreases n - i,
    {
        if posts[i - 1].id >= posts[i].id {
            assert(s[i - 1].id >= s[i as int].id);
            return false;
        }
        i = i + 1;
    }
    assert forall|a: int, b: int| 0 <= a < b < s.len() implies s[a].id < s[b].id by {
        assert(posts@[a].id < posts@[b].id);
    }
    true
}

fn comment_ids_ok(comments: &Vec<Comment>) -> (b: bool)
    ensures
        b == comment_ids_increase(comments_view(comments@)),
{
    let ghost s = comments_view(comments@);
    let n = comments.len();
    if n == 0 {
        return true;
    }
    let mut i: usize = 1;
    while i < n
        invariant
            1 <= i <= n,
            n == comments@.len(),
            s == comments_view(comments@),
            forall|a: int, b: int| 0 <= a < b < i ==> comments@[a].id < comments@[b].id,
        decreases n - i,
    {
        if comments[i - 1].id >= comments[i].id {
            assert(s[i - 1].id >= s[i as int].id);
            return false;
        }
        i = i + 1;
    }
    assert forall|a: int, b: int| 0 <= a < b < s.len() implies s[a].id < s[b].id by {
        assert(comments@[a].id < comments@[b].id);
    }
    true
}

impl Database {
    /// The rows are well formed: ids increase along each table and usernames are unique.
    pub open spec fn wf(&self) -> bool {
        self@.wf()
    }

    /// Storage with no rows.
    pub fn new() -> (db: Database)
        ensures
            db.wf(),
            db@ == Tables::empty(),
    {
        let db = Database { users: Vec::new(), posts: Vec::new(), comments: Vec::new() };
        assert(db@.users =~= seq![]);
        assert(db@.posts =~= seq![]);
        assert(db@.comments =~= seq![]);
        db
    }

    /// Storage holding the given rows, if they are well formed: ids increase along
    /// each table and usernames are unique. `None` otherwise.
    #[verifier::loop_isolation(false)]
    pub fn from_rows(users: Vec<User>, posts: Vec<Post>, comments: Vec<Comment>) -> (r: Option<
        Database,
    >)
        ensures
            ({
                let t = Tables {
                    users: users_view(users@),
                    posts: posts_view_of(posts@),
                    comments: comments_view(comments@),
                };
                match r {
                    Some(db) => db@ == t && db.wf(),
                    None => !t.wf(),
                }
            }),
    {
        if !user_ids_ok(&users) || !post_ids_ok(&posts) || !comment_ids_ok(&comments) {
            return None;
        }
        let db = Database { users, posts, comments };
        let n = db.users.len();
        let mut i: usize = 0;
        while i < n
            invariant
                n == db.users@.len(),
                i <= n,
                forall|a: int, b: int|
                    0 <= a < i && 0 <= b < n && a != b ==> db@.users[a].username
                        != db@.users[b].username,
            decreases n - i,
        {
            let mut j: usize = 0;
            while j < n
                invariant
                    n == db.users@.len(),
                    i < n,
                    j <= n,
                    forall|a: int, b: int|
                        0 <= a < i && 0 <= b < n && a != b ==> db@.users[a].username
                            != db@.users[b].username,
                    forall|b: int|
                        0 <= b < j && b != i ==> db@.users[i as int].username
                            != db@.users[b].username,
                decreases n - j,
            {
                if j != i && db.users[i].username == db.users[j].username {
                    assert(db@.users[i as int].username == db@.users[j as int].username);
                    assert(!usernames_unique(db@.users));
                    return None;
                }
                j = j + 1;
            }
            i = i + 1;
        }
        Some(db)
    }

    /// The position of the user whose id is `id`, if there is one.
    pub fn user_position(&self, id: i32) -> (r: Option<usize>)
        ensures
            match r {
                Some(i) => i < self@.users.len() && self@.users[i as int].id == id,
                None => forall|i: int| 0 <= i < self@.users.len() ==> self@.users[i].id != id,
            },
    {
        let n = self.users.len();
        let mut i: usize = 0;
        while i < n
            invariant
                n == self@.users.len(),
                i <= n,
                forall|k: int| 0 <= k < i ==> self@.users[k].id != id,
            decreases n - i,
        {
            if self.users[i].id == id {
                return Some(i);
            }
            i = i + 1;
        }
        None
    }

    /// The position of the user whose username is `name`, if there is one.
    pub fn user_position_by_name(&self, name: &str) -> (r: Option<usize>)
        ensures
            match r {
                Some(i) => i < self@.users.len() && self@.users[i as int].username == name@,
                None => !username_taken(self@.users, name@),
            },
    {
        let wanted = name.to_owned();
        let n = self.users.len();
        let mut i: usize = 0;
        while i < n
            invariant
                n == self@.users.len(),
                i <= n,
                wanted@ == name@,
                forall|k: int| 0 <= k < i ==> self@.users[k].username != name@,
            decreases n - i,
        {
            if self.users[i].username == wanted {
                return Some(i);
            }
            i = i + 1;
        }
        None
    }

    /// The position of the post whose id is `id`, if there is one.
    pub fn post_position(&self, id: i32) -> (r: Option<usize>)
        ensures
            match r {
                Some(k) => k < self@.posts.len() && self@.posts[k as int].id == id,
                None => forall|k: int| 0 <= k < self@.posts.len() ==> self@.posts[k].id != id,
            },
    {
        let n = self.posts.len();
        let mut k: usize = 0;
        while k < n
            invariant
                n == self@.posts.len(),
                k <= n,
                forall|j: int| 0 <= j < k ==> self@.posts[j].id != id,
            decreases n - k,
        {
            if self.posts[k].id == id {
                return Some(k);
            }
            k = k + 1;
        }
        None
    }

    /// Inserts a user named `username` with the next id, as the unique index on
    /// usernames and the integer primary key of the users table have it.
    pub fn insert_user(&mut self, username: &str) -> (r: Result<(), AppError>)
        requires
            old(self).wf(),
        ensures
            final(self).wf(),
            final(self)@ == tables_after(old(self)@, old(self)@.create_user(username@)),
            completes(r, old(self)@.create_user(username@)),
    {
        if let Some(i) = self.user_position_by_name(username) {
            assert(username_taken(self@.users, username@));
            return Err(AppError::RecordAlreadyExists);
        }
        let n = self.users.len();
        let id: i32 = if n == 0 {
            1
        } else {
            let last = self.users[n - 1].id;
            if last == i32::MAX {
                return Err(AppError::id_overflow());
            }
            last + 1
        };
        let u = User { id, username: username.to_owned() };
        let ghost before = self@;
        let ghost row = u@;
        self.users.push(u);
        proof {
            assert(self@.users =~= before.users.push(row));
            assert(self@.posts =~= before.posts);
            assert(self@.comments =~= before.comments);
            assert forall|a: int, b: int|
                0 <= a < self@.users.len() && 0 <= b < self@.users.len() && a != b implies
                self@.users[a].username != self@.users[b].username by {
                if a == n as int {
                    assert(before.users[b].username != username@);
                } else if b == n as int {
                    assert(before.users[a].username != username@);
                }
            }
            assert forall|a: int, b: int| 0 <= a < b < self@.users.len() implies
                self@.users[a].id < self@.users[b].id by {
                if b == n as int && a < n as int - 1 {
                    assert(before.users[a].id < before.users[n as int - 1].id);
                }
            }
        }
        Ok(())
    }

    /// Inserts a post with the next id, unpublished, as the integer primary key of
    /// the posts table has it.
    pub fn insert_post(&mut self, user_id: i32, title: &str, body: &str) -> (r: Result<
        (),
        AppError,
    >)
        requires
            old(self).wf(),
        ensures
            final(self).wf(),
            final(self)@ == tables_after(
                old(self)@,
                old(self)@.create_post(user_id, title@, body@),
            ),
            completes(r, old(self)@.create_post(user_id, title@, body@)),
    {
        let n = self.posts.len();
        let id: i32 = if n == 0 {
            1
        } else {
            let last = self.posts[n - 1].id;
            if last == i32::MAX {
                return Err(AppError::id_overflow());
            }
            last + 1
        };
        let p = Post {
            id,
            user_id,
            title: title.to_owned(),
            body: body.to_owned(),
            published: false,
        };
        let ghost before = self@;
        let ghost row = p@;
        self.posts.push(p);
        proof {
            assert(self@.posts =~= before.posts.push(row));
            assert(self@.users =~= before.users);
            assert(self@.comments =~= before.comments);
            assert forall|a: int, b: int| 0 <= a < b < self@.posts.len() implies
                self@.posts[a].id < self@.posts[b].id by {
                if b == n as int && a < n as int - 1 {
                    assert(before.posts[a].id < before.posts[n as int - 1].id);
                }
            }
        }
        Ok(())
    }

    /// Inserts a comment with the next id, as the integer primary key of the
    /// comments table has it.
    pub fn insert_comment(&mut self, user_id: i32, post_id: i32, body: &str) -> (r: Result<
        (),
        AppError,
    >)
        requires
            old(self).wf(),
        ensures
            final(self).wf(),
            final(self)@ == tables_after(
                old(self)@,
                old(self)@.create_comment(user_id, post_id, body@),
            ),
            completes(r, old(self)@.create_comment(user_id, post_id, body@)),
    {
        let n = self.comments.len();
        let id: i32 = if n == 0 {
            1
        } else {
            let last = self.comments[n - 1].id;
            if last == i32::MAX {
                return Err(AppError::id_overflow());
            }
            last + 1
        };
        let c = Comment { id, user_id, post_id, body: body.to_owned() };
        let ghost before = self@;
        let ghost row = c@;
        self.comments.push(c);
        proof {
            assert(self@.comments =~= before.comments.push(row));
            assert(self@.users =~= before.users);
            assert(self@.posts =~= before.posts);
            assert forall|a: int, b: int| 0 <= a < b < self@.comments.len() implies
                self@.comments[a].id < self@.comments[b].id by {
                if b == n as int && a < n as int - 1 {
                    assert(before.comments[a].id < before.comments[n as int - 1].id);
                }
            }
        }
        Ok(())
    }

    /// Marks the post `post_id` as published; no row changes if there is no such post.
    pub fn mark_published(&mut self, post_id: i32)
        requires
            old(self).wf(),
        ensures
            final(self).wf(),
            final(self)@ == old(self)@.mark_published(post_id),
    {
        if let Some(k) = self.post_position(post_id) {
            proof {
                lemma_post_position(self@.posts, k as int);
            }
            let mut p = self.posts[k].clone();
            p.published = true;
            let ghost before = self@;
            let ghost row = p@;
            self.posts.set(k, p);
            proof {
                assert(self@.posts =~= before.posts.update(k as int, row));
                assert(self@.users =~= before.users);
                assert(self@.comments =~= before.comments);
            }
        } else {
            assert(post_position(self@.posts, post_id) is None);
        }
    }

    /// The rows of the users table, in the order of their ids.
    pub fn users(&self) -> (r: &Vec<User>)
        ensures
            users_view(r@) == self@.users,
    {
        &self.users
    }

    /// The rows of the posts table, in the order of their ids.
    pub fn posts(&self) -> (r: &Vec<Post>)
        ensures
            posts_view_of(r@) == self@.posts,
    {
        &self.posts
    }

    /// The rows of the comments table, in the order of their ids.
    pub fn comments(&self) -> (r: &Vec<Comment>)
        ensures
            comments_view(r@) == self@.comments,
    {
        &self.comments
    }
}

} // verus!
