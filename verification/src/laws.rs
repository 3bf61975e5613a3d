use vstd::prelude::*;

use crate::errors::Failure;
use crate::models::comment_action::{comments_on, post_comments_of, user_comments_of};
use crate::models::database::{
    lemma_post_position, lemma_user_named, lemma_user_with_id, post_position, post_with_id,
    user_with_id,
    Tables,
};
use crate::models::post_action::{
    all_posts_of, posts_by, publish_post_of, published_with_authors, user_posts_of,
};
use crate::models::user_action::{find_user_by_id, find_user_by_name};
use crate::models::{summary_of, CommentRecord, PostRecord, UserRecord};

verus! {

/// Every pair that joining `s` with `users` gives is a published post of `s` with its
/// author, and every published post of `s` whose author exists is in it.
pub proof fn lemma_published_with_authors_members(s: Seq<PostRecord>, users: Seq<UserRecord>)
    ensures
        forall|i: int|
            0 <= i < published_with_authors(s, users).len() ==> {
                let pu = #[trigger] published_with_authors(s, users)[i];
                &&& pu.0.published
                &&& user_with_id(users, pu.0.user_id) == Some(pu.1)
                &&& s.contains(pu.0)
            },
        forall|j: int|
            0 <= j < s.len() && (#[trigger] s[j]).published && user_with_id(users, s[j].user_id)
                is Some ==> published_with_authors(s, users).contains(
                (s[j], user_with_id(users, s[j].user_id)->Some_0),
            ),
    decreases s.len(),
{
    if s.len() > 0 {
        let s0 = s.drop_last();
        lemma_published_with_authors_members(s0, users);
        let r0 = published_with_authors(s0, users);
        let r = published_with_authors(s, users);
        assert forall|i: int| 0 <= i < r.len() implies {
            let pu = #[trigger] r[i];
            &&& pu.0.published
            &&& user_with_id(users, pu.0.user_id) == Some(pu.1)
            &&& s.contains(pu.0)
        } by {
            if i < r0.len() {
                assert(r[i] == r0[i]);
                let pu = r0[i];
                let j = choose|j: int| 0 <= j < s0.len() && s0[j] == pu.0;
                assert(s[j] == pu.0);
            } else {
                assert(s[s.len() - 1] == s.last());
            }
        }
        assert forall|j: int|
            0 <= j < s.len() && (#[trigger] s[j]).published && user_with_id(users, s[j].user_id)
                is Some implies r.contains((s[j], user_with_id(users, s[j].user_id)->Some_0)) by {
            let x = (s[j], user_with_id(users, s[j].user_id)->Some_0);
            if j < s.len() - 1 {
                assert(s0[j] == s[j]);
                let i = choose|i: int| 0 <= i < r0.len() && r0[i] == x;
                assert(r[i] == x);
            } else {
                assert(r[r.len() - 1] == x);
            }
        }
    }
}

/// Joining posts whose ids decrease gives pairs whose post ids decrease.
pub proof fn lemma_published_with_authors_order(s: Seq<PostRecord>, users: Seq<UserRecord>)
    requires
        forall|a: int, b: int| 0 <= a < b < s.len() ==> s[a].id > s[b].id,
    ensures
        forall|a: int, b: int|
            0 <= a < b < published_with_authors(s, users).len() ==> published_with_authors(
                s,
                users,
            )[a].0.id > published_with_authors(s, users)[b].0.id,
    decreases s.len(),
{
    if s.len() > 0 {
        let s0 = s.drop_last();
        lemma_published_with_authors_order(s0, users);
        lemma_published_with_authors_members(s0, users);
        let r0 = published_with_authors(s0, users);
        let r = published_with_authors(s, users);
        assert forall|a: int, b: int| 0 <= a < b < r.len() implies r[a].0.id > r[b].0.id by {
            if b < r0.len() {
                assert(r[a] == r0[a] && r[b] == r0[b]);
            } else {
                assert(r[a] == r0[a]);
                let pu = r0[a];
                let j = choose|j: int| 0 <= j < s0.len() && s0[j] == pu.0;
                assert(s[j] == pu.0);
                assert(r[b].0 == s[s.len() - 1]);
            }
        }
    }
}

/// Read what was written: a user that `create_user` has added is what `find_user`
/// answers, both by its username and by its id.
pub proof fn law_created_user_is_found(t: Tables, name: Seq<char>)
    requires
        t.wf(),
        t.create_user(name) is Ok,
    ensures
        ({
            let (t2, u) = t.create_user(name)->Ok_0;
            &&& find_user_by_name(t2, name) == Ok::<UserRecord, Failure>(u)
            &&& find_user_by_id(t2, u.id) == Ok::<UserRecord, Failure>(u)
        }),
{
    let (t2, u) = t.create_user(name)->Ok_0;
    let n = t.users.len() as int;
    assert(t2.users[n] == u);
    assert(t2.wf()) by {
        assert forall|a: int, b: int|
            0 <= a < t2.users.len() && 0 <= b < t2.users.len() && a != b implies
            t2.users[a].username != t2.users[b].username by {
            if a == n {
                assert(t.users[b].username != name);
            } else if b == n {
                assert(t.users[a].username != name);
            }
        }
        assert forall|a: int, b: int| 0 <= a < b < t2.users.len() implies t2.users[a].id
            < t2.users[b].id by {
            if b == n && a < n - 1 {
                assert(t.users[a].id < t.users[n - 1].id);
            }
        }
    }
    lemma_user_named(t2.users, n);
    lemma_user_with_id(t2.users, n);
}

/// A username is refused once it is taken: after `create_user` has added a user
/// named `name`, a second `create_user` with that name answers `AlreadyExists`.
pub proof fn law_username_taken_twice_is_refused(t: Tables, name: Seq<char>)
    requires
        t.create_user(name) is Ok,
    ensures
        (t.create_user(name)->Ok_0).0.create_user(name) == Err::<(Tables, UserRecord), Failure>(
            Failure::AlreadyExists,
        ),
{
    let (t2, u) = t.create_user(name)->Ok_0;
    assert(t2.users[t.users.len() as int].username == name);
}

/// Publishing is idempotent: publishing a post a second time changes nothing and
/// answers with the same row.
pub proof fn law_publish_is_idempotent(t: Tables, post_id: i32)
    requires
        t.wf(),
        publish_post_of(t, post_id) is Ok,
    ensures
        ({
            let (t2, p) = publish_post_of(t, post_id)->Ok_0;
            publish_post_of(t2, post_id) == Ok::<(Tables, PostRecord), Failure>((t2, p))
        }),
{
    let k = post_position(t.posts, post_id)->Some_0;
    lemma_post_position(t.posts, k);
    let (t2, p) = publish_post_of(t, post_id)->Ok_0;
    assert(t2.posts[k] == p);
    assert forall|a: int, b: int| 0 <= a < b < t2.posts.len() implies t2.posts[a].id
        < t2.posts[b].id by {
        assert(t2.posts[a].id == t.posts[a].id);
        assert(t2.posts[b].id == t.posts[b].id);
    }
    lemma_post_position(t2.posts, k);
    assert(t2.posts.update(k, PostRecord { published: true, ..t2.posts[k] }) =~= t2.posts);
}

/// A published post is listed: after `publish_post`, the post, with its author and
/// its comments, is among the posts that `all_posts` lists, provided its author
/// exists (the listing joins posts with their authors).
pub proof fn law_published_post_is_listed(t: Tables, post_id: i32)
    requires
        t.wf(),
        publish_post_of(t, post_id) is Ok,
        user_with_id(t.users, (publish_post_of(t, post_id)->Ok_0).1.user_id) is Some,
    ensures
        ({
            let (t2, p) = publish_post_of(t, post_id)->Ok_0;
            let u = user_with_id(t.users, p.user_id)->Some_0;
            all_posts_of(t2).contains(((p, u), post_comments_of(t2, p.id)))
        }),
{
    let k = post_position(t.posts, post_id)->Some_0;
    lemma_post_position(t.posts, k);
    let (t2, p) = publish_post_of(t, post_id)->Ok_0;
    let u = user_with_id(t.users, p.user_id)->Some_0;
    let n = t2.posts.len() as int;
    let rev = t2.posts.reverse();
    assert(t2.posts[k] == p);
    assert(rev[n - 1 - k] == p);
    assert(t2.users == t.users);
    lemma_published_with_authors_members(rev, t2.users);
    let joined = published_with_authors(rev, t2.users);
    assert(rev[n - 1 - k].published);
    let i = choose|i: int| 0 <= i < joined.len() && joined[i] == (p, u);
    assert(all_posts_of(t2)[i] == ((p, u), post_comments_of(t2, p.id)));
}

/// The listing of `all_posts` holds published posts only, each with its author, newest
/// (largest id) first.
pub proof fn law_all_posts_published_newest_first(t: Tables)
    requires
        t.wf(),
    ensures
        forall|i: int|
            0 <= i < all_posts_of(t).len() ==> {
                let e = #[trigger] all_posts_of(t)[i];
                &&& e.0.0.published
                &&& user_with_id(t.users, e.0.0.user_id) == Some(e.0.1)
                &&& t.posts.contains(e.0.0)
                &&& e.1 == post_comments_of(t, e.0.0.id)
            },
        forall|a: int, b: int|
            0 <= a < b < all_posts_of(t).len() ==> all_posts_of(t)[a].0.0.id > all_posts_of(
                t,
            )[b].0.0.id,
{
    let rev = t.posts.reverse();
    let n = t.posts.len() as int;
    assert forall|a: int, b: int| 0 <= a < b < rev.len() implies rev[a].id > rev[b].id by {
        assert(rev[a] == t.posts[n - 1 - a]);
        assert(rev[b] == t.posts[n - 1 - b]);
    }
    lemma_published_with_authors_members(rev, t.users);
    lemma_published_with_authors_order(rev, t.users);
    let joined = published_with_authors(rev, t.users);
    assert forall|i: int| 0 <= i < all_posts_of(t).len() implies {
        let e = #[trigger] all_posts_of(t)[i];
        &&& e.0.0.published
        &&& user_with_id(t.users, e.0.0.user_id) == Some(e.0.1)
        &&& t.posts.contains(e.0.0)
        &&& e.1 == post_comments_of(t, e.0.0.id)
    } by {
        let pu = joined[i];
        let j = choose|j: int| 0 <= j < rev.len() && rev[j] == pu.0;
        assert(t.posts[n - 1 - j] == pu.0);
    }
    assert forall|a: int, b: int| 0 <= a < b < all_posts_of(t).len() implies all_posts_of(
        t,
    )[a].0.0.id > all_posts_of(t)[b].0.0.id by {
        assert(all_posts_of(t)[a].0 == joined[a]);
        assert(all_posts_of(t)[b].0 == joined[b]);
    }
}

/// When the first post of `s` is by `user_id`, it is the first of the posts by `user_id`.
pub proof fn lemma_posts_by_first(s: Seq<PostRecord>, user_id: i32)
    requires
        s.len() > 0,
        s[0].user_id == user_id,
    ensures
        posts_by(s, user_id).len() > 0,
        posts_by(s, user_id)[0] == s[0],
    decreases s.len(),
{
    if s.len() > 1 {
        let s0 = s.drop_last();
        assert(s0[0] == s[0]);
        lemma_posts_by_first(s0, user_id);
        let r0 = posts_by(s0, user_id);
        if s.last().user_id == user_id {
            assert(r0.push(s.last())[0] == r0[0]);
        }
    } else {
        assert(s.drop_last().len() == 0);
        assert(posts_by(s.drop_last(), user_id) =~= seq![]);
        assert(s.last() == s[0]);
    }
}

/// A new post comes first among the posts of its author: after `create_post`, the
/// first entry of `user_posts` for the author is the new post with its comments.
pub proof fn law_created_post_heads_user_posts(
    t: Tables,
    user_id: i32,
    title: Seq<char>,
    body: Seq<char>,
)
    requires
        t.create_post(user_id, title, body) is Ok,
    ensures
        ({
            let (t2, p) = t.create_post(user_id, title, body)->Ok_0;
            &&& user_posts_of(t2, user_id).len() > 0
            &&& user_posts_of(t2, user_id)[0] == (p, post_comments_of(t2, p.id))
        }),
{
    let (t2, p) = t.create_post(user_id, title, body)->Ok_0;
    let rev = t2.posts.reverse();
    assert(rev[0] == t2.posts[t.posts.len() as int]);
    lemma_posts_by_first(rev, user_id);
}

/// A new comment comes last among the comments on its post: after `create_comment`,
/// `post_comments` for that post lists what it listed before and then the new comment
/// with its author, provided the author exists; the comments on every other post are
/// unchanged.
pub proof fn law_created_comment_is_listed(
    t: Tables,
    user_id: i32,
    post_id: i32,
    body: Seq<char>,
)
    requires
        t.create_comment(user_id, post_id, body) is Ok,
        user_with_id(t.users, user_id) is Some,
    ensures
        ({
            let (t2, c) = t.create_comment(user_id, post_id, body)->Ok_0;
            &&& post_comments_of(t2, post_id) == post_comments_of(t, post_id).push(
                (c, user_with_id(t.users, user_id)->Some_0),
            )
            &&& forall|other: i32|
                other != post_id ==> #[trigger] post_comments_of(t2, other) == post_comments_of(
                    t,
                    other,
                )
        }),
{
    let (t2, c) = t.create_comment(user_id, post_id, body)->Ok_0;
    assert(t2.comments.drop_last() =~= t.comments);
    assert(t2.comments.last() == c);
    assert forall|other: i32| other != post_id implies #[trigger] post_comments_of(t2, other)
        == post_comments_of(t, other) by {
        assert(comments_on(t2.comments, t2.users, other) == comments_on(
            t2.comments.drop_last(),
            t2.users,
            other,
        ));
    }
}

/// A new comment comes last among the comments of its author: after `create_comment`,
/// `user_comments` for the author lists what it listed before and then the new comment
/// with its post, provided the post exists.
pub proof fn law_created_comment_is_listed_for_its_author(
    t: Tables,
    user_id: i32,
    post_id: i32,
    body: Seq<char>,
)
    requires
        t.create_comment(user_id, post_id, body) is Ok,
        post_with_id(t.posts, post_id) is Some,
    ensures
        ({
            let (t2, c) = t.create_comment(user_id, post_id, body)->Ok_0;
            user_comments_of(t2, user_id) == user_comments_of(t, user_id).push(
                (c, summary_of(post_with_id(t.posts, post_id)->Some_0)),
            )
        }),
{
    let (t2, c) = t.create_comment(user_id, post_id, body)->Ok_0;
    assert(t2.comments.drop_last() =~= t.comments);
    assert(t2.comments.last() == c);
}

/// Looking a user up by the username of any user answers that user.
pub proof fn law_find_user_by_name_answers_that_user(t: Tables, i: int)
    requires
        t.wf(),
        0 <= i < t.users.len(),
    ensures
        find_user_by_name(t, t.users[i].username) == Ok::<UserRecord, Failure>(t.users[i]),
{
    lemma_user_named(t.users, i);
}

/// Looking a user up by a username that no user has answers `NotFound`.
pub proof fn law_find_user_by_unknown_name_is_not_found(t: Tables, name: Seq<char>)
    requires
        forall|i: int| 0 <= i < t.users.len() ==> t.users[i].username != name,
    ensures
        find_user_by_name(t, name) == Err::<UserRecord, Failure>(Failure::NotFound),
{
}

/// Looking a user up by the id of any user answers that user.
pub proof fn law_find_user_by_id_answers_that_user(t: Tables, i: int)
    requires
        t.wf(),
        0 <= i < t.users.len(),
    ensures
        find_user_by_id(t, t.users[i].id) == Ok::<UserRecord, Failure>(t.users[i]),
{
    lemma_user_with_id(t.users, i);
}

/// Looking a user up by an id that no user has answers `NotFound`.
pub proof fn law_find_user_by_unknown_id_is_not_found(t: Tables, id: i32)
    requires
        forall|i: int| 0 <= i < t.users.len() ==> t.users[i].id != id,
    ensures
        find_user_by_id(t, id) == Err::<UserRecord, Failure>(Failure::NotFound),
{
}

/// Publishing the post at position `k` answers that post marked as published, and
/// changes that row only: every other post, every user and every comment stay as
/// they were.
pub proof fn law_publish_post_marks_that_post(t: Tables, k: int)
    requires
        t.wf(),
        0 <= k < t.posts.len(),
    ensures
        ({
            let old_post = t.posts[k];
            let p = PostRecord {
                id: old_post.id,
                user_id: old_post.user_id,
                title: old_post.title,
                body: old_post.body,
                published: true,
            };
            publish_post_of(t, old_post.id) == Ok::<(Tables, PostRecord), Failure>(
                (Tables { users: t.users, posts: t.posts.update(k, p), comments: t.comments }, p),
            )
        }),
{
    lemma_post_position(t.posts, k);
}

/// The post answered by a successful `publish_post` has the id that was asked for, is
/// published, and is the row with that id in the new tables.
pub proof fn law_published_row_is_the_one_asked_for(t: Tables, post_id: i32)
    requires
        t.wf(),
        publish_post_of(t, post_id) is Ok,
    ensures
        ({
            let (t2, p) = publish_post_of(t, post_id)->Ok_0;
            &&& p.id == post_id
            &&& p.published
            &&& t2.posts.len() == t.posts.len()
            &&& exists|k: int| 0 <= k < t2.posts.len() && t2.posts[k] == p
            &&& forall|j: int|
                0 <= j < t.posts.len() && t.posts[j].id != post_id ==> t2.posts[j] == t.posts[j]
        }),
{
    let k = post_position(t.posts, post_id)->Some_0;
    lemma_post_position(t.posts, k);
    let (t2, p) = publish_post_of(t, post_id)->Ok_0;
    assert(t2.posts[k] == p);
}

/// Publishing an id that no post has answers `NotFound`.
pub proof fn law_publish_unknown_post_is_not_found(t: Tables, post_id: i32)
    requires
        forall|k: int| 0 <= k < t.posts.len() ==> t.posts[k].id != post_id,
    ensures
        publish_post_of(t, post_id) == Err::<(Tables, PostRecord), Failure>(Failure::NotFound),
{
}

/// Creating a user: refused with `AlreadyExists` exactly when some user has the name;
/// otherwise, unless the id would overflow, the new user has the name, an id larger
/// than every other, and is appended to the users while the other tables stay.
pub proof fn law_create_user_adds_that_user(t: Tables, name: Seq<char>)
    requires
        t.wf(),
    ensures
        (exists|i: int| 0 <= i < t.users.len() && t.users[i].username == name) ==> t.create_user(
            name,
        ) == Err::<(Tables, UserRecord), Failure>(Failure::AlreadyExists),
        (forall|i: int| 0 <= i < t.users.len() ==> t.users[i].username != name) ==> (t.create_user(
            name,
        ) is Ok <==> (t.users.len() == 0 || t.users.last().id < i32::MAX)),
        t.create_user(name) is Ok ==> {
            let (t2, u) = t.create_user(name)->Ok_0;
            &&& u.username == name
            &&& forall|i: int| 0 <= i < t.users.len() ==> t.users[i].id < u.id
            &&& t2.users == t.users.push(u)
            &&& t2.posts == t.posts
            &&& t2.comments == t.comments
        },
{
    if t.create_user(name) is Ok {
        let (t2, u) = t.create_user(name)->Ok_0;
        assert forall|i: int| 0 <= i < t.users.len() implies t.users[i].id < u.id by {
            if i < t.users.len() - 1 {
                assert(t.users[i].id < t.users[t.users.len() - 1].id);
            }
        }
    }
}

/// Creating a post: it is unpublished, has the author, title and body given and an id
/// larger than every other, and is appended to the posts while the other tables stay.
/// It is refused (`IdOverflow`) only when the largest id is `i32::MAX`.
pub proof fn law_create_post_adds_an_unpublished_post(
    t: Tables,
    user_id: i32,
    title: Seq<char>,
    body: Seq<char>,
)
    requires
        t.wf(),
    ensures
        t.create_post(user_id, title, body) is Ok <==> (t.posts.len() == 0 || t.posts.last().id
            < i32::MAX),
        t.create_post(user_id, title, body) is Err ==> t.create_post(user_id, title, body)
            == Err::<(Tables, PostRecord), Failure>(Failure::IdOverflow),
        t.create_post(user_id, title, body) is Ok ==> {
            let (t2, p) = t.create_post(user_id, title, body)->Ok_0;
            &&& !p.published
            &&& p.user_id == user_id
            &&& p.title == title
            &&& p.body == body
            &&& forall|k: int| 0 <= k < t.posts.len() ==> t.posts[k].id < p.id
            &&& t2.posts == t.posts.push(p)
            &&& t2.users == t.users
            &&& t2.comments == t.comments
        },
{
    if t.create_post(user_id, title, body) is Ok {
        let (t2, p) = t.create_post(user_id, title, body)->Ok_0;
        assert forall|k: int| 0 <= k < t.posts.len() implies t.posts[k].id < p.id by {
            if k < t.posts.len() - 1 {
                assert(t.posts[k].id < t.posts[t.posts.len() - 1].id);
            }
        }
    }
}

/// Creating a comment: it has the author, post and body given and an id larger than
/// every other, and is appended to the comments while the other tables stay. It is
/// refused (`IdOverflow`) only when the largest id is `i32::MAX`.
pub proof fn law_create_comment_adds_that_comment(
    t: Tables,
    user_id: i32,
    post_id: i32,
    body: Seq<char>,
)
    requires
        t.wf(),
    ensures
        t.create_comment(user_id, post_id, body) is Ok <==> (t.comments.len() == 0
            || t.comments.last().id < i32::MAX),
        t.create_comment(user_id, post_id, body) is Err ==> t.create_comment(
            user_id,
            post_id,
            body,
        ) == Err::<(Tables, CommentRecord), Failure>(Failure::IdOverflow),
        t.create_comment(user_id, post_id, body) is Ok ==> {
            let (t2, c) = t.create_comment(user_id, post_id, body)->Ok_0;
            &&& c.user_id == user_id
            &&& c.post_id == post_id
            &&& c.body == body
            &&& forall|k: int| 0 <= k < t.comments.len() ==> t.comments[k].id < c.id
            &&& t2.comments == t.comments.push(c)
            &&& t2.users == t.users
            &&& t2.posts == t.posts
        },
{
    if t.create_comment(user_id, post_id, body) is Ok {
        let (t2, c) = t.create_comment(user_id, post_id, body)->Ok_0;
        assert forall|k: int| 0 <= k < t.comments.len() implies t.comments[k].id < c.id by {
            if k < t.comments.len() - 1 {
                assert(t.comments[k].id < t.comments[t.comments.len() - 1].id);
            }
        }
    }
}

} // verus!
