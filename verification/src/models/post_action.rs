use vstd::prelude::*;

use crate::errors::{AppError, Failure};
use crate::models::comment_action::{comments_with_authors, post_comments_of};
use crate::models::database::{
    answers, lemma_no_user_with_id, lemma_post_position, lemma_user_with_id, post_position,
    posts_view_of, result_of, tables_after, user_with_id, users_view, Database, Tables,
};
use crate::models::{
    authored_posts_view, comment_user_pairs, posts_with_comments_view, Comment, CommentRecord, Post, PostRecord, User, UserRecord,
};

verus! {

/// The published posts among `ps`, in order, each with its author; a post whose
/// author is not among `users` is left out (an inner join).
pub open spec fn published_with_authors(ps: Seq<PostRecord>, users: Seq<UserRecord>) -> Seq<
    (PostRecord, UserRecord),
>
    decreases ps.len(),
{
    if ps.len() == 0 {
        seq![]
    } else {
        let rest = published_with_authors(ps.drop_last(), users);
        let p = ps.last();
        if p.published {
            match user_with_id(users, p.user_id) {
                Some(u) => rest.push((p, u)),
                None => rest,
            }
        } else {
            rest
        }
    }
}

/// The posts among `ps` written by `user_id`, in order.
pub open spec fn posts_by(ps: Seq<PostRecord>, user_id: i32) -> Seq<PostRecord>
    decreases ps.len(),
{
    if ps.len() == 0 {
        seq![]
    } else {
        let rest = posts_by(ps.drop_last(), user_id);
        if ps.last().user_id == user_id {
            rest.push(ps.last())
        } else {
            rest
        }
    }
}

/// Each (post, author) pair with the post's comments, as `grouped_by` groups them.
pub open spec fn with_comments_authored(t: Tables, s: Seq<(PostRecord, UserRecord)>) -> Seq<
    ((PostRecord, UserRecord), Seq<(CommentRecord, UserRecord)>),
> {
    s.map_values(|pu: (PostRecord, UserRecord)| (pu, post_comments_of(t, pu.0.id)))
}

/// Each post with its comments, as `grouped_by` groups them.
pub open spec fn with_comments(t: Tables, s: Seq<PostRecord>) -> Seq<
    (PostRecord, Seq<(CommentRecord, UserRecord)>),
> {
    s.map_values(|p: PostRecord| (p, post_comments_of(t, p.id)))
}

/// Every published post whose author exists, newest first, with its author and
/// with its comments (each with its author).
pub open spec fn all_posts_of(t: Tables) -> Seq<
    ((PostRecord, UserRecord), Seq<(CommentRecord, UserRecord)>),
> {
    with_comments_authored(t, published_with_authors(t.posts.reverse(), t.users))
}

/// Every post of `user_id`, published or not, newest first, with its comments (each
/// with its author).
pub open spec fn user_posts_of(t: Tables, user_id: i32) -> Seq<
    (PostRecord, Seq<(CommentRecord, UserRecord)>),
> {
    with_comments(t, posts_by(t.posts.reverse(), user_id))
}

/// Publishing the post `post_id`: the row marked as published, or `NotFound` if there
/// is no such post.
pub open spec fn publish_post_of(t: Tables, post_id: i32) -> Result<(Tables, PostRecord), Failure> {
    match post_position(t.posts, post_id) {
        Some(k) => Ok((t.mark_published(post_id), PostRecord { published: true, ..t.posts[k] })),
        None => Err(Failure::NotFound),
    }
}

/// The newest row of the posts table, as `order(id desc).first()` gives it.
pub open spec fn newest_post(t: Tables) -> Result<PostRecord, Failure> {
    if t.posts.len() == 0 {
        Err(Failure::NotFound)
    } else {
        Ok(t.posts.last())
    }
}

/// The newest post.
fn latest_post(db: &Database) -> (r: Result<Post, AppError>)
    ensures
        answers(r, newest_post(db@)),
{
    let posts = db.posts();
    let n = posts.len();
    if n == 0 {
        Err(AppError::RecordNotFound)
    } else {
        assert(posts_view_of(posts@)[n - 1] == posts@[n - 1]@);
        Ok(posts[n - 1].clone())
    }
}

/// Adds an unpublished post by `user` and answers with the new row.
pub fn create_post(db: &mut Database, user: &User, title: &str, body: &str) -> (r: Result<
    Post,
    AppError,
>)
    requires
        old(db).wf(),
    ensures
        final(db).wf(),
        final(db)@ == tables_after(old(db)@, old(db)@.create_post(user.id, title@, body@)),
        answers(r, result_of(old(db)@.create_post(user.id, title@, body@))),
{
    match db.insert_post(user.id, title, body) {
        Ok(()) => {},
        Err(e) => {
            return Err(e);
        },
    }
    latest_post(db)
}

/// Marks the post `post_id` as published and answers with the updated row;
/// `RecordNotFound` (and no change) if there is no such post.
pub fn publish_post(db: &mut Database, post_id: i32) -> (r: Result<Post, AppError>)
    requires
        old(db).wf(),
    ensures
        final(db).wf(),
        final(db)@ == tables_after(old(db)@, publish_post_of(old(db)@, post_id)),
        answers(r, result_of(publish_post_of(old(db)@, post_id))),
{
    let ghost before = db@;
    db.mark_published(post_id);
    match db.post_position(post_id) {
        Some(k) => {
            proof {
                lemma_post_position(db@.posts, k as int);
                match post_position(before.posts, post_id) {
                    Some(k0) => {
                        assert(db@.posts[k as int].id == before.posts[k as int].id);
                    },
                    None => {
                        assert(db@.posts == before.posts);
                    },
                }
                lemma_post_position(before.posts, k as int);
            }
            let posts = db.posts();
            assert(posts_view_of(posts@)[k as int] == posts@[k as int]@);
            Ok(posts[k].clone())
        },
        None => {
            proof {
                match post_position(before.posts, post_id) {
                    Some(k0) => {
                        assert(db@.posts[k0].id == post_id);
                    },
                    None => {},
                }
            }
            Err(AppError::RecordNotFound)
        },
    }
}

/// Every published post whose author exists, newest first, each with its author and
/// with its comments.
pub fn all_posts(db: &Database) -> (r: Result<Vec<((Post, User), Vec<(Comment, User)>)>, AppError>)
    requires
        db.wf(),
    ensures
        r matches Ok(v) && authored_posts_view(v@) == all_posts_of(db@),
{
    let posts = db.posts();
    let users = db.users();
    let ghost t = db@;
    let ghost rev = t.posts.reverse();
    let mut out: Vec<((Post, User), Vec<(Comment, User)>)> = Vec::new();
    let n = posts.len();
    assert(rev.len() == n);
    let mut k: usize = 0;
    while k < n
        invariant
            n == posts@.len(),
            k <= n,
            db.wf(),
            t == db@,
            rev == t.posts.reverse(),
            rev.len() == n,
            posts_view_of(posts@) == t.posts,
            users_view(users@) == t.users,
            authored_posts_view(out@) == with_comments_authored(
                t,
                published_with_authors(rev.take(k as int), t.users),
            ),
        decreases n - k,
    {
        let ghost before = out@;
        let i = n - 1 - k;
        assert(rev.take(k + 1).drop_last() =~= rev.take(k as int));
        assert(rev.take(k + 1).last() == posts@[i as int]@);
        let p = &posts[i];
        if p.published {
            match db.user_position(p.user_id) {
                Some(j) => {
                    proof {
                        lemma_user_with_id(t.users, j as int);
                    }
                    assert(users_view(users@)[j as int] == users@[j as int]@);
                    let cs = comments_with_authors(db, p.id);
                    let pc = p.clone();
                    let uc = users[j].clone();
                    assert(pc@ == posts@[i as int]@);
                    assert(uc@ == users@[j as int]@);
                    assert(comment_user_pairs(cs@) == post_comments_of(t, pc.id));
                    out.push(((pc, uc), cs));
                    assert(authored_posts_view(out@) =~= authored_posts_view(before).push(
                        ((posts@[i as int]@, users@[j as int]@), post_comments_of(t, pc.id)),
                    ));
                    let ghost joined = published_with_authors(rev.take(k as int), t.users);
                    assert(published_with_authors(rev.take(k + 1), t.users) == joined.push(
                        (posts@[i as int]@, users@[j as int]@),
                    ));
                    assert(authored_posts_view(out@) =~= with_comments_authored(
                        t,
                        joined.push((posts@[i as int]@, users@[j as int]@)),
                    ));
                },
                None => {
                    proof {
                        lemma_no_user_with_id(t.users, p.user_id);
                    }
                },
            }
        }
        k = k + 1;
    }
    assert(rev.take(n as int) =~= rev);
    Ok(out)
}

/// Every post of `user_id`, published or not, newest first, each with its comments.
pub fn user_posts(db: &Database, user_id: i32) -> (r: Result<
    Vec<(Post, Vec<(Comment, User)>)>,
    AppError,
>)
    requires
        db.wf(),
    ensures
        r matches Ok(v) && posts_with_comments_view(v@) == user_posts_of(db@, user_id),
{
    let posts = db.posts();
    let ghost t = db@;
    let ghost rev = t.posts.reverse();
    let mut out: Vec<(Post, Vec<(Comment, User)>)> = Vec::new();
    let n = posts.len();
    assert(rev.len() == n);
    let mut k: usize = 0;
    while k < n
        invariant
            n == posts@.len(),
            k <= n,
            db.wf(),
            t == db@,
            rev == t.posts.reverse(),
            rev.len() == n,
            posts_view_of(posts@) == t.posts,
            posts_with_comments_view(out@) == with_comments(t, posts_by(rev.take(k as int), user_id)),
        decreases n - k,
    {
        let ghost before = out@;
        let i = n - 1 - k;
        assert(rev.take(k + 1).drop_last() =~= rev.take(k as int));
        assert(rev.take(k + 1).last() == posts@[i as int]@);
        let p = &posts[i];
        if p.user_id == user_id {
            let cs = comments_with_authors(db, p.id);
            let pc = p.clone();
            assert(pc@ == posts@[i as int]@);
            assert(comment_user_pairs(cs@) == post_comments_of(t, pc.id));
            out.push((pc, cs));
            assert(posts_with_comments_view(out@) =~= posts_with_comments_view(before).push((posts@[i as int]@, post_comments_of(t, pc.id))));
            let ghost mine = posts_by(rev.take(k as int), user_id);
            assert(posts_by(rev.take(k + 1), user_id) == mine.push(posts@[i as int]@));
            assert(posts_with_comments_view(out@) =~= with_comments(t, mine.push(posts@[i as int]@)));
        }
        k = k + 1;
    }
    assert(rev.take(n as int) =~= rev);
    Ok(out)
}

} // verus!
