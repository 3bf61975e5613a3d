use vstd::prelude::*;

use crate::errors::{AppError, Failure};
use crate::models::database::{
    answers, comments_view, lemma_no_user_with_id, lemma_post_position, lemma_user_with_id,
    post_with_id, posts_view_of, result_of, tables_after, user_with_id, users_view, Database,
    Tables,
};
use crate::models::{
    comment_post_pairs, comment_user_pairs, summary_of, Comment, CommentRecord, PostRecord,
    PostSummary, PostWithComment, User, UserRecord,
};

verus! {

/// The comments among `cs` on the post `post_id`, in order, each with its author; a
/// comment whose author is not among `users` is left out (an inner join).
pub open spec fn comments_on(cs: Seq<CommentRecord>, users: Seq<UserRecord>, post_id: i32) -> Seq<
    (CommentRecord, UserRecord),
>
    decreases cs.len(),
{
    if cs.len() == 0 {
        seq![]
    } else {
        let rest = comments_on(cs.drop_last(), users, post_id);
        let c = cs.last();
        if c.post_id == post_id {
            match user_with_id(users, c.user_id) {
                Some(u) => rest.push((c, u)),
                None => rest,
            }
        } else {
            rest
        }
    }
}

/// The comments among `cs` written by `user_id`, in order, each with the post it is on;
/// a comment whose post is not among `posts` is left out (an inner join).
pub open spec fn comments_by(cs: Seq<CommentRecord>, posts: Seq<PostRecord>, user_id: i32) -> Seq<
    (CommentRecord, PostSummary),
>
    decreases cs.len(),
{
    if cs.len() == 0 {
        seq![]
    } else {
        let rest = comments_by(cs.drop_last(), posts, user_id);
        let c = cs.last();
        if c.user_id == user_id {
            match post_with_id(posts, c.post_id) {
                Some(p) => rest.push((c, summary_of(p))),
                None => rest,
            }
        } else {
            rest
        }
    }
}

/// The comments on a post with their authors.
pub open spec fn post_comments_of(t: Tables, post_id: i32) -> Seq<(CommentRecord, UserRecord)> {
    comments_on(t.comments, t.users, post_id)
}

/// The comments of a user with the posts they are on.
pub open spec fn user_comments_of(t: Tables, user_id: i32) -> Seq<(CommentRecord, PostSummary)> {
    comments_by(t.comments, t.posts, user_id)
}

/// The newest row of the comments table, as `order(id desc).first()` gives it.
pub open spec fn newest_comment(t: Tables) -> Result<CommentRecord, Failure> {
    if t.comments.len() == 0 {
        Err(Failure::NotFound)
    } else {
        Ok(t.comments.last())
    }
}

/// The newest comment.
fn latest_comment(db: &Database) -> (r: Result<Comment, AppError>)
    ensures
        answers(r, newest_comment(db@)),
{
    let comments = db.comments();
    let n = comments.len();
    if n == 0 {
        Err(AppError::RecordNotFound)
    } else {
        assert(comments_view(comments@)[n - 1] == comments@[n - 1]@);
        Ok(comments[n - 1].clone())
    }
}

/// Adds a comment by `user_id` on `post_id` and answers with the new row.
pub fn create_comment(db: &mut Database, user_id: i32, post_id: i32, body: &str) -> (r: Result<
    Comment,
    AppError,
>)
    requires
        old(db).wf(),
    ensures
        final(db).wf(),
        final(db)@ == tables_after(old(db)@, old(db)@.create_comment(user_id, post_id, body@)),
        answers(r, result_of(old(db)@.create_comment(user_id, post_id, body@))),
{
    match db.insert_comment(user_id, post_id, body) {
        Ok(()) => {},
        Err(e) => {
            return Err(e);
        },
    }
    latest_comment(db)
}

/// The comments on the post `post_id`, each with its author, in the order of their ids.
pub(crate) fn comments_with_authors(db: &Database, post_id: i32) -> (v: Vec<(Comment, User)>)
    requires
        db.wf(),
    ensures
        comment_user_pairs(v@) == post_comments_of(db@, post_id),
{
    let comments = db.comments();
    let users = db.users();
    let ghost cs = db@.comments;
    let mut out: Vec<(Comment, User)> = Vec::new();
    let n = comments.len();
    let mut i: usize = 0;
    while i < n
        invariant
            n == comments@.len(),
            i <= n,
            db.wf(),
            cs == db@.comments,
            comments_view(comments@) == cs,
            users_view(users@) == db@.users,
            comment_user_pairs(out@) == comments_on(cs.take(i as int), db@.users, post_id),
        decreases n - i,
    {
        let ghost before = out@;
        assert(cs.take(i + 1).drop_last() =~= cs.take(i as int));
        assert(cs.take(i + 1).last() == comments@[i as int]@);
        let c = &comments[i];
        if c.post_id == post_id {
            match db.user_position(c.user_id) {
                Some(k) => {
                    proof {
                        lemma_user_with_id(db@.users, k as int);
                    }
                    assert(users_view(users@)[k as int] == users@[k as int]@);
                    out.push((c.clone(), users[k].clone()));
                    assert(comment_user_pairs(out@) =~= comment_user_pairs(before).push(
                        (comments@[i as int]@, users@[k as int]@),
                    ));
                },
                None => {
                    proof {
                        lemma_no_user_with_id(db@.users, c.user_id);
                    }
                },
            }
        }
        i = i + 1;
    }
    assert(cs.take(n as int) =~= cs);
    out
}

/// The comments on the post `post_id`, each with its author.
pub fn post_comments(db: &Database, post_id: i32) -> (r: Result<Vec<(Comment, User)>, AppError>)
    requires
        db.wf(),
    ensures
        r matches Ok(v) && comment_user_pairs(v@) == post_comments_of(db@, post_id),
{
    Ok(comments_with_authors(db, post_id))
}

/// The comments written by `user_id`, each with the id, title and state of its post.
pub fn user_comments(db: &Database, user_id: i32) -> (r: Result<
    Vec<(Comment, PostWithComment)>,
    AppError,
>)
    requires
        db.wf(),
    ensures
        r matches Ok(v) && comment_post_pairs(v@) == user_comments_of(db@, user_id),
{
    let comments = db.comments();
    let posts = db.posts();
    let ghost cs = db@.comments;
    let mut out: Vec<(Comment, PostWithComment)> = Vec::new();
    let n = comments.len();
    let mut i: usize = 0;
    while i < n
        invariant
            n == comments@.len(),
            i <= n,
            db.wf(),
            cs == db@.comments,
            comments_view(comments@) == cs,
            posts_view_of(posts@) == db@.posts,
            comment_post_pairs(out@) == comments_by(cs.take(i as int), db@.posts, user_id),
        decreases n - i,
    {
        let ghost before = out@;
        assert(cs.take(i + 1).drop_last() =~= cs.take(i as int));
        assert(cs.take(i + 1).last() == comments@[i as int]@);
        let c = &comments[i];
        if c.user_id == user_id {
            match db.post_position(c.post_id) {
                Some(k) => {
                    proof {
                        lemma_post_position(db@.posts, k as int);
                    }
                    assert(posts_view_of(posts@)[k as int] == posts@[k as int]@);
                    let p = &posts[k];
                    let summary = PostWithComment {
                        id: p.id,
                        title: p.title.clone(),
                        published: p.published,
                    };
                    out.push((c.clone(), summary));
                    assert(comment_post_pairs(out@) =~= comment_post_pairs(before).push(
                        (comments@[i as int]@, summary_of(posts@[k as int]@)),
                    ));
                },
                None => {
                    assert(post_with_id(db@.posts, c.post_id) is None);
                },
            }
        }
        i = i + 1;
    }
    assert(cs.take(n as int) =~= cs);
    Ok(out)
}

} // verus!
