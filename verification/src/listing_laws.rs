use vstd::prelude::*;

use crate::models::comment_action::{comments_by, comments_on, post_comments_of, user_comments_of};
use crate::models::database::{
    lemma_post_position, lemma_user_with_id, post_position, post_with_id, user_with_id, Tables,
};
use crate::models::post_action::{
    all_posts_of, posts_by, published_with_authors, user_posts_of, with_comments,
    with_comments_authored,
};
use crate::models::{summary_of, CommentRecord, PostRecord, PostSummary, UserRecord};

verus! {

/// The user that `user_with_id` picks is a user of `users` with that id.
proof fn lemma_user_with_id_is_a_user(users: Seq<UserRecord>, id: i32)
    requires
        user_with_id(users, id) is Some,
    ensures
        exists|j: int|
            0 <= j < users.len() && users[j] == user_with_id(users, id)->Some_0 && users[j].id
                == id,
{
    let j = choose|j: int| 0 <= j < users.len() && users[j].id == id;
    assert(users[j] == user_with_id(users, id)->Some_0);
}

/// The post that `post_with_id` picks is a post of `posts` with that id.
proof fn lemma_post_with_id_is_a_post(posts: Seq<PostRecord>, id: i32)
    requires
        post_with_id(posts, id) is Some,
    ensures
        exists|k: int|
            0 <= k < posts.len() && posts[k] == post_with_id(posts, id)->Some_0 && posts[k].id
                == id,
{
    let k = post_position(posts, id)->Some_0;
    assert(posts[k] == post_with_id(posts, id)->Some_0);
}

/// The posts that `posts_by` keeps are the posts of `s` by `user_id`, all of them.
proof fn lemma_posts_by_members(s: Seq<PostRecord>, user_id: i32)
    ensures
        forall|i: int|
            0 <= i < posts_by(s, user_id).len() ==> (#[trigger] posts_by(s, user_id)[i]).user_id
                == user_id && s.contains(posts_by(s, user_id)[i]),
        forall|j: int|
            0 <= j < s.len() && (#[trigger] s[j]).user_id == user_id ==> posts_by(
                s,
                user_id,
            ).contains(s[j]),
    decreases s.len(),
{
    if s.len() > 0 {
        let s0 = s.drop_last();
        lemma_posts_by_members(s0, user_id);
        let r0 = posts_by(s0, user_id);
        let r = posts_by(s, user_id);
        assert forall|i: int| 0 <= i < r.len() implies (#[trigger] r[i]).user_id == user_id
            && s.contains(r[i]) by {
            if i < r0.len() {
                assert(r[i] == r0[i]);
                let j = choose|j: int| 0 <= j < s0.len() && s0[j] == r0[i];
                assert(s[j] == r0[i]);
            } else {
                assert(s[s.len() - 1] == s.last());
            }
        }
        assert forall|j: int| 0 <= j < s.len() && (#[trigger] s[j]).user_id == user_id implies r.contains(
            s[j],
        ) by {
            if j < s.len() - 1 {
                assert(s0[j] == s[j]);
                let i = choose|i: int| 0 <= i < r0.len() && r0[i] == s[j];
                assert(r[i] == s[j]);
            } else {
                assert(r[r.len() - 1] == s[j]);
            }
        }
    }
}

/// `posts_by` keeps the order of `s`: if ids decrease along `s`, they decrease along
/// what it keeps.
proof fn lemma_posts_by_order(s: Seq<PostRecord>, user_id: i32)
    requires
        forall|a: int, b: int| 0 <= a < b < s.len() ==> s[a].id > s[b].id,
    ensures
        forall|a: int, b: int|
            0 <= a < b < posts_by(s, user_id).len() ==> posts_by(s, user_id)[a].id > posts_by(
                s,
                user_id,
            )[b].id,
    decreases s.len(),
{
    if s.len() > 0 {
        let s0 = s.drop_last();
        lemma_posts_by_order(s0, user_id);
        lemma_posts_by_members(s0, user_id);
        let r0 = posts_by(s0, user_id);
        let r = posts_by(s, user_id);
        assert forall|a: int, b: int| 0 <= a < b < r.len() implies r[a].id > r[b].id by {
            assert(r[a] == r0[a]);
            if b < r0.len() {
                assert(r[b] == r0[b]);
            } else {
                let j = choose|j: int| 0 <= j < s0.len() && s0[j] == r0[a];
                assert(s[j] == r0[a]);
                assert(r[b] == s[s.len() - 1]);
            }
        }
    }
}

/// The pairs that `comments_on` gives are the comments of `cs` on `post_id` with their
/// authors, all of those whose author exists.
proof fn lemma_comments_on_members(cs: Seq<CommentRecord>, users: Seq<UserRecord>, post_id: i32)
    ensures
        forall|i: int|
            0 <= i < comments_on(cs, users, post_id).len() ==> {
                let e = #[trigger] comments_on(cs, users, post_id)[i];
                &&& e.0.post_id == post_id
                &&& user_with_id(users, e.0.user_id) == Some(e.1)
                &&& cs.contains(e.0)
            },
        forall|j: int|
            0 <= j < cs.len() && (#[trigger] cs[j]).post_id == post_id && user_with_id(
                users,
                cs[j].user_id,
            ) is Some ==> comments_on(cs, users, post_id).contains(
                (cs[j], user_with_id(users, cs[j].user_id)->Some_0),
            ),
    decreases cs.len(),
{
    if cs.len() > 0 {
        let s0 = cs.drop_last();
        lemma_comments_on_members(s0, users, post_id);
        let r0 = comments_on(s0, users, post_id);
        let r = comments_on(cs, users, post_id);
        assert forall|i: int| 0 <= i < r.len() implies {
            let e = #[trigger] r[i];
            &&& e.0.post_id == post_id
            &&& user_with_id(users, e.0.user_id) == Some(e.1)
            &&& cs.contains(e.0)
        } by {
            if i < r0.len() {
                assert(r[i] == r0[i]);
                let j = choose|j: int| 0 <= j < s0.len() && s0[j] == r0[i].0;
                assert(cs[j] == r0[i].0);
            } else {
                assert(cs[cs.len() - 1] == cs.last());
            }
        }
        assert forall|j: int|
            0 <= j < cs.len() && (#[trigger] cs[j]).post_id == post_id && user_with_id(
                users,
                cs[j].user_id,
            ) is Some implies r.contains((cs[j], user_with_id(users, cs[j].user_id)->Some_0)) by {
            let x = (cs[j], user_with_id(users, cs[j].user_id)->Some_0);
            if j < cs.len() - 1 {
                assert(s0[j] == cs[j]);
                let i = choose|i: int| 0 <= i < r0.len() && r0[i] == x;
                assert(r[i] == x);
            } else {
                assert(r[r.len() - 1] == x);
            }
        }
    }
}

/// `comments_on` keeps the order of `cs`.
proof fn lemma_comments_on_order(cs: Seq<CommentRecord>, users: Seq<UserRecord>, post_id: i32)
    requires
        forall|a: int, b: int| 0 <= a < b < cs.len() ==> cs[a].id < cs[b].id,
    ensures
        forall|a: int, b: int|
            0 <= a < b < comments_on(cs, users, post_id).len() ==> comments_on(
                cs,
                users,
                post_id,
            )[a].0.id < comments_on(cs, users, post_id)[b].0.id,
    decreases cs.len(),
{
    if cs.len() > 0 {
        let s0 = cs.drop_last();
        lemma_comments_on_order(s0, users, post_id);
        lemma_comments_on_members(s0, users, post_id);
        let r0 = comments_on(s0, users, post_id);
        let r = comments_on(cs, users, post_id);
        assert forall|a: int, b: int| 0 <= a < b < r.len() implies r[a].0.id < r[b].0.id by {
            assert(r[a] == r0[a]);
            if b < r0.len() {
                assert(r[b] == r0[b]);
            } else {
                let j = choose|j: int| 0 <= j < s0.len() && s0[j] == r0[a].0;
                assert(cs[j] == r0[a].0);
                assert(r[b].0 == cs[cs.len() - 1]);
            }
        }
    }
}

/// The pairs that `comments_by` gives are the comments of `cs` by `user_id` with their
/// posts, all of those whose post exists.
proof fn lemma_comments_by_members(cs: Seq<CommentRecord>, posts: Seq<PostRecord>, user_id: i32)
    ensures
        forall|i: int|
            0 <= i < comments_by(cs, posts, user_id).len() ==> {
                let e = #[trigger] comments_by(cs, posts, user_id)[i];
                &&& e.0.user_id == user_id
                &&& post_with_id(posts, e.0.post_id) is Some
                &&& e.1 == summary_of(post_with_id(posts, e.0.post_id)->Some_0)
                &&& cs.contains(e.0)
            },
        forall|j: int|
            0 <= j < cs.len() && (#[trigger] cs[j]).user_id == user_id && post_with_id(
                posts,
                cs[j].post_id,
            ) is Some ==> comments_by(cs, posts, user_id).contains(
                (cs[j], summary_of(post_with_id(posts, cs[j].post_id)->Some_0)),
            ),
    decreases cs.len(),
{
    if cs.len() > 0 {
        let s0 = cs.drop_last();
        lemma_comments_by_members(s0, posts, user_id);
        let r0 = comments_by(s0, posts, user_id);
        let r = comments_by(cs, posts, user_id);
        assert forall|i: int| 0 <= i < r.len() implies {
            let e = #[trigger] r[i];
            &&& e.0.user_id == user_id
            &&& post_with_id(posts, e.0.post_id) is Some
            &&& e.1 == summary_of(post_with_id(posts, e.0.post_id)->Some_0)
            &&& cs.contains(e.0)
        } by {
            if i < r0.len() {
                assert(r[i] == r0[i]);
                let j = choose|j: int| 0 <= j < s0.len() && s0[j] == r0[i].0;
                assert(cs[j] == r0[i].0);
            } else {
                assert(cs[cs.len() - 1] == cs.last());
            }
        }
        assert forall|j: int|
            0 <= j < cs.len() && (#[trigger] cs[j]).user_id == user_id && post_with_id(
                posts,
                cs[j].post_id,
            ) is Some implies r.contains(
            (cs[j], summary_of(post_with_id(posts, cs[j].post_id)->Some_0)),
        ) by {
            let x = (cs[j], summary_of(post_with_id(posts, cs[j].post_id)->Some_0));
            if j < cs.len() - 1 {
                assert(s0[j] == cs[j]);
                let i = choose|i: int| 0 <= i < r0.len() && r0[i] == x;
                assert(r[i] == x);
            } else {
                assert(r[r.len() - 1] == x);
            }
        }
    }
}

/// `comments_by` keeps the order of `cs`.
proof fn lemma_comments_by_order(cs: Seq<CommentRecord>, posts: Seq<PostRecord>, user_id: i32)
    requires
        forall|a: int, b: int| 0 <= a < b < cs.len() ==> cs[a].id < cs[b].id,
    ensures
        forall|a: int, b: int|
            0 <= a < b < comments_by(cs, posts, user_id).len() ==> comments_by(
                cs,
                posts,
                user_id,
            )[a].0.id < comments_by(cs, posts, user_id)[b].0.id,
    decreases cs.len(),
{
    if cs.len() > 0 {
        let s0 = cs.drop_last();
        lemma_comments_by_order(s0, posts, user_id);
        lemma_comments_by_members(s0, posts, user_id);
        let r0 = comments_by(s0, posts, user_id);
        let r = comments_by(cs, posts, user_id);
        assert forall|a: int, b: int| 0 <= a < b < r.len() implies r[a].0.id < r[b].0.id by {
            assert(r[a] == r0[a]);
            if b < r0.len() {
                assert(r[b] == r0[b]);
            } else {
                let j = choose|j: int| 0 <= j < s0.len() && s0[j] == r0[a].0;
                assert(cs[j] == r0[a].0);
                assert(r[b].0 == cs[cs.len() - 1]);
            }
        }
    }
}

/// `post_comments` lists exactly the comments on the post, oldest first, each with its
/// author: every entry is a comment of the table on that post, with the user whose id
/// is the comment's `user_id`; every comment on that post whose author exists is
/// listed with that author; and the comment ids increase along the listing.
pub proof fn law_post_comments_lists_the_comments_on_that_post(t: Tables, post_id: i32)
    requires
        t.wf(),
    ensures
        forall|i: int|
            0 <= i < post_comments_of(t, post_id).len() ==> {
                let e = #[trigger] post_comments_of(t, post_id)[i];
                &&& e.0.post_id == post_id
                &&& t.comments.contains(e.0)
                &&& t.users.contains(e.1)
                &&& e.1.id == e.0.user_id
            },
        forall|j: int, k: int|
            0 <= j < t.comments.len() && 0 <= k < t.users.len() && (#[trigger] t.comments[j]).post_id
                == post_id && (#[trigger] t.users[k]).id == t.comments[j].user_id
                ==> post_comments_of(t, post_id).contains((t.comments[j], t.users[k])),
        forall|a: int, b: int|
            0 <= a < b < post_comments_of(t, post_id).len() ==> post_comments_of(t, post_id)[a].0.id
                < post_comments_of(t, post_id)[b].0.id,
{
    lemma_comments_on_members(t.comments, t.users, post_id);
    lemma_comments_on_order(t.comments, t.users, post_id);
    let r = post_comments_of(t, post_id);
    assert forall|i: int| 0 <= i < r.len() implies {
        let e = #[trigger] r[i];
        &&& e.0.post_id == post_id
        &&& t.comments.contains(e.0)
        &&& t.users.contains(e.1)
        &&& e.1.id == e.0.user_id
    } by {
        lemma_user_with_id_is_a_user(t.users, r[i].0.user_id);
    }
    assert forall|j: int, k: int|
        0 <= j < t.comments.len() && 0 <= k < t.users.len() && (#[trigger] t.comments[j]).post_id
            == post_id && (#[trigger] t.users[k]).id == t.comments[j].user_id implies r.contains(
        (t.comments[j], t.users[k]),
    ) by {
        lemma_user_with_id(t.users, k);
    }
}

/// `user_comments` lists exactly the comments the user wrote, oldest first, each with
/// the id, title and state of its post: every entry is a comment of the table written
/// by that user, beside the summary of the post whose id is the comment's `post_id`;
/// every comment of that user whose post exists is listed; and the comment ids
/// increase along the listing.
pub proof fn law_user_comments_lists_that_users_comments(t: Tables, user_id: i32)
    requires
        t.wf(),
    ensures
        forall|i: int|
            0 <= i < user_comments_of(t, user_id).len() ==> {
                let e = #[trigger] user_comments_of(t, user_id)[i];
                &&& e.0.user_id == user_id
                &&& t.comments.contains(e.0)
                &&& exists|k: int|
                    0 <= k < t.posts.len() && t.posts[k].id == e.0.post_id && e.1 == PostSummary {
                        id: t.posts[k].id,
                        title: t.posts[k].title,
                        published: t.posts[k].published,
                    }
            },
        forall|j: int, k: int|
            0 <= j < t.comments.len() && 0 <= k < t.posts.len() && (#[trigger] t.comments[j]).user_id
                == user_id && (#[trigger] t.posts[k]).id == t.comments[j].post_id
                ==> user_comments_of(t, user_id).contains(
                (
                    t.comments[j],
                    PostSummary {
                        id: t.posts[k].id,
                        title: t.posts[k].title,
                        published: t.posts[k].published,
                    },
                ),
            ),
        forall|a: int, b: int|
            0 <= a < b < user_comments_of(t, user_id).len() ==> user_comments_of(t, user_id)[a].0.id
                < user_comments_of(t, user_id)[b].0.id,
{
    lemma_comments_by_members(t.comments, t.posts, user_id);
    lemma_comments_by_order(t.comments, t.posts, user_id);
    let r = user_comments_of(t, user_id);
    assert forall|i: int| 0 <= i < r.len() implies {
        let e = #[trigger] r[i];
        &&& e.0.user_id == user_id
        &&& t.comments.contains(e.0)
        &&& exists|k: int|
            0 <= k < t.posts.len() && t.posts[k].id == e.0.post_id && e.1 == PostSummary {
                id: t.posts[k].id,
                title: t.posts[k].title,
                published: t.posts[k].published,
            }
    } by {
        lemma_post_with_id_is_a_post(t.posts, r[i].0.post_id);
    }
    assert forall|j: int, k: int|
        0 <= j < t.comments.len() && 0 <= k < t.posts.len() && (#[trigger] t.comments[j]).user_id
            == user_id && (#[trigger] t.posts[k]).id == t.comments[j].post_id implies r.contains(
        (
            t.comments[j],
            PostSummary {
                id: t.posts[k].id,
                title: t.posts[k].title,
                published: t.posts[k].published,
            },
        ),
    ) by {
        lemma_post_position(t.posts, k);
    }
}

/// The posts in reverse order hold the same posts, with decreasing ids.
proof fn lemma_reverse_posts(t: Tables)
    requires
        t.wf(),
    ensures
        t.posts.reverse().len() == t.posts.len(),
        forall|j: int|
            0 <= j < t.posts.len() ==> #[trigger] t.posts.reverse()[j] == t.posts[t.posts.len() - 1
                - j],
        forall|a: int, b: int|
            0 <= a < b < t.posts.len() ==> t.posts.reverse()[a].id > t.posts.reverse()[b].id,
{
    let n = t.posts.len() as int;
    assert forall|a: int, b: int| 0 <= a < b < n implies t.posts.reverse()[a].id
        > t.posts.reverse()[b].id by {
        assert(t.posts.reverse()[a] == t.posts[n - 1 - a]);
        assert(t.posts.reverse()[b] == t.posts[n - 1 - b]);
    }
}

/// `user_posts` lists exactly the user's posts, published or not, newest first, each
/// with its comments: every entry is a post of the table by that user, beside
/// `post_comments` of that post; every post of that user is listed; and the post ids
/// decrease along the listing.
pub proof fn law_user_posts_lists_every_post_of_that_user(t: Tables, user_id: i32)
    requires
        t.wf(),
    ensures
        forall|i: int|
            0 <= i < user_posts_of(t, user_id).len() ==> {
                let e = #[trigger] user_posts_of(t, user_id)[i];
                &&& e.0.user_id == user_id
                &&& t.posts.contains(e.0)
                &&& e.1 == post_comments_of(t, e.0.id)
            },
        forall|k: int|
            0 <= k < t.posts.len() && (#[trigger] t.posts[k]).user_id == user_id
                ==> user_posts_of(t, user_id).contains((t.posts[k], post_comments_of(t, t.posts[k].id))),
        forall|a: int, b: int|
            0 <= a < b < user_posts_of(t, user_id).len() ==> user_posts_of(t, user_id)[a].0.id
                > user_posts_of(t, user_id)[b].0.id,
{
    let n = t.posts.len() as int;
    let rev = t.posts.reverse();
    lemma_reverse_posts(t);
    lemma_posts_by_members(rev, user_id);
    lemma_posts_by_order(rev, user_id);
    let mine = posts_by(rev, user_id);
    let r = user_posts_of(t, user_id);
    assert(r == with_comments(t, mine));
    assert forall|i: int| 0 <= i < r.len() implies {
        let e = #[trigger] r[i];
        &&& e.0.user_id == user_id
        &&& t.posts.contains(e.0)
        &&& e.1 == post_comments_of(t, e.0.id)
    } by {
        assert(r[i] == (mine[i], post_comments_of(t, mine[i].id)));
        let j = choose|j: int| 0 <= j < rev.len() && rev[j] == mine[i];
        assert(t.posts[n - 1 - j] == mine[i]);
    }
    assert forall|k: int|
        0 <= k < t.posts.len() && (#[trigger] t.posts[k]).user_id == user_id implies r.contains(
        (t.posts[k], post_comments_of(t, t.posts[k].id)),
    ) by {
        assert(rev[n - 1 - k] == t.posts[k]);
        let i = choose|i: int| 0 <= i < mine.len() && mine[i] == rev[n - 1 - k];
        assert(r[i] == (t.posts[k], post_comments_of(t, t.posts[k].id)));
    }
    assert forall|a: int, b: int| 0 <= a < b < r.len() implies r[a].0.id > r[b].0.id by {
        assert(r[a].0 == mine[a]);
        assert(r[b].0 == mine[b]);
    }
}

/// `all_posts` lists exactly the published posts whose author exists, newest first:
/// every entry is a published post of the table with the user whose id is the post's
/// `user_id`, beside `post_comments` of that post; every published post whose author
/// exists is listed with that author.
pub proof fn law_all_posts_lists_every_published_post(t: Tables)
    requires
        t.wf(),
    ensures
        forall|i: int|
            0 <= i < all_posts_of(t).len() ==> {
                let e = #[trigger] all_posts_of(t)[i];
                &&& e.0.0.published
                &&& t.posts.contains(e.0.0)
                &&& t.users.contains(e.0.1)
                &&& e.0.1.id == e.0.0.user_id
                &&& e.1 == post_comments_of(t, e.0.0.id)
            },
        forall|k: int, j: int|
            0 <= k < t.posts.len() && 0 <= j < t.users.len() && (#[trigger] t.posts[k]).published
                && (#[trigger] t.users[j]).id == t.posts[k].user_id ==> all_posts_of(t).contains(
                ((t.posts[k], t.users[j]), post_comments_of(t, t.posts[k].id)),
            ),
{
    let n = t.posts.len() as int;
    let rev = t.posts.reverse();
    lemma_reverse_posts(t);
    crate::laws::lemma_published_with_authors_members(rev, t.users);
    let joined = published_with_authors(rev, t.users);
    let r = all_posts_of(t);
    assert(r == with_comments_authored(t, joined));
    assert forall|i: int| 0 <= i < r.len() implies {
        let e = #[trigger] r[i];
        &&& e.0.0.published
        &&& t.posts.contains(e.0.0)
        &&& t.users.contains(e.0.1)
        &&& e.0.1.id == e.0.0.user_id
        &&& e.1 == post_comments_of(t, e.0.0.id)
    } by {
        assert(r[i] == (joined[i], post_comments_of(t, joined[i].0.id)));
        let j = choose|j: int| 0 <= j < rev.len() && rev[j] == joined[i].0;
        assert(t.posts[n - 1 - j] == joined[i].0);
        lemma_user_with_id_is_a_user(t.users, joined[i].0.user_id);
    }
    assert forall|k: int, j: int|
        0 <= k < t.posts.len() && 0 <= j < t.users.len() && (#[trigger] t.posts[k]).published
            && (#[trigger] t.users[j]).id == t.posts[k].user_id implies r.contains(
        ((t.posts[k], t.users[j]), post_comments_of(t, t.posts[k].id)),
    ) by {
        lemma_user_with_id(t.users, j);
        assert(rev[n - 1 - k] == t.posts[k]);
        let i = choose|i: int| 0 <= i < joined.len() && joined[i] == (rev[n - 1 - k], t.users[j]);
        assert(r[i] == ((t.posts[k], t.users[j]), post_comments_of(t, t.posts[k].id)));
    }
}

} // verus!
