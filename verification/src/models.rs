use vstd::prelude::*;

pub mod comment_action;
pub mod database;
pub mod post_action;
pub mod user_action;

verus! {

/// A row of the `users` table.
#[derive(Debug)]
pub struct User {
    pub id: i32,
    pub username: String,
}

/// How a user is looked up: by username or by id.
pub enum UserKey<'a> {
    Username(&'a str),
    ID(i32),
}

/// A row of the `posts` table.
#[derive(Debug)]
pub struct Post {
    pub id: i32,
    pub user_id: i32,
    pub title: String,
    pub body: String,
    pub published: bool,
}

/// A row of the `comments` table.
#[derive(Debug)]
pub struct Comment {
    pub id: i32,
    pub user_id: i32,
    pub post_id: i32,
    pub body: String,
}

/// The columns of a post that are listed beside a comment on it.
#[derive(Debug)]
pub struct PostWithComment {
    pub id: i32,
    pub title: String,
    pub published: bool,
}

/// A user, in specifications.
pub struct UserRecord {
    pub id: i32,
    pub username: Seq<char>,
}

/// A post, in specifications.
pub struct PostRecord {
    pub id: i32,
    pub user_id: i32,
    pub title: Seq<char>,
    pub body: Seq<char>,
    pub published: bool,
}

/// A comment, in specifications.
pub struct CommentRecord {
    pub id: i32,
    pub user_id: i32,
    pub post_id: i32,
    pub body: Seq<char>,
}

/// The columns of a post listed beside a comment, in specifications.
pub struct PostSummary {
    pub id: i32,
    pub title: Seq<char>,
    pub published: bool,
}

impl View for User {
    type V = UserRecord;

    open spec fn view(&self) -> UserRecord {
        UserRecord { id: self.id, username: self.username@ }
    }
}

impl View for Post {
    type V = PostRecord;

    open spec fn view(&self) -> PostRecord {
        PostRecord {
            id: self.id,
            user_id: self.user_id,
            title: self.title@,
            body: self.body@,
            published: self.published,
        }
    }
}

impl View for Comment {
    type V = CommentRecord;

    open spec fn view(&self) -> CommentRecord {
        CommentRecord {
            id: self.id,
            user_id: self.user_id,
            post_id: self.post_id,
            body: self.body@,
        }
    }
}

impl View for PostWithComment {
    type V = PostSummary;

    open spec fn view(&self) -> PostSummary {
        PostSummary { id: self.id, title: self.title@, published: self.published }
    }
}

impl Clone for User {
    fn clone(&self) -> (r: Self)
        ensures
            r == *self,
    {
        User { id: self.id, username: self.username.clone() }
    }
}

impl Clone for Post {
    fn clone(&self) -> (r: Self)
        ensures
            r == *self,
    {
        Post {
            id: self.id,
            user_id: self.user_id,
            title: self.title.clone(),
            body: self.body.clone(),
            published: self.published,
        }
    }
}

impl Clone for Comment {
    fn clone(&self) -> (r: Self)
        ensures
            r == *self,
    {
        Comment {
            id: self.id,
            user_id: self.user_id,
            post_id: self.post_id,
            body: self.body.clone(),
        }
    }
}

impl Clone for PostWithComment {
    fn clone(&self) -> (r: Self)
        ensures
            r == *self,
    {
        PostWithComment { id: self.id, title: self.title.clone(), published: self.published }
    }
}

/// The columns of `post` that are listed beside a comment on it.
pub open spec fn summary_of(post: PostRecord) -> PostSummary {
    PostSummary { id: post.id, title: post.title, published: post.published }
}

/// A list of (comment, author) pairs, in specifications.
pub open spec fn comment_user_pairs(v: Seq<(Comment, User)>) -> Seq<(CommentRecord, UserRecord)> {
    v.map_values(|x: (Comment, User)| (x.0@, x.1@))
}

/// A list of (comment, post) pairs, in specifications.
pub open spec fn comment_post_pairs(v: Seq<(Comment, PostWithComment)>) -> Seq<(CommentRecord, PostSummary)> {
    v.map_values(|x: (Comment, PostWithComment)| (x.0@, x.1@))
}

/// A list of posts with their authors and comments, in specifications.
pub open spec fn authored_posts_view(v: Seq<((Post, User), Vec<(Comment, User)>)>) -> Seq<
    ((PostRecord, UserRecord), Seq<(CommentRecord, UserRecord)>),
> {
    v.map_values(
        |x: ((Post, User), Vec<(Comment, User)>)| ((x.0.0@, x.0.1@), comment_user_pairs(x.1@)),
    )
}

/// A list of posts with their comments, in specifications.
pub open spec fn posts_with_comments_view(v: Seq<(Post, Vec<(Comment, User)>)>) -> Seq<
    (PostRecord, Seq<(CommentRecord, UserRecord)>),
> {
    v.map_values(|x: (Post, Vec<(Comment, User)>)| (x.0@, comment_user_pairs(x.1@)))
}

} // verus!
