//! Stored record shapes and their mathematical views.
//!
//! An account record carries a store-assigned identifier, the unique
//! email, names, the password digest (never the plaintext) and two
//! timestamps.  A post carries its owner's identifier in string form (a
//! deliberate denormalization), a snapshot of the author's first name
//! taken at creation, and comment / upvote sequences that no exposed
//! operation ever fills.  Timestamps are epoch seconds.
use vstd::prelude::*;

verus! {

#[derive(Debug)]
#[allow(non_snake_case)]
pub struct UserModel {
    pub id: u64,
    pub email: String,
    pub firstName: String,
    pub lastName: String,
    pub password: String,
    pub createdAt: u64,
    pub lastUpVote: u64,
}

#[derive(Debug)]
#[allow(non_snake_case)]
pub struct Comments {
    pub id: String,
    pub firstName: String,
    pub content: String,
    pub createdAt: u64,
}

#[derive(Debug)]
#[allow(non_snake_case)]
pub struct PostModel {
    pub userId: String,
    pub title: String,
    pub content: String,
    pub firstName: String,
    pub comments: Vec<Comments>,
    pub upVotes: Vec<String>,
    pub createdAt: u64,
}

#[allow(non_snake_case)]
pub ghost struct UserView {
    pub id: u64,
    pub email: Seq<char>,
    pub firstName: Seq<char>,
    pub lastName: Seq<char>,
    pub password: Seq<char>,
    pub createdAt: u64,
    pub lastUpVote: u64,
}

#[allow(non_snake_case)]
pub ghost struct CommentView {
    pub id: Seq<char>,
    pub firstName: Seq<char>,
    pub content: Seq<char>,
    pub createdAt: u64,
}

#[allow(non_snake_case)]
pub ghost struct PostView {
    pub userId: Seq<char>,
    pub title: Seq<char>,
    pub content: Seq<char>,
    pub firstName: Seq<char>,
    pub comments: Seq<CommentView>,
    pub upVotes: Seq<Seq<char>>,
    pub createdAt: u64,
}

impl View for UserModel {
    type V = UserView;

    open spec fn view(&self) -> UserView {
        UserView {
            id: self.id,
            email: self.email@,
            firstName: self.firstName@,
            lastName: self.lastName@,
            password: self.password@,
            createdAt: self.createdAt,
            lastUpVote: self.lastUpVote,
        }
    }
}

impl View for Comments {
    type V = CommentView;

    open spec fn view(&self) -> CommentView {
        CommentView {
            id: self.id@,
            firstName: self.firstName@,
            content: self.content@,
            createdAt: self.createdAt,
        }
    }
}

impl View for PostModel {
    type V = PostView;

    open spec fn view(&self) -> PostView {
        PostView {
            userId: self.userId@,
            title: self.title@,
            content: self.content@,
            firstName: self.firstName@,
            comments: Seq::new(self.comments@.len(), |i: int| self.comments@[i]@),
            upVotes: Seq::new(self.upVotes@.len(), |i: int| self.upVotes@[i]@),
            createdAt: self.createdAt,
        }
    }
}

/// Elementwise copy of a comment sequence, preserving the view.
pub fn copy_comments(src: &Vec<Comments>) -> (r: Vec<Comments>)
    ensures
        r@.len() == src@.len(),
        forall|i: int| 0 <= i < src@.len() ==> #[trigger] r@[i]@ == src@[i]@,
{
    let mut out: Vec<Comments> = Vec::new();
    let mut i: usize = 0;
    while i < src.len()
        invariant
            0 <= i <= src@.len(),
            out@.len() == i,
            forall|j: int| 0 <= j < i ==> #[trigger] out@[j]@ == src@[j]@,
        decreases src@.len() - i,
    {
        let c = &src[i];
        out.push(Comments {
            id: c.id.clone(),
            firstName: c.firstName.clone(),
            content: c.content.clone(),
            createdAt: c.createdAt,
        });
        i += 1;
    }
    out
}

/// Elementwise copy of a string sequence, preserving the view.
pub fn copy_strings(src: &Vec<String>) -> (r: Vec<String>)
    ensures
        r@.len() == src@.len(),
        forall|i: int| 0 <= i < src@.len() ==> #[trigger] r@[i]@ == src@[i]@,
{
    let mut out: Vec<String> = Vec::new();
    let mut i: usize = 0;
    while i < src.len()
        invariant
            0 <= i <= src@.len(),
            out@.len() == i,
            forall|j: int| 0 <= j < i ==> #[trigger] out@[j]@ == src@[j]@,
        decreases src@.len() - i,
    {
        out.push(src[i].clone());
        i += 1;
    }
    out
}

} // verus!
