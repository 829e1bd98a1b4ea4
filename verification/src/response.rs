//! Externally visible projections of store records, and their views.
//!
//! Account views never expose the password digest.  Single-entity results
//! travel in an `{ok, data}` envelope; list results wrap a sequence.
use vstd::prelude::*;
use crate::model::{CommentView, Comments};

verus! {

#[derive(Debug)]
pub struct GenericResponse {
    pub status: String,
    pub message: String,
}

#[derive(Debug)]
#[allow(non_snake_case)]
pub struct UserResponse {
    pub email: String,
    pub firstName: String,
    pub lastName: String,
}

#[derive(Debug)]
#[allow(non_snake_case)]
pub struct UserResponseDel {
    pub email: String,
    pub firstName: String,
    pub lastName: String,
    pub removed: bool,
}

#[derive(Debug)]
pub struct UserData {
    pub token: String,
    pub user: UserResponse,
}

#[derive(Debug)]
#[allow(non_snake_case)]
pub struct PostData {
    pub createdAt: u64,
    pub userId: String,
    pub firstName: String,
    pub title: String,
    pub content: String,
    pub comments: Vec<Comments>,
    pub upVotes: Vec<String>,
}

#[derive(Debug)]
#[allow(non_snake_case)]
pub struct PostResponse {
    pub email: String,
    pub firstName: String,
    pub lastName: String,
}

#[derive(Debug)]
pub struct SingleUserResponse {
    pub ok: bool,
    pub data: UserData,
}

#[derive(Debug)]
pub struct SinglePostResponse {
    pub ok: bool,
    pub data: PostData,
}

#[derive(Debug)]
pub struct SingleUserResponseGet {
    pub ok: bool,
    pub data: UserResponse,
}

#[derive(Debug)]
pub struct SingleUserResponseDel {
    pub ok: bool,
    pub data: UserResponseDel,
}

#[derive(Debug)]
pub struct SinglePostResponseGet {
    pub ok: bool,
    pub data: Vec<PostData>,
}

#[derive(Debug)]
pub struct UserListResponse {
    pub status: &'static str,
    pub results: usize,
    pub user: Vec<UserResponse>,
}

#[allow(non_snake_case)]
pub ghost struct UserResponseView {
    pub email: Seq<char>,
    pub firstName: Seq<char>,
    pub lastName: Seq<char>,
}

#[allow(non_snake_case)]
pub ghost struct UserResponseDelView {
    pub email: Seq<char>,
    pub firstName: Seq<char>,
    pub lastName: Seq<char>,
    pub removed: bool,
}

pub ghost struct UserDataView {
    pub token: Seq<char>,
    pub user: UserResponseView,
}

#[allow(non_snake_case)]
pub ghost struct PostDataView {
    pub createdAt: u64,
    pub userId: Seq<char>,
    pub firstName: Seq<char>,
    pub title: Seq<char>,
    pub content: Seq<char>,
    pub comments: Seq<CommentView>,
    pub upVotes: Seq<Seq<char>>,
}

pub ghost struct SingleUserResponseView {
    pub ok: bool,
    pub data: UserDataView,
}

pub ghost struct SinglePostResponseView {
    pub ok: bool,
    pub data: PostDataView,
}

pub ghost struct SingleUserResponseGetView {
    pub ok: bool,
    pub data: UserResponseView,
}

pub ghost struct SingleUserResponseDelView {
    pub ok: bool,
    pub data: UserResponseDelView,
}

pub ghost struct SinglePostResponseGetView {
    pub ok: bool,
    pub data: Seq<PostDataView>,
}

impl View for UserResponse {
    type V = UserResponseView;

    open spec fn view(&self) -> UserResponseView {
        UserResponseView { email: self.email@, firstName: self.firstName@, lastName: self.lastName@ }
    }
}

impl View for UserResponseDel {
    type V = UserResponseDelView;

    open spec fn view(&self) -> UserResponseDelView {
        UserResponseDelView {
            email: self.email@,
            firstName: self.firstName@,
            lastName: self.lastName@,
            removed: self.removed,
        }
    }
}

impl View for UserData {
    type V = UserDataView;

    open spec fn view(&self) -> UserDataView {
        UserDataView { token: self.token@, user: self.user@ }
    }
}

impl View for PostData {
    type V = PostDataView;

    open spec fn view(&self) -> PostDataView {
        PostDataView {
            createdAt: self.createdAt,
            userId: self.userId@,
            firstName: self.firstName@,
            title: self.title@,
            content: self.content@,
            comments: Seq::new(self.comments@.len(), |i: int| self.comments@[i]@),
            upVotes: Seq::new(self.upVotes@.len(), |i: int| self.upVotes@[i]@),
        }
    }
}

impl View for SingleUserResponse {
    type V = SingleUserResponseView;

    open spec fn view(&self) -> SingleUserResponseView {
        SingleUserResponseView { ok: self.ok, data: self.data@ }
    }
}

impl View for SinglePostResponse {
    type V = SinglePostResponseView;

    open spec fn view(&self) -> SinglePostResponseView {
        SinglePostResponseView { ok: self.ok, data: self.data@ }
    }
}

impl View for SingleUserResponseGet {
    type V = SingleUserResponseGetView;

    open spec fn view(&self) -> SingleUserResponseGetView {
        SingleUserResponseGetView { ok: self.ok, data: self.data@ }
    }
}

impl View for SingleUserResponseDel {
    type V = SingleUserResponseDelView;

    open spec fn view(&self) -> SingleUserResponseDelView {
        SingleUserResponseDelView { ok: self.ok, data: self.data@ }
    }
}

impl View for SinglePostResponseGet {
    type V = SinglePostResponseGetView;

    open spec fn view(&self) -> SinglePostResponseGetView {
        SinglePostResponseGetView {
            ok: self.ok,
            data: Seq::new(self.data@.len(), |i: int| self.data@[i]@),
        }
    }
}

} // verus!
