//! Request payload shapes handed to the core by the boundary layer.
use vstd::prelude::*;

verus! {

#[derive(Debug)]
pub struct FilterOptions {
    pub page: Option<usize>,
    pub limit: Option<usize>,
}

#[derive(Debug)]
pub struct ParamOptions {
    pub id: String,
}

#[derive(Debug)]
#[allow(non_snake_case)]
pub struct CreateUserSchema {
    pub email: String,
    pub password: String,
    pub firstName: String,
    pub lastName: String,
}

#[derive(Debug)]
pub struct CreatePostSchema {
    pub title: String,
    pub content: String,
}

#[derive(Debug)]
#[allow(non_snake_case)]
pub struct UserSchema {
    pub email: String,
    pub firstName: String,
    pub lastName: String,
}

#[derive(Debug)]
pub struct LoginSchema {
    pub email: String,
    pub password: String,
}

#[derive(Debug)]
pub struct UpdateUserSchema {
    pub email: Option<String>,
    pub password: Option<String>,
}

} // verus!
