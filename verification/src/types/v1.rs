//! The entities of the first version of the API.

use vstd::prelude::*;
use crate::api::types::Timestamp;

verus! {

/// The plain outcome of a call.
#[derive(Debug, Clone, PartialEq, Eq)]
pub struct Default {
    pub result: String,
}

/// A note with its text.
#[derive(Debug, Clone, PartialEq, Eq)]
pub struct Note {
    pub id: String,
    pub hash: String,
    pub title: String,
    pub text: String,
    pub length: usize,
    pub created_at: String,
    pub updated_at: String,
}

/// A note as a list of notes shows it.
#[derive(Debug, Clone, PartialEq, Eq)]
pub struct NoteSummary {
    pub id: String,
    pub hash: String,
    pub title: String,
    pub length: usize,
    pub created_at: String,
    pub updated_at: String,
}

/// The notes of a user.
#[derive(Debug, Clone, PartialEq, Eq)]
pub struct NoteList {
    pub count: usize,
    pub notes: Vec<NoteSummary>,
}

/// A bookmark.
#[derive(Debug, Clone, PartialEq, Eq)]
pub struct Post {
    pub href: String,
    pub description: String,
    pub extended: String,
    pub meta: String,
    pub hash: String,
    pub time: Timestamp,
    pub shared: String,
    pub toread: String,
    pub tags: String,
}

/// A list of bookmarks.
pub type Posts = Vec<Post>;

/// The outcome of adding a bookmark.
#[derive(Debug, Clone, PartialEq, Eq)]
pub struct PostsAdd {
    pub result_code: String,
}

/// The number of bookmarks made on each day.
#[derive(Debug, Clone, PartialEq, Eq)]
pub struct PostsDates {
    pub user: String,
    pub tag: String,
    pub dates: Vec<(String, usize)>,
}

/// The bookmarks that a filter selects.
#[derive(Debug, Clone, PartialEq, Eq)]
pub struct PostsList {
    pub tag: String,
    pub user: String,
    pub posts: Vec<Post>,
}

/// The most recent bookmarks.
#[derive(Debug, Clone, PartialEq, Eq)]
pub struct PostsRecent {
    pub user: String,
    pub date: Timestamp,
    pub posts: Posts,
}

/// When a bookmark was last added, changed or deleted.
#[derive(Debug, Clone, PartialEq, Eq)]
pub struct PostsUpdate {
    pub update_time: Timestamp,
}

/// The API token of a user.
#[derive(Debug, Clone, PartialEq, Eq)]
pub struct UserApiToken {
    pub token: String,
}

/// The secret RSS key of a user.
#[derive(Debug, Clone, PartialEq, Eq)]
pub struct UserSecret {
    pub secret: String,
}

} // verus!
