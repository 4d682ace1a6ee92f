//! The records that travel between the store, the handlers and the client.

use vstd::prelude::*;

verus! {

/// An account as the user store holds it.
#[derive(Debug, Clone, PartialEq, Eq)]
pub struct User {
    pub id: u32,
    pub name: String,
    pub email: String,
    pub pass: String,
    /// The quota of the account, in megabytes.
    pub size: u32,
    /// The root of the account's files, below the storage root.
    pub path: String,
    /// The stored status code from which the access tier is derived.
    pub status: u8,
}

/// The new name of a file.
#[derive(Debug, PartialEq, Eq)]
pub struct Rename {
    pub name: String,
}

/// What an account may change about itself.
#[derive(Debug, Clone, PartialEq, Eq)]
pub struct ChangingUser {
    pub name: String,
    pub email: String,
    pub pass: String,
}

/// A request to the user store.
#[derive(Debug, PartialEq, Eq)]
pub enum Queries {
    GetUserById(u32),
    GetAllUsers,
    DeleteUserById(u32),
    AddUser(User),
    UpdateUserById(u32, User),
    UpdateMeById(u32, ChangingUser),
    GetUserByEmail(String),
}

/// One line of a flat directory listing.
#[derive(Debug, PartialEq, Eq)]
pub struct File {
    pub name: String,
    /// Seconds since the last change, in decimal, or a note that the
    /// time could not be had.
    pub date: String,
    pub size: u64,
}

/// `File` with its texts as sequences of characters.
pub struct FileView {
    pub name: Seq<char>,
    pub date: Seq<char>,
    pub size: u64,
}

impl View for File {
    type V = FileView;

    open spec fn view(&self) -> FileView {
        FileView { name: self.name@, date: self.date@, size: self.size }
    }
}

/// What a bearer token asserts.
#[derive(Debug, PartialEq, Eq)]
pub struct Claims {
    pub id: u32,
    pub exp: usize,
}

/// The credentials of a login attempt.
#[derive(Debug, Clone, PartialEq, Eq)]
pub struct Login {
    pub email: String,
    pub pass: String,
}

/// An issued bearer token.
#[derive(Debug, PartialEq, Eq)]
pub struct Token {
    pub token: String,
}

/// A node of the folder tree: a directory entry with the entries below it.
#[derive(Debug, PartialEq, Eq)]
pub struct Folder {
    pub name: String,
    pub folders: Vec<Folder>,
}

/// A folder tree as a mathematical value: a name and the trees below it,
/// in order.
pub struct FolderView {
    pub name: Seq<char>,
    pub folders: Seq<FolderView>,
}

impl View for Folder {
    type V = FolderView;

    open spec fn view(&self) -> FolderView
        decreases self,
    {
        FolderView { name: self.name@, folders: folder_views(self.folders@) }
    }
}

/// The views of `folders`, in order.
pub open spec fn folder_views(folders: Seq<Folder>) -> Seq<FolderView>
    decreases folders,
{
    if folders.len() == 0 {
        Seq::empty()
    } else {
        folder_views(folders.drop_last()).push(folders.last()@)
    }
}

/// A folder that gains one node behind those it has gains that node's
/// view behind the views it has.
pub proof fn view_after_push(before: Folder, after: Folder, node: Folder)
    requires
        after.name == before.name,
        after.folders@ == before.folders@.push(node),
    ensures
        after@.name == before@.name,
        after@.folders == before@.folders.push(node@),
{
    assert(after.folders@.drop_last() == before.folders@);
}

} // verus!
