//! The requests that the server knows, and the capability that each of
//! them asks for.

use vstd::prelude::*;
use crate::middleware::Capability;

verus! {

/// The method of a request.
#[derive(Debug, Clone, Copy, PartialEq, Eq, Structural)]
pub enum Method {
    Get,
    Post,
    Patch,
    Delete,
}

/// What a request is made to, as far as its path tells.
#[derive(Debug, Clone, Copy, PartialEq, Eq, Structural)]
pub enum Resource {
    /// `/users`
    Users,
    /// `/users/{id}`
    UserById,
    /// `/user`
    User,
    /// `/login`
    Login,
    /// `/check_login`
    CheckLogin,
    /// `/file/{path}`
    File,
    /// `/file_exist/{path}`
    FileExist,
    /// `/folder/{path}`
    Folder,
    /// `/folder_tree`
    FolderTree,
    /// Any other path.
    Other,
}

/// What a request asks the server to do.
#[derive(Debug, Clone, Copy, PartialEq, Eq, Structural)]
pub enum Endpoint {
    GetUsers,
    GetUserById,
    DeleteUser,
    UpdateUser,
    AddUser,
    GetMe,
    UpdateMe,
    Login,
    CheckLogin,
    GetFile,
    GetFileExist,
    RenameFile,
    PostFile,
    DeleteFile,
    GetFolder,
    CreateFolder,
    DeleteFolder,
    GetTree,
    /// The pages of the site, which every other request is answered with.
    Index,
}

impl Endpoint {
    /// The endpoint that a request with the method `method` to `resource`
    /// reaches.
    pub open spec fn of(method: Method, resource: Resource) -> Endpoint {
        match (resource, method) {
            (Resource::Users, Method::Get) => Endpoint::GetUsers,
            (Resource::Users, Method::Post) => Endpoint::AddUser,
            (Resource::UserById, Method::Get) => Endpoint::GetUserById,
            (Resource::UserById, Method::Delete) => Endpoint::DeleteUser,
            (Resource::UserById, Method::Patch) => Endpoint::UpdateUser,
            (Resource::User, Method::Get) => Endpoint::GetMe,
            (Resource::User, Method::Patch) => Endpoint::UpdateMe,
            (Resource::Login, Method::Post) => Endpoint::Login,
            (Resource::CheckLogin, Method::Post) => Endpoint::CheckLogin,
            (Resource::File, Method::Get) => Endpoint::GetFile,
            (Resource::File, Method::Patch) => Endpoint::RenameFile,
            (Resource::File, Method::Post) => Endpoint::PostFile,
            (Resource::File, Method::Delete) => Endpoint::DeleteFile,
            (Resource::FileExist, Method::Get) => Endpoint::GetFileExist,
            (Resource::Folder, Method::Get) => Endpoint::GetFolder,
            (Resource::Folder, Method::Post) => Endpoint::CreateFolder,
            (Resource::Folder, Method::Delete) => Endpoint::DeleteFolder,
            (Resource::FolderTree, Method::Get) => Endpoint::GetTree,
            _ => Endpoint::Index,
        }
    }

    /// Whether the endpoint reads files or folders of an account.
    pub open spec fn reads_files(self) -> bool {
        self == Endpoint::GetFile || self == Endpoint::GetFileExist || self == Endpoint::GetFolder
            || self == Endpoint::GetTree
    }

    /// Whether the endpoint changes files or folders of an account.
    pub open spec fn changes_files(self) -> bool {
        self == Endpoint::RenameFile || self == Endpoint::PostFile || self == Endpoint::DeleteFile
            || self == Endpoint::CreateFolder || self == Endpoint::DeleteFolder
    }

    /// Whether the endpoint shows or changes the accounts of others.
    pub open spec fn manages_accounts(self) -> bool {
        self == Endpoint::GetUsers || self == Endpoint::GetUserById || self == Endpoint::DeleteUser
            || self == Endpoint::UpdateUser || self == Endpoint::AddUser
    }

    /// The capability that the endpoint asks for: to read files takes the
    /// right to download, to change them the right to upload; the
    /// accounts of others are for administrators and operators, one's own
    /// for everybody who is logged in; the rest is open.
    pub open spec fn guard(self) -> Option<Capability> {
        if self.reads_files() {
            Some(Capability::CanDownload)
        } else if self.changes_files() {
            Some(Capability::CanUpload)
        } else if self.manages_accounts() {
            Some(Capability::AdminOrOperator)
        } else if self == Endpoint::GetMe || self == Endpoint::UpdateMe {
            Some(Capability::AuthenticatedOnly)
        } else {
            None
        }
    }

    /// The endpoint that a request with the method `method` to `resource`
    /// reaches.
    pub fn route(method: Method, resource: Resource) -> (endpoint: Endpoint)
        ensures
            endpoint == Endpoint::of(method, resource),
    {
        match (resource, method) {
            (Resource::Users, Method::Get) => Endpoint::GetUsers,
            (Resource::Users, Method::Post) => Endpoint::AddUser,
            (Resource::UserById, Method::Get) => Endpoint::GetUserById,
            (Resource::UserById, Method::Delete) => Endpoint::DeleteUser,
            (Resource::UserById, Method::Patch) => Endpoint::UpdateUser,
            (Resource::User, Method::Get) => Endpoint::GetMe,
            (Resource::User, Method::Patch) => Endpoint::UpdateMe,
            (Resource::Login, Method::Post) => Endpoint::Login,
            (Resource::CheckLogin, Method::Post) => Endpoint::CheckLogin,
            (Resource::File, Method::Get) => Endpoint::GetFile,
            (Resource::File, Method::Patch) => Endpoint::RenameFile,
            (Resource::File, Method::Post) => Endpoint::PostFile,
            (Resource::File, Method::Delete) => Endpoint::DeleteFile,
            (Resource::FileExist, Method::Get) => Endpoint::GetFileExist,
            (Resource::Folder, Method::Get) => Endpoint::GetFolder,
            (Resource::Folder, Method::Post) => Endpoint::CreateFolder,
            (Resource::Folder, Method::Delete) => Endpoint::DeleteFolder,
            (Resource::FolderTree, Method::Get) => Endpoint::GetTree,
            _ => Endpoint::Index,
        }
    }

    /// The capability that the endpoint asks for; `None` where it is open
    /// to everybody.
    pub fn capability(self) -> (guard: Option<Capability>)
        ensures
            guard == self.guard(),
    {
        match self {
            Endpoint::GetUsers
            | Endpoint::GetUserById
            | Endpoint::DeleteUser
            | Endpoint::UpdateUser
            | Endpoint::AddUser => Some(Capability::AdminOrOperator),
            Endpoint::GetMe | Endpoint::UpdateMe => Some(Capability::AuthenticatedOnly),
            Endpoint::Login | Endpoint::CheckLogin | Endpoint::Index => None,
            Endpoint::GetFile
            | Endpoint::GetFileExist
            | Endpoint::GetFolder
            | Endpoint::GetTree => Some(Capability::CanDownload),
            Endpoint::RenameFile
            | Endpoint::PostFile
            | Endpoint::DeleteFile
            | Endpoint::CreateFolder
            | Endpoint::DeleteFolder => Some(Capability::CanUpload),
        }
    }
}

} // verus!
