//! What each request decides, apart from the transport that carries it.

use vstd::prelude::*;
use vstd::string::StringExecFns;
use crate::reserr::ResErr;
use crate::utils::{contains_dotdot, dotdot_at};

pub mod admin;
pub mod file;
pub mod folder;
pub mod login;
pub mod user;

verus! {

/// The path `./`, the storage root and the root of an account, one behind
/// the other.
pub open spec fn dotted_root(cloud_path: Seq<char>, root: Seq<char>) -> Seq<char> {
    "./"@ + cloud_path + root
}

/// The path of `name` in the directory `dir`: the two with a slash
/// between them.
pub open spec fn joined(dir: Seq<char>, name: Seq<char>) -> Seq<char> {
    dir + "/"@ + name
}

/// A name with `..` in it keeps it when it is joined to a directory.
pub proof fn dotdot_survives_join(dir: Seq<char>, name: Seq<char>)
    requires
        contains_dotdot(name),
    ensures
        contains_dotdot(joined(dir, name)),
{
    let i = choose|i: int| dotdot_at(name, i);
    let whole = joined(dir, name);
    let shift = dir.len() + "/"@.len();
    assert(whole[shift + i] == name[i]);
    assert(whole[shift + i + 1] == name[i + 1]);
    assert(dotdot_at(whole, shift + i));
}

/// The directory of an account as the handlers of uploads and of the
/// folder tree name it: `./`, the storage root and the account's root.
pub fn account_folder(cloud_path: &str, root: &str) -> (path: String)
    ensures
        path@ == dotted_root(cloud_path@, root@),
{
    String::from_str("./").concat(cloud_path).concat(root)
}

/// The path of `name` in the directory `dir`.
pub fn join(dir: &str, name: &str) -> (path: String)
    ensures
        path@ == joined(dir@, name@),
{
    String::from_str(dir).concat("/").concat(name)
}

/// The path of `filename` below the directory of an account, as the
/// handlers that read, probe and rename files name it.
pub fn dotted_path(cloud_path: &str, root: &str, filename: &str) -> (path: String)
    ensures
        path@ == joined(dotted_root(cloud_path@, root@), filename@),
{
    let folder = account_folder(cloud_path, root);
    join(folder.as_str(), filename)
}

/// The path of `filename` below the directory of an account, as the
/// handlers of folders and of deletion name it: without `./` in front.
pub fn plain_path(cloud_path: &str, root: &str, filename: &str) -> (path: String)
    ensures
        path@ == joined(cloud_path@ + root@, filename@),
{
    let folder = String::from_str(cloud_path).concat(root);
    join(folder.as_str(), filename)
}

/// What a handler answers after its one step on disk: the words of
/// success where the step was done, else the words of failure as an error
/// of the client.
pub open spec fn settled(done: bool, success: &'static str, failure: &'static str) -> Result<
    &'static str,
    ResErr,
> {
    if done {
        Ok(success)
    } else {
        Err(ResErr::BadClientData(failure))
    }
}

/// What a handler answers after its one step on disk.
pub fn settle(done: bool, success: &'static str, failure: &'static str) -> (r: Result<
    &'static str,
    ResErr,
>)
    ensures
        r == settled(done, success, failure),
{
    if done {
        Ok(success)
    } else {
        Err(ResErr::BadClientData(failure))
    }
}

} // verus!
