//! Folders: the flat listing of a directory, and the folder tree of an
//! account.

use vstd::prelude::*;
use vstd::string::{StrSliceExecFns, StringExecFns};
use crate::handlers::{account_folder, dotted_root, joined, plain_path, settle, settled};
use crate::middleware::{CanDownload, CanUpload};
use crate::models::{File, FileView, Folder};
use crate::reserr::ResErr;
use crate::utils::{chars_of, decimal, decimal_string, folder_tree, get_folder_and_files};
use crate::utils::{path_verdict, valid_path, Listing};

verus! {

/// The error of a listing whose directory could not be read.
pub const CANT_FIND_PATH: &'static str = "cant find path";

/// The error of a listing with an entry that could not be read.
pub const CANT_DO_PATH: &'static str = "cant do path";

/// The error of a listing with an entry without metadata.
pub const CANT_GET_METADATA: &'static str = "cant get metadata";

/// The date of an entry that was changed after the listing began.
pub const TIME_IS_BROKEN: &'static str = "time is broken";

/// The date of an entry on a platform that keeps no time of change.
pub const NO_SUPPORTED: &'static str = "no supported";

/// How long ago an entry was last changed.
#[derive(Debug, Clone, Copy, PartialEq, Eq, Structural)]
pub enum Age {
    /// So many whole seconds before the listing began.
    Seconds(u64),
    /// After the listing began.
    Ahead,
    /// The platform keeps no time of change.
    Unknown,
}

/// What a flat listing found at one entry of the directory.
#[derive(Debug, PartialEq, Eq)]
pub enum Found {
    /// The entry could not be read.
    NoEntry,
    /// The entry was read, its metadata could not.
    NoMetadata,
    /// An entry with its path, the time since its last change and its
    /// length in bytes.
    Entry { path: String, age: Age, size: u64 },
}

/// Whether `c` parts the segments of a path: a slash or a backslash.
pub open spec fn is_separator(c: char) -> bool {
    c == '/' || c == '\\'
}

/// What stands in `path` behind its last separator; all of `path` where
/// it has none.
pub open spec fn last_segment(path: Seq<char>) -> Seq<char>
    decreases path.len(),
{
    if path.len() == 0 || is_separator(path.last()) {
        Seq::empty()
    } else {
        last_segment(path.drop_last()).push(path.last())
    }
}

/// The last segment of a path is what stands behind some place in it, holds
/// no separator, and begins at the start of the path or behind a
/// separator.
pub proof fn last_segment_is_the_tail(path: Seq<char>) -> (start: int)
    ensures
        0 <= start <= path.len(),
        last_segment(path) == path.skip(start),
        forall|i: int| start <= i < path.len() ==> !is_separator(path[i]),
        start == 0 || is_separator(path[start - 1]),
    decreases path.len(),
{
    if path.len() == 0 || is_separator(path.last()) {
        assert(path.skip(path.len() as int) == Seq::<char>::empty());
        path.len() as int
    } else {
        let front = path.drop_last();
        let start = last_segment_is_the_tail(front);
        assert(front.skip(start).push(path.last()) == path.skip(start));
        assert forall|i: int| start <= i < path.len() implies !is_separator(path[i]) by {
            if i < front.len() {
                assert(front[i] == path[i]);
            }
        }
        assert(start == 0 || front[start - 1] == path[start - 1]);
        start
    }
}

/// The name of the entry at `path`: its last segment.
pub fn file_name(path: &str) -> (name: String)
    ensures
        name@ == last_segment(path@),
{
    let chars = chars_of(path);
    let n = chars.len();
    let mut start = n;
    proof {
        assert(path@.skip(n as int) == Seq::<char>::empty());
    }
    while start > 0 && chars[start - 1] != '/' && chars[start - 1] != '\\'
        invariant
            chars@ == path@,
            n == chars.len(),
            start <= n,
            forall|i: int| start <= i < n ==> !is_separator(path@[i]),
        decreases start,
    {
        start -= 1;
    }
    proof {
        let tail = last_segment_is_the_tail(path@);
        if tail < start {
            assert(is_separator(path@[start - 1]));
        } else if tail > start {
            assert(is_separator(path@[tail - 1]));
        }
    }
    path.substring_char(start, n).to_owned()
}

/// The date of a listed entry: the seconds since its last change in
/// decimal, or the words for a time that could not be had.
pub open spec fn date_of(age: Age) -> Seq<char> {
    match age {
        Age::Seconds(secs) => decimal(secs as nat),
        Age::Ahead => TIME_IS_BROKEN@,
        Age::Unknown => NO_SUPPORTED@,
    }
}

impl Found {
    /// The line of the listing for this entry, or the error where it
    /// could not be read.
    pub open spec fn line(self) -> Result<FileView, ResErr> {
        match self {
            Found::NoEntry => Err(ResErr::BadClientData(CANT_DO_PATH)),
            Found::NoMetadata => Err(ResErr::BadClientData(CANT_GET_METADATA)),
            Found::Entry { path, age, size } => Ok(
                FileView { name: last_segment(path@), date: date_of(age), size },
            ),
        }
    }

    /// The lines for `entries`, in order; the error of the first entry
    /// that has one, where there is such an entry.
    pub open spec fn lines(entries: Seq<Found>) -> Result<Seq<FileView>, ResErr>
        decreases entries.len(),
    {
        if entries.len() == 0 {
            Ok(Seq::empty())
        } else {
            match Found::lines(entries.drop_last()) {
                Err(e) => Err(e),
                Ok(before) => match entries.last().line() {
                    Err(e) => Err(e),
                    Ok(line) => Ok(before.push(line)),
                },
            }
        }
    }
}

/// What the listing of the directory `path` answers: the refusal of the
/// path guard, else the error of a directory that could not be read, else
/// the lines of its entries or the error of the first that has one.
pub open spec fn listing_of(path: Seq<char>, exists: bool, read: Option<Vec<Found>>) -> Result<
    Seq<FileView>,
    ResErr,
> {
    match path_verdict(path, exists) {
        Err(words) => Err(ResErr::BadClientData(words)),
        Ok(_) => match read {
            None => Err(ResErr::BadClientData(CANT_FIND_PATH)),
            Some(entries) => Found::lines(entries@),
        },
    }
}

/// The views of `files`, in order.
pub open spec fn file_views(files: Seq<File>) -> Seq<FileView> {
    files.map_values(|f: File| f@)
}

/// The flat listing of the directory `filename` of the account that
/// `token` holds, below the storage root `cloud_path`.
///
/// `exists` says whether the path of the directory is on disk, and `read`
/// what reading the directory gave: `None` where it could not be read,
/// else what was found at each entry. `read` is looked at only where the
/// path guard lets the path through.
pub fn get_folder(
    token: &CanDownload,
    cloud_path: &str,
    filename: &str,
    exists: bool,
    read: Option<Vec<Found>>,
) -> (r: Result<Vec<File>, ResErr>)
    ensures
        match listing_of(joined(cloud_path@ + token.path@, filename@), exists, read) {
            Ok(lines) => r matches Ok(files) && file_views(files@) == lines,
            Err(e) => r matches Err(got) && got == e,
        },
{
    let path = plain_path(cloud_path, token.path.as_str(), filename);
    if let Err(words) = valid_path(path.as_str(), exists) {
        return Err(ResErr::BadClientData(words));
    }
    let entries = match read {
        None => {
            return Err(ResErr::BadClientData(CANT_FIND_PATH));
        },
        Some(entries) => entries,
    };
    let mut res: Vec<File> = Vec::new();
    let mut i: usize = 0;
    assert(file_views(res@) == Seq::<FileView>::empty());
    while i < entries.len()
        invariant
            i <= entries.len(),
            path_verdict(path@, exists) is Ok,
            path@ == joined(cloud_path@ + token.path@, filename@),
            read == Some(entries),
            Found::lines(entries@.take(i as int)) == Ok::<Seq<FileView>, ResErr>(
                file_views(res@),
            ),
        decreases entries.len() - i,
    {
        proof {
            assert(entries@.take(i + 1).drop_last() == entries@.take(i as int));
            assert(entries@.take(i + 1).last() == entries@[i as int]);
        }
        match &entries[i] {
            Found::NoEntry => {
                proof {
                    lines_fail_with_their_start(entries@, i + 1);
                }
                return Err(ResErr::BadClientData(CANT_DO_PATH));
            },
            Found::NoMetadata => {
                proof {
                    lines_fail_with_their_start(entries@, i + 1);
                }
                return Err(ResErr::BadClientData(CANT_GET_METADATA));
            },
            Found::Entry { path, age, size } => {
                let date = match age {
                    Age::Seconds(secs) => decimal_string(*secs),
                    Age::Ahead => String::from_str(TIME_IS_BROKEN),
                    Age::Unknown => String::from_str(NO_SUPPORTED),
                };
                let ghost before = res@;
                res.push(File { name: file_name(path.as_str()), date, size: *size });
                assert(file_views(res@) == file_views(before).push(res@.last()@));
            },
        }
        i += 1;
    }
    assert(entries@.take(i as int) == entries@);
    Ok(res)
}

/// Lines that fail for the first `k` of some entries fail for all of them,
/// with the same error.
pub proof fn lines_fail_with_their_start(entries: Seq<Found>, k: int)
    requires
        0 <= k <= entries.len(),
        Found::lines(entries.take(k)) is Err,
    ensures
        Found::lines(entries) == Found::lines(entries.take(k)),
    decreases entries.len() - k,
{
    if k < entries.len() {
        assert(entries.take(k + 1).drop_last() == entries.take(k));
        lines_fail_with_their_start(entries, k + 1);
    } else {
        assert(entries.take(k) == entries);
    }
}

/// The answer to the creation of a folder.
pub const FOLDER_CREATED: &'static str = "folder created";

/// The error of a folder that could not be created.
pub const CANT_CREATE_FOLDER: &'static str = "cant create folder";

/// The answer to the removal of a folder.
pub const FOLDER_DELETED: &'static str = "folder deleted";

/// The error of a folder that could not be removed.
pub const CANT_REMOVE_FOLDER: &'static str = "cant remove folder";

/// Answers the creation of a folder; `created` says whether it and the
/// folders above it were created.
pub fn create_folder(created: bool) -> (r: Result<&'static str, ResErr>)
    ensures
        r == settled(created, FOLDER_CREATED, CANT_CREATE_FOLDER),
{
    settle(created, FOLDER_CREATED, CANT_CREATE_FOLDER)
}

/// Whether the folder `filename` of the account that `token` holds may be
/// removed with all that is in it: the path guard decides. `exists` says
/// whether the path of the folder is on disk.
pub fn may_delete_folder(token: &CanUpload, cloud_path: &str, filename: &str, exists: bool) -> (r:
    Result<(), ResErr>)
    ensures
        r == match path_verdict(joined(cloud_path@ + token.path@, filename@), exists) {
            Ok(_) => Ok::<(), ResErr>(()),
            Err(words) => Err(ResErr::BadClientData(words)),
        },
{
    let path = plain_path(cloud_path, token.path.as_str(), filename);
    match valid_path(path.as_str(), exists) {
        Ok(_) => Ok(()),
        Err(words) => Err(ResErr::BadClientData(words)),
    }
}

/// Answers the removal of a folder that the path guard let through;
/// `removed` says whether it was removed.
pub fn delete_folder(removed: bool) -> (r: Result<&'static str, ResErr>)
    ensures
        r == settled(removed, FOLDER_DELETED, CANT_REMOVE_FOLDER),
{
    settle(removed, FOLDER_DELETED, CANT_REMOVE_FOLDER)
}

/// The folder tree of an account.
///
/// `exists` says whether the directory of the account is on disk, and
/// `listing` what listing it gave; `listing` is looked at only where the
/// path guard lets the directory through.
pub fn get_tree(token: &CanDownload, cloud_path: &str, exists: bool, listing: &Listing) -> (r:
    Result<Folder, ResErr>)
    ensures
        match path_verdict(dotted_root(cloud_path@, token.path@), exists) {
            Ok(_) => r matches Ok(tree) && tree@ == folder_tree(*listing),
            Err(words) => r matches Err(got) && got == ResErr::BadClientData(words),
        },
{
    let main_folder = account_folder(cloud_path, token.path.as_str());
    match valid_path(main_folder.as_str(), exists) {
        Err(words) => Err(ResErr::BadClientData(words)),
        Ok(_) => Ok(get_folder_and_files(listing)),
    }
}

} // verus!
