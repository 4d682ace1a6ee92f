//! Path rules, password rules, quota accounting, the folder tree, and
//! numbers as text.

use vstd::prelude::*;
use vstd::string::StringExecFns;
use crate::models::{view_after_push, Folder, FolderView};

verus! {

/// The rejection of a path that names a parent directory.
pub const PATH_HAS_DOTDOT: &'static str = "you cant use '..' in path";

/// The rejection of a path that is not on disk.
pub const PATH_MISSING: &'static str = "path dont exist";

/// The rejection of a stored path that starts at the current directory.
pub const PATH_STARTS_DOT_SLASH: &'static str = "path cant start with './'";

/// Whether a full stop stands at `i` in `s` with another right behind it.
pub open spec fn dotdot_at(s: Seq<char>, i: int) -> bool {
    0 <= i && i + 1 < s.len() && s[i] == '.' && s[i + 1] == '.'
}

/// Whether two full stops stand side by side somewhere in `s`.
pub open spec fn contains_dotdot(s: Seq<char>) -> bool {
    exists|i: int| dotdot_at(s, i)
}

/// Whether `s` begins with a full stop and a slash.
pub open spec fn starts_with_dot_slash(s: Seq<char>) -> bool {
    s.len() >= 2 && s[0] == '.' && s[1] == '/'
}

/// Whether one of the segments that the slashes cut `s` into is `..`:
/// two full stops at `i`, with the start of `s` or a slash before them and
/// the end of `s` or a slash behind them.
pub open spec fn parent_segment_at(s: Seq<char>, i: int) -> bool {
    &&& dotdot_at(s, i)
    &&& (i == 0 || s[i - 1] == '/')
    &&& (i + 2 == s.len() || s[i + 2] == '/')
}

/// Whether `s` has a segment `..`.
pub open spec fn has_parent_segment(s: Seq<char>) -> bool {
    exists|i: int| parent_segment_at(s, i)
}

/// The characters of `s`, in order.
pub fn chars_of(s: &str) -> (v: Vec<char>)
    ensures
        v@ == s@,
{
    let mut v: Vec<char> = Vec::new();
    for c in it: s.chars()
        invariant
            it.seq() == s@,
            v@ == s@.take(it.index() as int),
    {
        v.push(c);
    }
    v
}

/// Whether two full stops stand side by side somewhere in `path`.
pub fn has_dotdot(path: &str) -> (found: bool)
    ensures
        found == contains_dotdot(path@),
{
    let chars = chars_of(path);
    let n = chars.len();
    if n < 2 {
        return false;
    }
    let mut i: usize = 0;
    while i < n - 1
        invariant
            chars@ == path@,
            n == chars.len(),
            n >= 2,
            i <= n - 1,
            forall|j: int| 0 <= j < i ==> !dotdot_at(path@, j),
        decreases n - i,
    {
        if chars[i] == '.' && chars[i + 1] == '.' {
            assert(dotdot_at(path@, i as int));
            return true;
        }
        i += 1;
    }
    false
}

/// Whether `path` begins with `./`.
pub fn has_dot_slash_prefix(path: &str) -> (found: bool)
    ensures
        found == starts_with_dot_slash(path@),
{
    let chars = chars_of(path);
    chars.len() >= 2 && chars[0] == '.' && chars[1] == '/'
}

/// What the guard of request paths says of a path that is or is not on
/// disk: a path with `..` in it is turned down first, then one that does
/// not exist.
pub open spec fn path_verdict(path: Seq<char>, exists: bool) -> Result<(), &'static str> {
    if contains_dotdot(path) {
        Err(PATH_HAS_DOTDOT)
    } else if !exists {
        Err(PATH_MISSING)
    } else {
        Ok(())
    }
}

/// What the guard of stored paths says of a path: as `path_verdict`, but
/// a path free of `..` that starts with `./` is turned down before it is
/// asked whether the path exists.
pub open spec fn stored_path_verdict(path: Seq<char>, exists: bool) -> Result<(), &'static str> {
    if contains_dotdot(path) {
        Err(PATH_HAS_DOTDOT)
    } else if starts_with_dot_slash(path) {
        Err(PATH_STARTS_DOT_SLASH)
    } else if !exists {
        Err(PATH_MISSING)
    } else {
        Ok(())
    }
}

/// Guards a path of a request. `exists` says whether `path` is on disk.
///
/// A path with `..` in it is rejected whatever `exists` says; a path
/// without is accepted exactly when it exists.
pub fn valid_path(path: &str, exists: bool) -> (r: Result<(), &'static str>)
    ensures
        r == path_verdict(path@, exists),
        r is Ok <==> !contains_dotdot(path@) && exists,
{
    if has_dotdot(path) {
        return Err(PATH_HAS_DOTDOT);
    }
    if !exists {
        return Err(PATH_MISSING);
    }
    Ok(())
}

/// Guards the path stored with an account. `exists` says whether the
/// storage root followed by `path` is on disk.
///
/// The rules are applied in this order: a path with `..` in it is
/// rejected, then one that starts with `./`, then one that does not exist.
pub fn validate_path(path: &str, exists: bool) -> (r: Result<(), &'static str>)
    ensures
        r == stored_path_verdict(path@, exists),
        r is Ok <==> !contains_dotdot(path@) && !starts_with_dot_slash(path@) && exists,
{
    if has_dotdot(path) {
        return Err(PATH_HAS_DOTDOT);
    }
    if has_dot_slash_prefix(path) {
        return Err(PATH_STARTS_DOT_SLASH);
    }
    if !exists {
        return Err(PATH_MISSING);
    }
    Ok(())
}

/// A path with a `..` segment is rejected by both guards, whether or not
/// it exists on disk.
pub proof fn parent_segment_is_rejected(path: Seq<char>, exists: bool)
    requires
        has_parent_segment(path),
    ensures
        contains_dotdot(path),
        path_verdict(path, exists) is Err,
        stored_path_verdict(path, exists) is Err,
{
    let i = choose|i: int| parent_segment_at(path, i);
    assert(dotdot_at(path, i));
}

/// Whether Unicode counts `c` among the lowercase letters.
pub uninterp spec fn char_is_lowercase(c: char) -> bool;

/// Whether Unicode counts `c` among the uppercase letters.
pub uninterp spec fn char_is_uppercase(c: char) -> bool;

/// Whether Unicode counts `c` among the numbers.
pub uninterp spec fn char_is_numeric(c: char) -> bool;

/// `char::is_lowercase` tests the Unicode property `Lowercase`; the answer
/// depends on the character alone and is given the name `char_is_lowercase`.
pub assume_specification[ char::is_lowercase ](c: char) -> (b: bool)
    ensures
        b == char_is_lowercase(c),
;

/// `char::is_uppercase` tests the Unicode property `Uppercase`; the answer
/// depends on the character alone and is given the name `char_is_uppercase`.
pub assume_specification[ char::is_uppercase ](c: char) -> (b: bool)
    ensures
        b == char_is_uppercase(c),
;

/// `char::is_numeric` tests the Unicode general categories of numbers; the
/// answer depends on the character alone and is given the name
/// `char_is_numeric`.
pub assume_specification[ char::is_numeric ](c: char) -> (b: bool)
    ensures
        b == char_is_numeric(c),
;

/// The rejection of a password without a lowercase letter.
pub const PASS_NEEDS_LOWERCASE: &'static str = "pass must include lowercase";

/// The rejection of a password without an uppercase letter.
pub const PASS_NEEDS_UPPERCASE: &'static str = "pass must include uppercase";

/// The rejection of a password without a number.
pub const PASS_NEEDS_NUMBER: &'static str = "pass must include number";

/// The kinds of character that a password must hold.
#[derive(Debug, Clone, Copy, PartialEq, Eq, Structural)]
pub enum CharKind {
    Lowercase,
    Uppercase,
    Number,
}

/// Whether `c` is of the kind `kind`.
pub open spec fn is_of_kind(c: char, kind: CharKind) -> bool {
    match kind {
        CharKind::Lowercase => char_is_lowercase(c),
        CharKind::Uppercase => char_is_uppercase(c),
        CharKind::Number => char_is_numeric(c),
    }
}

/// Whether `s` holds a character of the kind `kind`.
pub open spec fn has_kind(s: Seq<char>, kind: CharKind) -> bool {
    exists|i: int| 0 <= i < s.len() && is_of_kind(#[trigger] s[i], kind)
}

/// Whether `s` holds a lowercase letter.
pub open spec fn has_lowercase(s: Seq<char>) -> bool {
    has_kind(s, CharKind::Lowercase)
}

/// Whether `s` holds an uppercase letter.
pub open spec fn has_uppercase(s: Seq<char>) -> bool {
    has_kind(s, CharKind::Uppercase)
}

/// Whether `s` holds a number.
pub open spec fn has_number(s: Seq<char>) -> bool {
    has_kind(s, CharKind::Number)
}

/// A text with one more character holds a kind where the text did or the
/// character is of it.
pub proof fn has_kind_after_push(s: Seq<char>, c: char, kind: CharKind)
    ensures
        has_kind(s.push(c), kind) == (has_kind(s, kind) || is_of_kind(c, kind)),
{
    let longer = s.push(c);
    if has_kind(s, kind) {
        let i = choose|i: int| 0 <= i < s.len() && is_of_kind(#[trigger] s[i], kind);
        assert(is_of_kind(longer[i], kind));
    } else if is_of_kind(c, kind) {
        assert(is_of_kind(longer[s.len() as int], kind));
    } else if has_kind(longer, kind) {
        let i = choose|i: int| 0 <= i < longer.len() && is_of_kind(#[trigger] longer[i], kind);
        assert(i < s.len() ==> is_of_kind(s[i], kind));
    }
}

/// What the password rule says of a password of which it is known
/// whether it holds a lowercase letter, an uppercase letter and a number:
/// the first kind that is missing, in that order, is named.
pub open spec fn pass_verdict(lowercase: bool, uppercase: bool, number: bool) -> Result<
    (),
    &'static str,
> {
    if !lowercase {
        Err(PASS_NEEDS_LOWERCASE)
    } else if !uppercase {
        Err(PASS_NEEDS_UPPERCASE)
    } else if !number {
        Err(PASS_NEEDS_NUMBER)
    } else {
        Ok(())
    }
}

/// Judges a password by the kinds of character that it was found to hold.
pub fn judge_pass(lowercase: bool, uppercase: bool, number: bool) -> (r: Result<
    (),
    &'static str,
>)
    ensures
        r == pass_verdict(lowercase, uppercase, number),
        r is Ok <==> lowercase && uppercase && number,
{
    if !lowercase {
        return Err(PASS_NEEDS_LOWERCASE);
    }
    if !uppercase {
        return Err(PASS_NEEDS_UPPERCASE);
    }
    if !number {
        return Err(PASS_NEEDS_NUMBER);
    }
    Ok(())
}

/// A password must hold a lowercase letter, an uppercase letter and a
/// number; the first kind that is missing, in that order, is named.
pub fn valid_pass(pass: &str) -> (r: Result<(), &'static str>)
    ensures
        r == pass_verdict(has_lowercase(pass@), has_uppercase(pass@), has_number(pass@)),
{
    let mut lowercase = false;
    let mut uppercase = false;
    let mut number = false;
    for c in it: pass.chars()
        invariant
            it.seq() == pass@,
            lowercase == has_lowercase(pass@.take(it.index() as int)),
            uppercase == has_uppercase(pass@.take(it.index() as int)),
            number == has_number(pass@.take(it.index() as int)),
    {
        proof {
            let seen = pass@.take(it.index() as int);
            assert(pass@.take(it.index() + 1) == seen.push(c));
            has_kind_after_push(seen, c, CharKind::Lowercase);
            has_kind_after_push(seen, c, CharKind::Uppercase);
            has_kind_after_push(seen, c, CharKind::Number);
        }
        if c.is_lowercase() {
            lowercase = true;
        }
        if c.is_uppercase() {
            uppercase = true;
        }
        if c.is_numeric() {
            number = true;
        }
    }
    assert(pass@.take(pass@.len() as int) == pass@);
    judge_pass(lowercase, uppercase, number)
}

/// What the walk that measures a directory found at one of its entries.
#[derive(Debug, PartialEq, Eq)]
pub enum Scan {
    /// The entry, its metadata or, for a directory, its listing could not
    /// be read.
    Unreadable,
    /// Something that is no directory, with its length in bytes.
    File(u64),
    /// A directory, with what was found at each of its entries, in the
    /// order of its listing.
    Dir(Vec<Scan>),
}

/// The walk could not measure the directory: something in it could not be
/// read, or the sum does not fit the counter.
#[derive(Debug, PartialEq, Eq, Structural)]
pub struct WalkFailed;

/// A length in bytes as whole megabytes; a length whose megabytes do not
/// fit in 32 bits counts as nothing.
pub open spec fn whole_megabytes(bytes: u64) -> u32 {
    if bytes / 1000000 <= u32::MAX {
        (bytes / 1000000) as u32
    } else {
        0
    }
}

impl Scan {
    /// The megabytes at and below this entry, `None` where something
    /// there could not be read.
    pub open spec fn megabytes(self) -> Option<nat>
        decreases self,
    {
        match self {
            Scan::Unreadable => None,
            Scan::File(bytes) => Some(whole_megabytes(bytes) as nat),
            Scan::Dir(entries) => Scan::sum(entries@),
        }
    }

    /// The megabytes of all of `entries` together, `None` where one of
    /// them has none.
    pub open spec fn sum(entries: Seq<Scan>) -> Option<nat>
        decreases entries,
    {
        if entries.len() == 0 {
            Some(0)
        } else {
            match (Scan::sum(entries.drop_last()), entries.last().megabytes()) {
                (Some(before), Some(last)) => Some(before + last),
                _ => None,
            }
        }
    }

    /// Whether `self` is `inner`, or a directory with `inner` somewhere
    /// below it, `depth` levels down.
    pub open spec fn holds(self, inner: Scan, depth: nat) -> bool
        decreases depth,
    {
        if depth == 0 {
            self == inner
        } else {
            self matches Scan::Dir(entries) && exists|i: int|
                0 <= i < entries@.len() && (#[trigger] entries@[i]).holds(
                    inner,
                    (depth - 1) as nat,
                )
        }
    }
}

/// The megabytes that a walk of the directory `root` counts: `None` where
/// `root` is no directory that could be read, or something below it could
/// not be read.
pub open spec fn used_megabytes(root: Scan) -> Option<nat> {
    match root {
        Scan::Dir(entries) => Scan::sum(entries@),
        _ => None,
    }
}

/// What `dir_size` owes for `root`: the megabytes counted, where the walk
/// gets through and 32 bits hold them.
pub open spec fn dir_size_of(root: Scan) -> Result<u32, WalkFailed> {
    match used_megabytes(root) {
        Some(n) if n <= u32::MAX => Ok(n as u32),
        _ => Err(WalkFailed),
    }
}

/// Bytes as whole megabytes; zero where they do not fit in 32 bits.
pub fn u64_to_u32(v: u64) -> (mb: u32)
    ensures
        mb == whole_megabytes(v),
{
    match u32::try_from(v / 1000000) {
        Ok(mb) => mb,
        Err(_) => 0,
    }
}

/// Every entry of a sequence that has a sum has megabytes of its own, no
/// more than the sum; and so has every shorter run from the start.
pub proof fn sum_bounds(entries: Seq<Scan>, i: int)
    requires
        Scan::sum(entries) is Some,
        0 <= i < entries.len(),
    ensures
        entries[i].megabytes() is Some,
        entries[i].megabytes()->0 <= Scan::sum(entries)->0,
        Scan::sum(entries.take(i)) is Some,
        Scan::sum(entries.take(i))->0 + entries[i].megabytes()->0 <= Scan::sum(entries)->0,
    decreases entries.len(),
{
    let before = entries.drop_last();
    if i == entries.len() - 1 {
        assert(entries.take(i) == before);
    } else {
        sum_bounds(before, i);
        assert(before.take(i) == entries.take(i));
    }
}

/// The megabytes of the entries of a directory, summed in the order of
/// its listing.
fn entries_size(entries: &Vec<Scan>) -> (r: Result<u32, WalkFailed>)
    ensures
        r == dir_size_of(Scan::Dir(*entries)),
    decreases entries,
{
    let mut acc: u32 = 0;
    let mut i: usize = 0;
    while i < entries.len()
        invariant
            i <= entries.len(),
            Scan::sum(entries@.take(i as int)) == Some(acc as nat),
        decreases entries.len() - i,
    {
        let ghost whole = Scan::sum(entries@);
        let ghost entry = entries@[i as int];
        proof {
            assert(entries@.take(i + 1).drop_last() == entries@.take(i as int));
            assert(entries@.take(i + 1).last() == entry);
            if whole is Some {
                sum_bounds(entries@, i as int);
            }
        }
        let size = match &entries[i] {
            Scan::Unreadable => {
                return Err(WalkFailed);
            },
            Scan::File(bytes) => u64_to_u32(*bytes),
            Scan::Dir(below) => {
                match entries_size(below) {
                    Ok(size) => size,
                    Err(e) => {
                        return Err(e);
                    },
                }
            },
        };
        acc = match acc.checked_add(size) {
            Some(sum) => sum,
            None => {
                return Err(WalkFailed);
            },
        };
        i += 1;
    }
    assert(entries@.take(i as int) == entries@);
    Ok(acc)
}

/// The megabytes in use below the directory `root`: the lengths of all
/// files in it and in the directories below it, each in whole megabytes.
///
/// Fails where `root` or anything below it could not be read, and where
/// the sum does not fit in 32 bits.
pub fn dir_size(root: &Scan) -> (r: Result<u32, WalkFailed>)
    ensures
        r == dir_size_of(*root),
{
    match root {
        Scan::Dir(entries) => entries_size(entries),
        _ => Err(WalkFailed),
    }
}

/// Two walks of one unchanged directory count the same.
pub proof fn dir_size_is_deterministic(
    root: Scan,
    first: Result<u32, WalkFailed>,
    second: Result<u32, WalkFailed>,
)
    requires
        first == dir_size_of(root),
        second == dir_size_of(root),
    ensures
        first == second,
{
}

/// A directory uses at least as much as any directory below it: where
/// the walk of `root` gets through, so does the walk of a directory
/// `inner` at or below it, and counts no more.
pub proof fn subdirectory_uses_no_more(root: Scan, inner: Scan, depth: nat)
    requires
        root.holds(inner, depth),
        inner is Dir,
        used_megabytes(root) is Some,
    ensures
        used_megabytes(inner) is Some,
        used_megabytes(inner)->0 <= used_megabytes(root)->0,
        dir_size_of(root) matches Ok(all) ==> dir_size_of(inner) matches Ok(part) && part <= all,
    decreases depth,
{
    if depth > 0 {
        let entries = root->Dir_0;
        let i = choose|i: int|
            0 <= i < entries@.len() && (#[trigger] entries@[i]).holds(inner, (depth - 1) as nat);
        sum_bounds(entries@, i);
        subdirectory_uses_no_more(entries@[i], inner, (depth - 1) as nat);
    }
}

/// One entry of a directory as the walk that draws the folder tree found
/// it.
#[derive(Debug, PartialEq, Eq)]
pub struct Listed {
    /// The name of the entry; `None` where the entry could not be read.
    pub name: Option<String>,
    /// What listing the entry as a directory gave.
    pub below: Listing,
}

/// The outcome of listing one directory.
#[derive(Debug, PartialEq, Eq)]
pub enum Listing {
    /// The directory could not be listed.
    Unreadable,
    /// Its entries, in the order of the listing.
    Entries(Vec<Listed>),
}

impl Listing {
    /// The nodes that the entries of this listing become: none where the
    /// directory could not be listed.
    pub open spec fn nodes(self) -> Seq<FolderView>
        decreases self,
    {
        match self {
            Listing::Unreadable => Seq::empty(),
            Listing::Entries(entries) => Listed::nodes(entries@),
        }
    }
}

impl Listed {
    /// The node that this entry becomes. An entry with a full stop in its
    /// name is taken for a file and has nothing below it; any other has
    /// below it what listing it gave.
    pub open spec fn node(self) -> Option<FolderView>
        decreases self,
    {
        match self.name {
            None => None,
            Some(name) => Some(
                FolderView {
                    name: name@,
                    folders: if name@.contains('.') {
                        Seq::empty()
                    } else {
                        self.below.nodes()
                    },
                },
            ),
        }
    }

    /// The nodes of `entries`, in order; an entry that could not be read
    /// leaves none.
    pub open spec fn nodes(entries: Seq<Listed>) -> Seq<FolderView>
        decreases entries,
    {
        if entries.len() == 0 {
            Seq::empty()
        } else {
            let before = Listed::nodes(entries.drop_last());
            match entries.last().node() {
                None => before,
                Some(node) => before.push(node),
            }
        }
    }
}

/// The tree drawn from the listing of a directory: a root without a name
/// over the nodes of the listing.
pub open spec fn folder_tree(listing: Listing) -> FolderView {
    FolderView { name: Seq::empty(), folders: listing.nodes() }
}

/// Whether `name` holds a full stop: such an entry is taken for a file.
pub fn contains_dot(name: &str) -> (found: bool)
    ensures
        found == name@.contains('.'),
{
    let chars = chars_of(name);
    let mut i: usize = 0;
    while i < chars.len()
        invariant
            chars@ == name@,
            i <= chars.len(),
            forall|j: int| 0 <= j < i ==> name@[j] != '.',
        decreases chars.len() - i,
    {
        if chars[i] == '.' {
            return true;
        }
        i += 1;
    }
    false
}

/// Hangs the nodes of `listing` below `obj`, behind those it has.
pub fn get_folder_obj(listing: &Listing, obj: &mut Folder)
    ensures
        final(obj)@ == (FolderView {
            name: old(obj)@.name,
            folders: old(obj)@.folders + listing.nodes(),
        }),
    decreases listing,
{
    if let Listing::Entries(entries) = listing {
        let ghost before = obj@.folders;
        let mut i: usize = 0;
        assert(before + Listed::nodes(entries@.take(0)) == before);
        while i < entries.len()
            invariant
                i <= entries.len(),
                *listing == Listing::Entries(*entries),
                obj@.name == old(obj)@.name,
                obj@.folders == before + Listed::nodes(entries@.take(i as int)),
            decreases entries.len() - i,
        {
            proof {
                assert(entries@.take(i + 1).drop_last() == entries@.take(i as int));
                assert(entries@.take(i + 1).last() == entries@[i as int]);
            }
            let entry = &entries[i];
            if let Some(name) = &entry.name {
                let mut node = Folder { name: name.clone(), folders: Vec::new() };
                assert(node@.folders == Seq::<FolderView>::empty());
                if !contains_dot(name.as_str()) {
                    proof {
                        assert(decreases_to!(listing->Entries_0 => listing->Entries_0[i as int]));
                    }
                    get_folder_obj(&entry.below, &mut node);
                    assert(node@.folders == entry.below.nodes());
                }
                assert(Some(node@) == entry.node());
                let ghost held = *obj;
                obj.folders.push(node);
                proof {
                    view_after_push(held, *obj, node);
                    assert(obj@.folders == before + Listed::nodes(entries@.take(i + 1)));
                }
            }
            i += 1;
        }
        assert(entries@.take(i as int) == entries@);
    } else {
        assert(obj@.folders + listing.nodes() == obj@.folders);
    }
}

/// The folder tree of a directory, drawn from its listing: a root without
/// a name, and below it a node for each entry that could be read, in the
/// order of the listing.
pub fn get_folder_and_files(listing: &Listing) -> (tree: Folder)
    ensures
        tree@ == folder_tree(*listing),
{
    let mut main_folder = Folder { name: String::from_str(""), folders: Vec::new() };
    proof {
        reveal_strlit("");
        assert(main_folder@.name == Seq::<char>::empty());
        assert(main_folder@.folders + listing.nodes() == listing.nodes());
    }
    get_folder_obj(listing, &mut main_folder);
    main_folder
}

/// The decimal digit that stands for `d`.
pub open spec fn digit(d: nat) -> char {
    if d == 0 {
        '0'
    } else if d == 1 {
        '1'
    } else if d == 2 {
        '2'
    } else if d == 3 {
        '3'
    } else if d == 4 {
        '4'
    } else if d == 5 {
        '5'
    } else if d == 6 {
        '6'
    } else if d == 7 {
        '7'
    } else if d == 8 {
        '8'
    } else {
        '9'
    }
}

/// `n` in decimal, without leading zeros.
pub open spec fn decimal(n: nat) -> Seq<char>
    decreases n,
{
    if n < 10 {
        seq![digit(n)]
    } else {
        decimal(n / 10).push(digit(n % 10))
    }
}

/// The digits `digits`, given from the last to the first, as they are
/// read.
pub open spec fn spelled(digits: Seq<u8>) -> Seq<char>
    decreases digits.len(),
{
    if digits.len() == 0 {
        Seq::empty()
    } else {
        seq![digit(digits.last() as nat)] + spelled(digits.drop_last())
    }
}

fn digit_str(d: u8) -> (s: &'static str)
    requires
        d < 10,
    ensures
        s@ == seq![digit(d as nat)],
{
    proof {
        reveal_strlit("0");
        reveal_strlit("1");
        reveal_strlit("2");
        reveal_strlit("3");
        reveal_strlit("4");
        reveal_strlit("5");
        reveal_strlit("6");
        reveal_strlit("7");
        reveal_strlit("8");
        reveal_strlit("9");
    }
    let s = match d {
        0 => "0",
        1 => "1",
        2 => "2",
        3 => "3",
        4 => "4",
        5 => "5",
        6 => "6",
        7 => "7",
        8 => "8",
        _ => "9",
    };
    assert(s@ =~= seq![digit(d as nat)]);
    s
}

/// `n` in decimal, without leading zeros.
pub fn decimal_string(n: u64) -> (text: String)
    ensures
        text@ == decimal(n as nat),
{
    let mut digits: Vec<u8> = Vec::new();
    let mut rest = n;
    while rest >= 10
        invariant
            decimal(n as nat) == decimal(rest as nat) + spelled(digits@),
            forall|i: int| 0 <= i < digits.len() ==> digits[i] < 10,
        decreases rest,
    {
        let ghost before = digits@;
        digits.push((rest % 10) as u8);
        proof {
            assert(digits@.drop_last() == before);
            assert(decimal(rest as nat) == decimal((rest / 10) as nat).push(
                digit((rest % 10) as nat),
            ));
            assert(decimal(rest as nat) + spelled(before) == decimal((rest / 10) as nat) + spelled(
                digits@,
            ));
        }
        rest = rest / 10;
    }
    let mut text = String::from_str(digit_str(rest as u8));
    let mut i = digits.len();
    assert(digits@.take(i as int) == digits@);
    while i > 0
        invariant
            i <= digits.len(),
            text@ + spelled(digits@.take(i as int)) == decimal(n as nat),
            forall|j: int| 0 <= j < digits.len() ==> digits[j] < 10,
        decreases i,
    {
        proof {
            assert(digits@.take(i as int).drop_last() == digits@.take(i - 1));
            assert(text@ + spelled(digits@.take(i as int)) == text@ + seq![
                digit(digits[i - 1] as nat),
            ] + spelled(digits@.take(i - 1)));
        }
        i -= 1;
        text.append(digit_str(digits[i]));
    }
    assert(text@ + spelled(digits@.take(0)) == text@);
    text
}

} // verus!
