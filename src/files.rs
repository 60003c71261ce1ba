use crate::models::{DirContents, FileSystemElement, FileSystemElementType, Share, User};
use crate::paths::PathError;
use crate::tokens::{new_token, token_text, token_text_of};
use crate::uploads::{user_path, user_path_spec};
use vstd::prelude::*;

verus! {

/// One entry of a directory as the filesystem reports it.
pub struct ListedEntry {
    pub name: String,
    pub is_dir: bool,
    pub len: u64,
}

/// `e` lists the entry `l`: directories with size 0, files with their
/// length.
pub open spec fn describes(e: FileSystemElement, l: ListedEntry) -> bool {
    &&& e.name@ == l.name@
    &&& if l.is_dir {
        e.element_type == FileSystemElementType::Directory && e.bytes == 0
    } else {
        e.element_type == FileSystemElementType::File && e.bytes == l.len
    }
}

/// The listing entry for one directory entry.
pub fn describe_entry(entry: &ListedEntry) -> (r: FileSystemElement)
    ensures
        describes(r, *entry),
{
    if entry.is_dir {
        FileSystemElement {
            element_type: FileSystemElementType::Directory,
            name: entry.name.clone(),
            bytes: 0,
        }
    } else {
        FileSystemElement {
            element_type: FileSystemElementType::File,
            name: entry.name.clone(),
            bytes: entry.len,
        }
    }
}

/// The listing of a directory whose entries are `entries`, in their order.
pub fn ls(entries: &Vec<ListedEntry>) -> (r: DirContents)
    ensures
        r.contents@.len() == entries@.len(),
        forall|i: int| 0 <= i < entries@.len() ==> describes(#[trigger] r.contents@[i], entries@[i]),
{
    let mut contents: Vec<FileSystemElement> = Vec::new();
    let n = entries.len();
    let mut i: usize = 0;
    while i < n
        invariant
            n == entries@.len(),
            i <= n,
            contents@.len() == i,
            forall|j: int| 0 <= j < i ==> describes(#[trigger] contents@[j], entries@[j]),
        decreases n - i,
    {
        let e = describe_entry(&entries[i]);
        contents.push(e);
        i = i + 1;
    }
    DirContents { contents }
}

/// A new share: the record to store, which holds the full path, and the
/// record for the client, which holds only the user's relative path.
pub struct ShareRecords {
    pub stored: Share,
    pub returned: Share,
}

/// The share records for `raw`, a path of `user`, under the link `link`.
pub fn share_records(storage_root: &str, user: &User, raw: &str, link: String) -> (r: Result<
    ShareRecords,
    PathError,
>)
    ensures
        match (r, user_path_spec(storage_root@, user.id as int, raw@)) {
            (Ok(s), Ok(full)) => {
                &&& s.stored.link@ == link@
                &&& s.stored.path@ == full
                &&& s.returned.link@ == link@
                &&& s.returned.path@ == raw@
            },
            (Err(e), Err(expected)) => e == expected,
            _ => false,
        },
{
    let full = match user_path(storage_root, user, raw) {
        Ok(p) => p,
        Err(e) => return Err(e),
    };
    let returned = Share { link: link.clone(), path: raw.to_string() };
    Ok(ShareRecords { stored: Share { link, path: full }, returned })
}

/// Share records for `raw` under a fresh random link.
pub fn create_share(storage_root: &str, user: &User, raw: &str) -> (r: Result<
    ShareRecords,
    PathError,
>)
    ensures
        match (r, user_path_spec(storage_root@, user.id as int, raw@)) {
            (Ok(s), Ok(full)) => {
                &&& exists|t: u128| s.stored.link@ == token_text_of(t)
                &&& s.stored.path@ == full
                &&& s.returned.link@ == s.stored.link@
                &&& s.returned.path@ == raw@
            },
            (Err(e), Err(expected)) => e == expected,
            _ => false,
        },
{
    let link = token_text(new_token());
    share_records(storage_root, user, raw, link)
}

} // verus!
