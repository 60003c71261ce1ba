use vstd::prelude::*;
use crate::errors::{ApiError, BAD_REQUEST, custom};
use vstd::string::StringExecFns;

verus! {

/// True when `p` holds the segment `..` starting at index `a`, where
/// segments are the runs of characters between `/` separators.
pub open spec fn is_parent_segment_at(p: Seq<char>, a: int) -> bool {
    &&& 0 <= a
    &&& a + 2 <= p.len()
    &&& p[a] == '.'
    &&& p[a + 1] == '.'
    &&& (a == 0 || p[a - 1] == '/')
    &&& (a + 2 == p.len() || p[a + 2] == '/')
}

/// A path names its parent directory when one of its segments is `..`.
pub open spec fn has_parent_component(p: Seq<char>) -> bool {
    exists|a: int| #[trigger] is_parent_segment_at(p, a)
}

/// A path is absolute when it starts at the root separator.
pub open spec fn is_absolute_path(p: Seq<char>) -> bool {
    p.len() > 0 && p[0] == '/'
}

/// `rel` appended to `root`, with one separator between them unless `root`
/// is empty or already ends with one.
pub open spec fn join_path(root: Seq<char>, rel: Seq<char>) -> Seq<char> {
    if root.len() > 0 && root.last() != '/' {
        root + seq!['/'] + rel
    } else {
        root + rel
    }
}

/// The characters of `s`, one per element.
pub fn chars_of(s: &str) -> (r: Vec<char>)
    ensures
        r@ == s@,
{
    let mut r: Vec<char> = Vec::new();
    for c in it: s.chars()
        invariant
            r@ == it.seq().subrange(0, it.index() as int),
            it.seq() == s@,
    {
        r.push(c);
    }
    r
}

/// Whether a lexical check finds a `..` segment in `p`.
pub fn names_parent_dir(p: &Vec<char>) -> (r: bool)
    ensures
        r == has_parent_component(p@),
{
    let n = p.len();
    let mut i: usize = 0;
    while i < n
        invariant
            n == p@.len(),
            i <= n,
            forall|a: int| 0 <= a < i ==> !#[trigger] is_parent_segment_at(p@, a),
        decreases n - i,
    {
        if p[i] == '.' && i + 1 < n && p[i + 1] == '.' && (i == 0 || p[i - 1] == '/') && (i + 2
            == n || p[i + 2] == '/') {
            assert(is_parent_segment_at(p@, i as int));
            return true;
        }
        i = i + 1;
    }
    assert forall|a: int| !#[trigger] is_parent_segment_at(p@, a) by {
        if 0 <= a < n {
        }
    }
    false
}

/// Why a user-supplied path was refused before any filesystem access.
#[derive(Debug, Clone, Copy, PartialEq, Eq, Structural)]
pub enum PathError {
    /// The path holds a `..` segment.
    PathTraversalRejected,
    /// The path starts at the filesystem root.
    AbsolutePathRejected,
}

impl PathError {
    /// The error that goes out to the client.
    pub fn to_api_error(self) -> (r: ApiError)
        ensures
            r matches ApiError::Custom(status, body) && status == BAD_REQUEST && body.message@
                == match self {
                PathError::PathTraversalRejected => "Paths referencing the parent dir are not allowed"@,
                PathError::AbsolutePathRejected => "Absolute paths are not allowed"@,
            },
    {
        match self {
            PathError::PathTraversalRejected => custom(
                "Paths referencing the parent dir are not allowed",
                BAD_REQUEST,
            ),
            PathError::AbsolutePathRejected => custom("Absolute paths are not allowed", BAD_REQUEST),
        }
    }
}

/// The verdict on a user-supplied path: absolute paths are refused first,
/// then paths with a `..` segment.
pub open spec fn path_check(raw: Seq<char>) -> Result<(), PathError> {
    if is_absolute_path(raw) {
        Err(PathError::AbsolutePathRejected)
    } else if has_parent_component(raw) {
        Err(PathError::PathTraversalRejected)
    } else {
        Ok(())
    }
}

/// The outcome `resolve` owes for a root and a raw path: the path's
/// verdict, and for an accepted path its join onto the root.
pub open spec fn resolve_spec(root: Seq<char>, raw: Seq<char>) -> Result<Seq<char>, PathError> {
    match path_check(raw) {
        Ok(()) => Ok(join_path(root, raw)),
        Err(e) => Err(e),
    }
}

/// Checks that `raw` is relative and free of `..` segments.
pub fn validate_relative(raw: &str) -> (r: Result<(), PathError>)
    ensures
        r == path_check(raw@),
{
    let chars = chars_of(raw);
    if chars.len() > 0 && chars[0] == '/' {
        return Err(PathError::AbsolutePathRejected);
    }
    if names_parent_dir(&chars) {
        return Err(PathError::PathTraversalRejected);
    }
    Ok(())
}

/// `rel` appended to `root` as `join_path` describes.
pub fn join(root: &str, rel: &str) -> (r: String)
    ensures
        r@ == join_path(root@, rel@),
{
    let root_chars = chars_of(root);
    let mut out = String::from_str(root);
    let n = root_chars.len();
    if n > 0 && root_chars[n - 1] != '/' {
        let sep = "/";
        proof {
            reveal_strlit("/");
        }
        out.append(sep);
    }
    out.append(rel);
    out
}

/// Confines `raw`, a path supplied by a user, to the directory `root`.
/// The check is lexical: nothing on disk is read, and symbolic links are
/// not followed.
pub fn resolve(root: &str, raw: &str) -> (r: Result<String, PathError>)
    ensures
        match (r, resolve_spec(root@, raw@)) {
            (Ok(path), Ok(expected)) => path@ == expected,
            (Err(e), Err(expected)) => e == expected,
            _ => false,
        },
{
    match validate_relative(raw) {
        Ok(()) => Ok(join(root, raw)),
        Err(e) => Err(e),
    }
}

/// A path with a `..` segment that does not start at the root is refused
/// as a traversal, however deep the segment sits.
pub proof fn lemma_traversal_rejected(root: Seq<char>, raw: Seq<char>)
    requires
        !is_absolute_path(raw),
        has_parent_component(raw),
    ensures
        resolve_spec(root, raw) == Err::<Seq<char>, PathError>(PathError::PathTraversalRejected),
{
}

/// Every absolute path is refused as absolute.
pub proof fn lemma_absolute_rejected(root: Seq<char>, raw: Seq<char>)
    requires
        is_absolute_path(raw),
    ensures
        resolve_spec(root, raw) == Err::<Seq<char>, PathError>(PathError::AbsolutePathRejected),
{
}

/// A relative path without a `..` segment resolves to a path that starts
/// with the root.
pub proof fn lemma_resolved_under_root(root: Seq<char>, raw: Seq<char>)
    requires
        !is_absolute_path(raw),
        !has_parent_component(raw),
    ensures
        resolve_spec(root, raw) is Ok,
        resolve_spec(root, raw)->Ok_0.len() >= root.len(),
        resolve_spec(root, raw)->Ok_0.subrange(0, root.len() as int) == root,
{
    assert(join_path(root, raw).subrange(0, root.len() as int) =~= root);
}

/// The decimal digit for `d`, which is below ten.
pub open spec fn digit_char(d: nat) -> char {
    if d == 0 {
        '0'
    } else if d == 1 {
        '1'
    } else if d == 2 {
        '2'
    } else if d == 3 {
        '3'
    } else if d == 4 {
        '4'
    } else if d == 5 {
        '5'
    } else if d == 6 {
        '6'
    } else if d == 7 {
        '7'
    } else if d == 8 {
        '8'
    } else {
        '9'
    }
}

/// The decimal digits of `n`, most significant first, without leading zeros.
pub open spec fn nat_decimal(n: nat) -> Seq<char>
    decreases n,
{
    if n < 10 {
        seq![digit_char(n)]
    } else {
        nat_decimal(n / 10) + seq![digit_char(n % 10)]
    }
}

/// The decimal form of `i`, with a leading `-` when it is negative.
pub open spec fn int_decimal(i: int) -> Seq<char> {
    if i < 0 {
        seq!['-'] + nat_decimal((-i) as nat)
    } else {
        nat_decimal(i as nat)
    }
}

fn digit_str(d: u64) -> (r: &'static str)
    requires
        d < 10,
    ensures
        r@ == seq![digit_char(d as nat)],
{
    if d == 0 {
        proof { reveal_strlit("0"); }
        "0"
    } else if d == 1 {
        proof { reveal_strlit("1"); }
        "1"
    } else if d == 2 {
        proof { reveal_strlit("2"); }
        "2"
    } else if d == 3 {
        proof { reveal_strlit("3"); }
        "3"
    } else if d == 4 {
        proof { reveal_strlit("4"); }
        "4"
    } else if d == 5 {
        proof { reveal_strlit("5"); }
        "5"
    } else if d == 6 {
        proof { reveal_strlit("6"); }
        "6"
    } else if d == 7 {
        proof { reveal_strlit("7"); }
        "7"
    } else if d == 8 {
        proof { reveal_strlit("8"); }
        "8"
    } else {
        proof { reveal_strlit("9"); }
        "9"
    }
}

/// The decimal digits of `n`.
pub fn decimal(n: u64) -> (r: String)
    ensures
        r@ == nat_decimal(n as nat),
    decreases n,
{
    if n < 10 {
        String::from_str(digit_str(n))
    } else {
        let mut r = decimal(n / 10);
        r.append(digit_str(n % 10));
        r
    }
}

/// The decimal form of a signed identifier.
pub fn signed_decimal(i: i32) -> (r: String)
    ensures
        r@ == int_decimal(i as int),
{
    if i < 0 {
        let minus = "-";
        proof { reveal_strlit("-"); }
        let mut r = String::from_str(minus);
        let magnitude: u64 = (0i64 - i as i64) as u64;
        r.append(decimal(magnitude).as_str());
        r
    } else {
        decimal(i as u64)
    }
}

/// The directory that holds the files of the user with identifier `id`:
/// the storage root, a separator, and the identifier in decimal.
pub open spec fn user_root_spec(storage_root: Seq<char>, id: int) -> Seq<char> {
    storage_root + seq!['/'] + int_decimal(id)
}

/// The sandbox root of the user with identifier `user_id` under
/// `storage_root`.
pub fn user_root_path(storage_root: &str, user_id: i32) -> (r: String)
    ensures
        r@ == user_root_spec(storage_root@, user_id as int),
{
    let mut r = String::from_str(storage_root);
    let sep = "/";
    proof { reveal_strlit("/"); }
    r.append(sep);
    r.append(signed_decimal(user_id).as_str());
    r
}

} // verus!
