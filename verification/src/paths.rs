//! File-system paths, and the std and `mime_guess` functions that compute on
//! them. None of these touch the file system.
//!
//! Paths the library builds are strings. A local file named by the desktop
//! (a `file:` URL on the clipboard, a drop) is taken as its bytes, as the
//! operating system holds them on Unix, so that a name that is not valid
//! UTF-8 is still carried through.

use vstd::prelude::*;
use crate::text::{decode_text, utf8_decoded};

verus! {

/// What `std::path::Path::file_name` gives for a path: its final component,
/// or nothing when the path ends in `..` or is a root.
pub uninterp spec fn path_file_name(path: Seq<char>) -> Option<Seq<char>>;

/// What `std::path::Path::join` gives for a base path and a part on Unix: an
/// absolute part replaces the base; otherwise the part is appended, after a
/// `/` when the base is not empty and does not already end in one.
pub open spec fn path_join(base: Seq<char>, part: Seq<char>) -> Seq<char> {
    if part.len() > 0 && part[0] == '/' {
        part
    } else if base.len() == 0 || base.last() == '/' {
        base + part
    } else {
        base + "/"@ + part
    }
}

/// What `std::path::Path::starts_with` says of a path and a base
/// (it compares whole components).
pub uninterp spec fn path_within(path: Seq<char>, base: Seq<char>) -> bool;

/// What `std::path::Path::parent` gives for a path.
pub uninterp spec fn path_parent(path: Seq<char>) -> Option<Seq<char>>;

/// What `==` on two `std::path::Path`s says (it compares whole components).
pub uninterp spec fn path_eq(a: Seq<char>, b: Seq<char>) -> bool;

/// What `mime_guess::from_ext(ext).first_or_octet_stream()` prints for an
/// extension. `mime_guess::from_path` looks a path up by its extension when
/// that is valid text, and gives the same empty guess as `from_ext("")`
/// otherwise.
pub uninterp spec fn guessed_mime(ext: Seq<char>) -> Seq<char>;

/// `std::path::Path::file_name`. A name taken from a `&str` path is valid UTF-8,
/// so the conversion back to a string loses nothing.
#[verifier::external_body]
pub(crate) fn file_name(path: &str) -> (r: Option<String>)
    ensures
        match r { Some(n) => Some(n@), None => None::<Seq<char>> } == path_file_name(path@),
{
    std::path::Path::new(path).file_name().and_then(|n| n.to_str()).map(|n| n.to_string())
}

/// `std::path::Path::join`. Joining two UTF-8 strings gives a UTF-8 string.
#[verifier::external_body]
pub(crate) fn join(base: &str, part: &str) -> (r: String)
    ensures
        r@ == path_join(base@, part@),
{
    std::path::Path::new(base).join(part).to_string_lossy().into_owned()
}

/// `std::path::Path::starts_with`.
#[verifier::external_body]
pub(crate) fn within(path: &str, base: &str) -> (r: bool)
    ensures
        r == path_within(path@, base@),
{
    std::path::Path::new(path).starts_with(base)
}

/// `std::path::Path::parent`.
#[verifier::external_body]
pub(crate) fn parent(path: &str) -> (r: Option<String>)
    ensures
        match r { Some(n) => Some(n@), None => None::<Seq<char>> } == path_parent(path@),
{
    std::path::Path::new(path).parent().map(|p| p.to_string_lossy().into_owned())
}

/// `==` on two `std::path::Path`s.
#[verifier::external_body]
pub(crate) fn same_path(a: &str, b: &str) -> (r: bool)
    ensures
        r == path_eq(a@, b@),
{
    std::path::Path::new(a) == std::path::Path::new(b)
}

/// `mime_guess::from_ext(ext).first_or_octet_stream()`, printed.
#[verifier::external_body]
pub(crate) fn guess_mime(ext: &str) -> (r: String)
    ensures
        r@ == guessed_mime(ext@),
{
    mime_guess::from_ext(ext).first_or_octet_stream().to_string()
}

/// The path separator `/` and the dot, as bytes.
pub open spec fn slash() -> u8 {
    0x2f
}

pub open spec fn dot() -> u8 {
    0x2e
}

/// The bytes of `b` after its last `x` (all of `b` when there is none).
pub open spec fn after_last_byte(b: Seq<u8>, x: u8) -> Seq<u8>
    decreases b.len(),
{
    if b.len() == 0 || b.last() == x {
        Seq::empty()
    } else {
        after_last_byte(b.drop_last(), x).push(b.last())
    }
}

/// The last component of a Unix path that `Path::components` yields as a
/// name: trailing separators and `.` components are passed over; empty when
/// only a root, `.` or nothing is left.
pub open spec fn last_component(b: Seq<u8>) -> Seq<u8>
    decreases b.len(),
{
    if b.len() == 0 {
        b
    } else if b.last() == slash() {
        last_component(b.drop_last())
    } else if after_last_byte(b, slash()) == seq![dot()] {
        last_component(b.drop_last())
    } else {
        after_last_byte(b, slash())
    }
}

/// `Path::file_name` of a Unix path given as bytes: its final component,
/// none when the path has no name or ends in `..`.
pub open spec fn os_file_name(b: Seq<u8>) -> Option<Seq<u8>> {
    let c = last_component(b);
    if c.len() == 0 || c == seq![dot(), dot()] {
        None
    } else {
        Some(c)
    }
}

/// `Path::extension` of a file name: what follows its last `.`; none when it
/// has no `.`, or its only `.` is the first byte.
pub open spec fn os_extension(name: Seq<u8>) -> Option<Seq<u8>> {
    let tail = after_last_byte(name, dot());
    if tail.len() == name.len() || tail.len() + 1 == name.len() {
        None
    } else {
        Some(tail)
    }
}

/// The extension that `mime_guess::from_path` looks a path up by: the
/// extension when it is valid text, else the empty string.
pub open spec fn mime_extension(path: Seq<u8>) -> Seq<char> {
    match os_file_name(path) {
        Some(n) => match os_extension(n) {
            Some(e) => match utf8_decoded(e) {
                Some(t) => t,
                None => Seq::empty(),
            },
            None => Seq::empty(),
        },
        None => Seq::empty(),
    }
}

/// Where the bytes after the last `x` in `b[..end]` begin.
fn after_last_byte_start(b: &[u8], end: usize, x: u8) -> (i: usize)
    requires
        end <= b@.len(),
    ensures
        i <= end,
        b@.subrange(i as int, end as int) == after_last_byte(b@.take(end as int), x),
{
    let mut j: usize = end;
    while j > 0 && b[j - 1] != x
        invariant
            j <= end <= b@.len(),
            after_last_byte(b@.take(end as int), x)
                == after_last_byte(b@.take(j as int), x) + b@.subrange(j as int, end as int),
        decreases j,
    {
        let ghost t = b@.take(j as int);
        assert(t.drop_last() =~= b@.take(j - 1));
        assert(b@.subrange(j - 1, end as int) =~= seq![t.last()] + b@.subrange(j as int, end as int));
        j = j - 1;
        assert(after_last_byte(t, x) == after_last_byte(b@.take(j as int), x).push(t.last()));
        assert(after_last_byte(b@.take(end as int), x) =~= after_last_byte(b@.take(j as int), x)
            + b@.subrange(j as int, end as int));
    }
    assert(after_last_byte(b@.take(j as int), x) =~= Seq::<u8>::empty());
    assert(after_last_byte(b@.take(end as int), x) =~= b@.subrange(j as int, end as int));
    j
}

/// The bytes of `b` from `i` to `j`.
fn copy_range(b: &[u8], i: usize, j: usize) -> (r: Vec<u8>)
    requires
        i <= j <= b@.len(),
    ensures
        r@ == b@.subrange(i as int, j as int),
{
    let mut r: Vec<u8> = Vec::new();
    let mut k: usize = i;
    while k < j
        invariant
            i <= k <= j <= b@.len(),
            r@ == b@.subrange(i as int, k as int),
        decreases j - k,
    {
        r.push(b[k]);
        k = k + 1;
        assert(r@ =~= b@.subrange(i as int, k as int));
    }
    r
}

/// `Path::file_name` of a Unix path given as bytes.
pub fn file_name_bytes(b: &[u8]) -> (r: Option<Vec<u8>>)
    ensures
        match r { Some(n) => Some(n@), None => None::<Seq<u8>> } == os_file_name(b@),
{
    let mut end: usize = b.len();
    assert(b@.take(end as int) =~= b@);
    loop
        invariant
            end <= b@.len(),
            last_component(b@.take(end as int)) == last_component(b@),
        decreases end,
    {
        if end == 0 {
            return None;
        }
        let ghost t = b@.take(end as int);
        assert(t.drop_last() =~= b@.take(end - 1));
        if b[end - 1] == 0x2f {
            end = end - 1;
        } else {
            let start = after_last_byte_start(b, end, 0x2f);
            if end - start == 1 && b[start] == 0x2e {
                assert(after_last_byte(t, slash()) =~= seq![dot()]);
                end = end - 1;
            } else {
                if end - start != 1 {
                    assert(after_last_byte(t, slash()).len() != seq![dot()].len());
                } else {
                    assert(after_last_byte(t, slash())[0] == b@[start as int]);
                }
                let c = copy_range(b, start, end);
                if end - start == 2 && b[start] == 0x2e && b[start + 1] == 0x2e {
                    assert(c@ =~= seq![dot(), dot()]);
                    return None;
                }
                assert(c@ != seq![dot(), dot()]);
                return Some(c);
            }
        }
    }
}

/// `Path::extension` of a file name given as bytes.
pub fn extension_bytes(name: &[u8]) -> (r: Option<Vec<u8>>)
    ensures
        match r { Some(e) => Some(e@), None => None::<Seq<u8>> } == os_extension(name@),
{
    let n = name.len();
    let start = after_last_byte_start(name, n, 0x2e);
    assert(name@.take(n as int) =~= name@);
    if start == 0 || start == 1 {
        return None;
    }
    Some(copy_range(name, start, n))
}

/// The MIME type `mime_guess::from_path(path).first_or_octet_stream()` gives
/// for a Unix path given as bytes.
pub fn mime_for_path(path: &[u8]) -> (r: String)
    ensures
        r@ == guessed_mime(mime_extension(path@)),
{
    proof {
        reveal_strlit("");
        assert(""@ =~= Seq::<char>::empty());
    }
    match file_name_bytes(path) {
        Some(n) => match extension_bytes(n.as_slice()) {
            Some(e) => match decode_text(e.as_slice()) {
                Some(t) => guess_mime(t.as_str()),
                None => guess_mime(""),
            },
            None => guess_mime(""),
        },
        None => guess_mime(""),
    }
}

} // verus!
