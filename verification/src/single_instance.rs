//! Profile-aware single-instance guard.
//!
//! An abstract Unix socket named after the profile's data directory marks the
//! profile as taken; a second launch for the same profile connects to it,
//! asks the first instance to raise its window and hands over the link it was
//! launched with.

use vstd::prelude::*;
use vstd::utf8::{encode_utf8, encode_utf8_decode_utf8, encode_utf8_valid_utf8};
use crate::commands::opt_ref_view;
use crate::text::{decode_text, hex_fixed, lemma_hex_fixed, owned, push_hex_fixed, utf8_decoded};

verus! {

/// The socket name for a hash of the data directory: `walz-` and the hash as
/// 16 lower-case hexadecimal digits.
pub open spec fn socket_name_spec(hash: u64) -> Seq<char> {
    "walz-"@ + hex_fixed(hash as nat, 16)
}

/// The socket name for a hash of the data directory.
pub fn socket_name_for_hash(hash: u64) -> (r: String)
    ensures
        r@ == socket_name_spec(hash),
{
    let mut name = owned("walz-");
    push_hex_fixed(&mut name, hash, 16);
    name
}

/// The hash of a data directory: what `DefaultHasher::new()` gives after the
/// directory, taken as a `Path`, is hashed into it.
pub uninterp spec fn path_hash(data_dir: Seq<char>) -> u64;

/// Hashes a path with `std::collections::hash_map::DefaultHasher`, `Hash for
/// Path` and `Hasher::finish`. std documents that every hasher made by
/// `DefaultHasher::new` is the same; it is not seeded per process, so for one
/// build the result depends on the path alone, and the contract names it.
/// Which value that is, std leaves unsaid: it may differ between std releases
/// and between targets (the hash reads integers in the target's byte order
/// and width), so two builds need not agree on a name.
#[verifier::external_body]
fn hash_path(data_dir: &str) -> (r: u64)
    ensures
        r == path_hash(data_dir@),
{
    let mut hasher = std::collections::hash_map::DefaultHasher::new();
    std::hash::Hash::hash(std::path::Path::new(data_dir), &mut hasher);
    std::hash::Hasher::finish(&hasher)
}

/// The abstract socket name for a profile's data directory. Socket names are
/// shared by all users, so the name is derived from the data directory, which
/// tells both users and profiles apart; hashing it keeps the name short.
pub fn socket_name(data_dir: &str) -> (r: String)
    ensures
        r@ == socket_name_spec(path_hash(data_dir@)),
{
    let hash = hash_path(data_dir);
    socket_name_for_hash(hash)
}

/// A socket name is `walz-` and 16 lower-case hexadecimal digits: 21
/// characters, well inside the 107 bytes an abstract socket name may take.
pub proof fn law_socket_name_shape(data_dir: Seq<char>)
    ensures
        socket_name_spec(path_hash(data_dir)).len() == 21,
        socket_name_spec(path_hash(data_dir)).subrange(0, 5) == "walz-"@,
        forall|i: int|
            5 <= i < 21 ==> {
                let c = #[trigger] socket_name_spec(path_hash(data_dir))[i];
                ('0' <= c <= '9') || ('a' <= c <= 'f')
            },
{
    reveal_strlit("walz-");
    let h = path_hash(data_dir);
    lemma_hex_fixed(h as nat, 16);
    let s = socket_name_spec(h);
    assert(s.subrange(0, 5) =~= "walz-"@);
    assert forall|i: int| 5 <= i < 21 implies {
        let c = #[trigger] s[i];
        ('0' <= c <= '9') || ('a' <= c <= 'f')
    } by {
        assert(s[i] == hex_fixed(h as nat, 16)[i - 5]);
    }
}

/// How a launch goes once the guard has been tried.
#[derive(Debug, Clone, PartialEq, Eq)]
pub enum Acquired {
    /// This process owns the profile and holds the listening socket.
    Primary,
    /// This process runs without a guard: the socket could not be named, or it
    /// was taken but nobody answered on it.
    Unguarded,
    /// Another instance owns the profile and has been asked to surface.
    AlreadyRunning,
}

/// The outcome of trying to claim the profile: whether the socket could be
/// named, whether binding it worked, and, when it did not, whether the
/// incumbent answered. A launch never refuses to start unless another
/// instance is known to be running.
pub fn acquire_outcome(named: bool, bound: bool, connected: bool) -> (r: Acquired)
    ensures
        !named ==> r == Acquired::Unguarded,
        named && bound ==> r == Acquired::Primary,
        named && !bound && connected ==> r == Acquired::AlreadyRunning,
        named && !bound && !connected ==> r == Acquired::Unguarded,
{
    if !named {
        Acquired::Unguarded
    } else if bound {
        Acquired::Primary
    } else if connected {
        Acquired::AlreadyRunning
    } else {
        Acquired::Unguarded
    }
}

/// The bytes that open every wake-up request: `walz-show`.
pub open spec fn wake_prefix() -> Seq<u8> {
    seq![0x77u8, 0x61, 0x6c, 0x7a, 0x2d, 0x73, 0x68, 0x6f, 0x77]
}

/// The message a second launch sends to the first: `walz-show`, and, when it
/// was launched with a link, a line feed and the link in UTF-8.
pub open spec fn wake_message(link: Option<Seq<char>>) -> Seq<u8> {
    match link {
        None => wake_prefix(),
        Some(u) => wake_prefix() + seq![0x0au8] + encode_utf8(u),
    }
}

/// What the first instance reads from a connection: `None` when it is no
/// wake-up request, `Some(None)` when it is one without a link it can read,
/// and `Some(Some(link))` when a link came with it. Whatever follows the first
/// nine bytes, a request that starts with `walz-show` raises the window.
pub open spec fn wake_request(buf: Seq<u8>) -> Option<Option<Seq<char>>> {
    if buf.len() >= 9 && buf.take(9) == wake_prefix() {
        if buf.len() > 9 && buf[9] == 0x0au8 {
            Some(utf8_decoded(buf.skip(10)))
        } else {
            Some(None)
        }
    } else {
        None
    }
}

/// The view of a parsed wake-up request.
pub open spec fn request_view(r: Option<Option<String>>) -> Option<Option<Seq<char>>> {
    match r {
        None => None,
        Some(None) => Some(None),
        Some(Some(s)) => Some(Some(s@)),
    }
}

/// The message a second launch sends to the first, carrying the link it was
/// launched with so that the running instance can open it.
pub fn wake(link: Option<&str>) -> (r: Vec<u8>)
    ensures
        r@ == wake_message(opt_ref_view(link)),
{
    let mut r: Vec<u8> = vec![0x77, 0x61, 0x6c, 0x7a, 0x2d, 0x73, 0x68, 0x6f, 0x77];
    assert(r@ =~= wake_prefix());
    match link {
        None => {},
        Some(u) => {
            r.push(0x0a);
            let bytes = u.as_bytes();
            let ghost start = r@;
            let mut i: usize = 0;
            while i < bytes.len()
                invariant
                    i <= bytes@.len(),
                    r@ == start + bytes@.take(i as int),
                decreases bytes@.len() - i,
            {
                r.push(bytes[i]);
                i = i + 1;
                assert(r@ =~= start + bytes@.take(i as int));
            }
            assert(bytes@.take(bytes@.len() as int) =~= bytes@);
            assert(r@ =~= wake_message(opt_ref_view(link)));
        },
    }
    r
}

/// Read a wake-up request from the bytes a connection delivered.
pub fn parse_wake(buf: &[u8]) -> (r: Option<Option<String>>)
    ensures
        request_view(r) == wake_request(buf@),
{
    let n = buf.len();
    if n < 9 {
        return None;
    }
    let mut i: usize = 0;
    while i < 9
        invariant
            9 <= n == buf@.len(),
            i <= 9,
            forall|k: int| 0 <= k < i ==> buf@[k] == wake_prefix()[k],
        decreases 9 - i,
    {
        let expected: u8 = if i == 0 {
            0x77
        } else if i == 1 {
            0x61
        } else if i == 2 {
            0x6c
        } else if i == 3 {
            0x7a
        } else if i == 4 {
            0x2d
        } else if i == 5 {
            0x73
        } else if i == 6 {
            0x68
        } else if i == 7 {
            0x6f
        } else {
            0x77
        };
        if buf[i] != expected {
            assert(buf@.take(9)[i as int] != wake_prefix()[i as int]);
            return None;
        }
        i = i + 1;
    }
    assert(buf@.take(9) =~= wake_prefix());
    if n == 9 || buf[9] != 0x0a {
        return Some(None);
    }
    let mut rest: Vec<u8> = Vec::new();
    let mut j: usize = 10;
    while j < n
        invariant
            10 <= j <= n == buf@.len(),
            rest@ == buf@.subrange(10, j as int),
        decreases n - j,
    {
        rest.push(buf[j]);
        j = j + 1;
        assert(rest@ =~= buf@.subrange(10, j as int));
    }
    assert(rest@ =~= buf@.skip(10));
    Some(decode_text(rest.as_slice()))
}

/// A wake-up message reads back as the request it was made from: the running
/// instance raises its window and receives exactly the link the second launch
/// was given.
pub proof fn law_wake_round_trip(link: Option<Seq<char>>)
    ensures
        wake_request(wake_message(link)) == Some(link),
{
    match link {
        None => {
            assert(wake_prefix().take(9) =~= wake_prefix());
        },
        Some(u) => {
            let m = wake_message(link);
            encode_utf8_valid_utf8(u);
            encode_utf8_decode_utf8(u);
            assert(m.take(9) =~= wake_prefix());
            assert(m.skip(10) =~= encode_utf8(u));
            assert(m.len() > 9);
        },
    }
}

} // verus!
