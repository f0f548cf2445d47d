//! Endpoint addresses.
//!
//! An address is an immutable string naming an endpoint: `unix://<path>`
//! names a filesystem socket served by the readiness-polling backend, while
//! a pipe-style name (`\\.\pipe\<name>`) is served by the completion-I/O
//! backend. The two forms are not interchangeable; which backend runs is a
//! build-time choice, so this module only classifies the string and extracts
//! the filesystem path where one exists.

use vstd::prelude::*;
use vstd::string::StrSliceExecFns;

verus! {

/// Whether `p` is a prefix of `s`.
pub open spec fn spec_has_prefix(s: Seq<char>, p: Seq<char>) -> bool {
    p.len() <= s.len() && s.subrange(0, p.len() as int) == p
}

/// Decides whether the string `s` starts with the string `p`.
pub fn str_has_prefix(s: &str, p: &str) -> (r: bool)
    ensures
        r == spec_has_prefix(s@, p@),
{
    let sn = s.unicode_len();
    let pn = p.unicode_len();
    if pn > sn {
        return false;
    }
    let mut i: usize = 0;
    while i < pn
        invariant
            i <= pn,
            pn <= sn,
            pn == p@.len(),
            sn == s@.len(),
            forall|j: int| 0 <= j < i ==> s@[j] == p@[j],
        decreases pn - i,
    {
        if s.get_char(i) != p.get_char(i) {
            proof {
                if spec_has_prefix(s@, p@) {
                    assert(s@.subrange(0, p@.len() as int)[i as int] == p@[i as int]);
                }
            }
            return false;
        }
        i = i + 1;
    }
    proof {
        assert(s@.subrange(0, p@.len() as int) =~= p@);
    }
    true
}

/// Whether the address names a filesystem socket endpoint.
pub open spec fn is_unix_address(a: Seq<char>) -> bool {
    spec_has_prefix(a, "unix://"@)
}

/// The filesystem path inside a `unix://` address.
pub open spec fn unix_path_of(a: Seq<char>) -> Seq<char> {
    a.subrange("unix://"@.len() as int, a.len() as int)
}

/// Whether the address names a completion-backend pipe endpoint.
pub open spec fn is_pipe_address(a: Seq<char>) -> bool {
    spec_has_prefix(a, "\\\\.\\pipe\\"@)
}

/// Classifies an address as pipe-style.
pub fn pipe_address(addr: &str) -> (r: bool)
    ensures
        r == is_pipe_address(addr@),
{
    str_has_prefix(addr, "\\\\.\\pipe\\")
}

/// Names the stale filesystem entry that a crashed prior listener may have
/// left behind, which the caller must remove before re-binding: the path
/// inside a `unix://` address. A pipe-style name leaves nothing on the
/// filesystem, so there is nothing to remove and the result is `None`.
/// Performing the removal itself is outside this layer.
pub fn remove_if_sock_exist(sock_addr: &str) -> (r: Option<String>)
    ensures
        is_unix_address(sock_addr@) ==> (r matches Some(p) && p@ == unix_path_of(sock_addr@)),
        !is_unix_address(sock_addr@) ==> r is None,
{
    if str_has_prefix(sock_addr, "unix://") {
        let n = "unix://".unicode_len();
        let path = sock_addr.substring_char(n, sock_addr.unicode_len());
        Some(path.to_owned())
    } else {
        None
    }
}

} // verus!
