//! Session-key derivation for the single-instance lock.
//!
//! One rotation daemon may run per login session; the lock file's name is
//! derived from whichever compositor session variable is present. Reading
//! the environment and taking the lock are the surrounding binary's job;
//! the derivation itself is pure text work and lives here.

use vstd::prelude::*;
use crate::text::push_char;

verus! {

/// Whether a character may appear unchanged in a lock-file name: ASCII
/// letters and digits, dot, dash and underscore.
pub open spec fn keeps_char(c: char) -> bool {
    (('a' as u32) <= c as u32 && c as u32 <= ('z' as u32)) || (('A' as u32) <= c as u32 && c
        as u32 <= ('Z' as u32)) || (('0' as u32) <= c as u32 && c as u32 <= ('9' as u32)) || c
        == '.' || c == '-' || c == '_'
}

/// The sanitized form of one character: kept if filesystem-friendly,
/// otherwise an underscore.
pub open spec fn sanitized_char(c: char) -> char {
    if keeps_char(c) {
        c
    } else {
        '_'
    }
}

/// The sanitized form of a whole component, character by character.
pub open spec fn sanitized(s: Seq<char>) -> Seq<char> {
    s.map_values(|c: char| sanitized_char(c))
}

/// Replaces every character that is not ASCII alphanumeric, dot, dash or
/// underscore with an underscore, keeping the length.
pub fn sanitize_component(s: &str) -> (r: String)
    ensures
        r@ == sanitized(s@),
        r@.len() == s@.len(),
{
    let n = s.unicode_len();
    let mut r = String::new();
    let mut i: usize = 0;
    while i < n
        invariant
            n == s@.len(),
            i <= n,
            r@.len() == i,
            r@ =~= sanitized(s@).subrange(0, i as int),
        decreases n - i,
    {
        let c = s.get_char(i);
        let keep = (c >= 'a' && c <= 'z') || (c >= 'A' && c <= 'Z') || (c >= '0' && c <= '9') || c
            == '.' || c == '-' || c == '_';
        if keep {
            push_char(&mut r, c);
        } else {
            push_char(&mut r, '_');
        }
        assert(r@ =~= sanitized(s@).subrange(0, i + 1));
        i = i + 1;
    }
    assert(sanitized(s@).subrange(0, s@.len() as int) =~= sanitized(s@));
    r
}

/// The key truncated to the length cap, in characters.
pub open spec fn truncated(s: Seq<char>, max_len: int) -> Seq<char> {
    if s.len() <= max_len {
        s
    } else {
        s.subrange(0, max_len)
    }
}

/// Caps a sanitized (all-ASCII) key at `max_len` characters; a shorter key
/// is returned unchanged.
pub fn truncate_ascii(s: String, max_len: usize) -> (r: String)
    ensures
        r@ == truncated(s@, max_len as int),
{
    let n = s.as_str().unicode_len();
    if n <= max_len {
        s
    } else {
        let sub = s.as_str().substring_char(0, max_len);
        String::from_str(sub)
    }
}

/// The index after the last path separator, or zero when there is none.
pub open spec fn basename_start(s: Seq<char>) -> int
    decreases s.len(),
{
    if s.len() == 0 {
        0
    } else if s.last() == '/' {
        s.len() as int
    } else {
        basename_start(s.drop_last())
    }
}

/// The basename of a compositor socket path: what follows the last path
/// separator, or the fixed name "sway" when that is empty or a parent-dir
/// reference.
pub open spec fn spec_sock_basename(s: Seq<char>) -> Seq<char> {
    let tail = s.subrange(basename_start(s), s.len() as int);
    if tail.len() == 0 || tail == seq!['.', '.'] {
        "sway"@
    } else {
        tail
    }
}

/// The final path component of the socket path, used to tell login
/// sessions apart; a path with no usable component falls back to "sway".
pub fn sway_sock_basename(sock: &str) -> (r: &str)
    ensures
        r@ == spec_sock_basename(sock@),
{
    let n = sock.unicode_len();
    let mut i: usize = n;
    assert(sock@.subrange(0, n as int) =~= sock@);
    while i > 0 && sock.get_char(i - 1) != '/'
        invariant
            n == sock@.len(),
            i <= n,
            basename_start(sock@) == basename_start(sock@.subrange(0, i as int)),
        decreases i,
    {
        assert(sock@.subrange(0, i as int).drop_last() =~= sock@.subrange(0, i - 1));
        i = i - 1;
    }
    proof {
        if i > 0 {
            assert(sock@.subrange(0, i as int).last() == sock@[i - 1]);
            assert(basename_start(sock@.subrange(0, i as int)) == i);
        } else {
            assert(sock@.subrange(0, 0) =~= Seq::<char>::empty());
        }
        assert(basename_start(sock@) == i);
    }
    let tail_len = n - i;
    let dotdot = tail_len == 2 && sock.get_char(i) == '.' && sock.get_char(i + 1) == '.';
    if tail_len == 0 || dotdot {
        proof {
            let tail = sock@.subrange(i as int, n as int);
            if tail_len != 0 {
                assert(tail =~= seq!['.', '.']);
            }
        }
        "sway"
    } else {
        proof {
            let tail = sock@.subrange(i as int, n as int);
            if tail == seq!['.', '.'] {
                assert(tail.len() == 2);
                assert(sock@[i as int] == tail[0]);
                assert(sock@[i + 1] == tail[1]);
            }
        }
        sock.substring_char(i, n)
    }
}

/// The session key derived from whichever session variable is present, in
/// priority order: the Hyprland instance signature, then the Sway socket's
/// basename, then the Wayland display name; "unknown" when none is set.
pub open spec fn spec_session_key(
    hypr: Option<Seq<char>>,
    sock: Option<Seq<char>>,
    way: Option<Seq<char>>,
) -> Seq<char> {
    if hypr is Some {
        truncated("hypr-"@ + sanitized(hypr->0), 80)
    } else if sock is Some {
        truncated("sway-"@ + sanitized(spec_sock_basename(sock->0)), 80)
    } else if way is Some {
        truncated("wayland-"@ + sanitized(way->0), 80)
    } else {
        "unknown"@
    }
}

/// Derives the per-login-session key for the lock file from the three
/// compositor session variables, sanitized and capped at eighty characters.
pub fn session_key(hypr: Option<String>, sway_sock: Option<String>, wayland: Option<String>) -> (r:
    String)
    ensures
        r@ == spec_session_key(hypr.deep_view(), sway_sock.deep_view(), wayland.deep_view()),
{
    match hypr {
        Some(sig) => {
            let s = sanitize_component(sig.as_str());
            truncate_ascii(String::from_str("hypr-").concat(s.as_str()), 80)
        },
        None => match sway_sock {
            Some(sock) => {
                let base = sway_sock_basename(sock.as_str());
                let s = sanitize_component(base);
                truncate_ascii(String::from_str("sway-").concat(s.as_str()), 80)
            },
            None => match wayland {
                Some(disp) => {
                    let s = sanitize_component(disp.as_str());
                    truncate_ascii(String::from_str("wayland-").concat(s.as_str()), 80)
                },
                None => String::from_str("unknown"),
            },
        },
    }
}

/// The lock file's name for a session key.
pub fn lock_file_name(key: &str) -> (r: String)
    ensures
        r@ == "randpaper-"@ + key@ + ".lock"@,
{
    String::from_str("randpaper-").concat(key).concat(".lock")
}

} // verus!
