//! Wallpaper selection: the cache of eligible image paths and the random
//! pick.
//!
//! Walking the directory tree and canonicalizing paths is filesystem work
//! done by the surrounding binary; it hands the discovered paths in, and
//! this module filters them by image extension, rejects an empty result,
//! and picks one at random per output.

use vstd::prelude::*;
use crate::session::basename_start;

verus! {

/// Selection failure: the directory held no supported image at all.
#[derive(Clone, Copy, PartialEq, Eq, Structural, Debug)]
pub enum WallpaperError {
    NoImages,
}

/// The index just after the last dot, or zero when the path has none.
pub open spec fn after_last_dot(s: Seq<char>) -> int
    decreases s.len(),
{
    if s.len() == 0 {
        0
    } else if s.last() == '.' {
        s.len() as int
    } else {
        after_last_dot(s.drop_last())
    }
}

/// Whether `c` is the letter `l` (a lowercase ASCII letter) in either
/// case.
pub open spec fn lc_match(c: char, l: char) -> bool {
    c == l || (('a' as u32) <= (l as u32) && (l as u32) <= ('z' as u32) && (c as u32) + 32 == (
    l as u32))
}

/// ASCII case-insensitive equality against a lowercase reference word.
pub open spec fn lc_eq(a: Seq<char>, b: Seq<char>) -> bool {
    a.len() == b.len() && (forall|i: int| 0 <= i < a.len() ==> lc_match(a[i], b[i]))
}

/// The path's extension: what follows the last dot, provided that dot
/// sits strictly inside the final path component (so a leading-dot name
/// has no extension, and a dot in a directory name does not count).
pub open spec fn spec_extension(s: Seq<char>) -> Option<Seq<char>> {
    let b = basename_start(s);
    let d = after_last_dot(s);
    if d >= 1 && d - 1 > b {
        Some(s.subrange(d, s.len() as int))
    } else {
        None
    }
}

/// Whether a path names a supported image: its extension is jpg, jpeg,
/// png or bmp in any letter case, or webp where that is accepted.
pub open spec fn spec_supported(s: Seq<char>, webp_ok: bool) -> bool {
    match spec_extension(s) {
        Some(e) => lc_eq(e, "jpg"@) || lc_eq(e, "jpeg"@) || lc_eq(e, "png"@) || lc_eq(e, "bmp"@)
            || (webp_ok && lc_eq(e, "webp"@)),
        None => false,
    }
}

/// Decides `spec_supported` for one path.
pub fn is_supported_image(path: &str, webp_ok: bool) -> (r: bool)
    ensures
        r == spec_supported(path@, webp_ok),
{
    proof {
        reveal_strlit("jpg");
        reveal_strlit("jpeg");
        reveal_strlit("png");
        reveal_strlit("bmp");
        reveal_strlit("webp");
    }
    let n = path.unicode_len();
    // Index after the last path separator.
    let mut b: usize = n;
    assert(path@.subrange(0, n as int) =~= path@);
    while b > 0 && path.get_char(b - 1) != '/'
        invariant
            n == path@.len(),
            b <= n,
            basename_start(path@) == basename_start(path@.subrange(0, b as int)),
        decreases b,
    {
        assert(path@.subrange(0, b as int).drop_last() =~= path@.subrange(0, b - 1));
        b = b - 1;
    }
    proof {
        if b > 0 {
            assert(path@.subrange(0, b as int).last() == path@[b - 1]);
        } else {
            assert(path@.subrange(0, 0) =~= Seq::<char>::empty());
        }
        assert(basename_start(path@) == b);
    }
    // Index after the last dot.
    let mut d: usize = n;
    assert(path@.subrange(0, n as int) =~= path@);
    while d > 0 && path.get_char(d - 1) != '.'
        invariant
            n == path@.len(),
            d <= n,
            after_last_dot(path@) == after_last_dot(path@.subrange(0, d as int)),
        decreases d,
    {
        assert(path@.subrange(0, d as int).drop_last() =~= path@.subrange(0, d - 1));
        d = d - 1;
    }
    proof {
        if d > 0 {
            assert(path@.subrange(0, d as int).last() == path@[d - 1]);
        } else {
            assert(path@.subrange(0, 0) =~= Seq::<char>::empty());
        }
        assert(after_last_dot(path@) == d);
    }
    if d < 1 || d - 1 <= b {
        return false;
    }
    let ghost e = path@.subrange(d as int, n as int);
    assert(forall|i: int| 0 <= i < e.len() ==> e[i] == path@[d + i]);
    let len = n - d;
    if len == 3 {
        let c0 = path.get_char(d);
        let c1 = path.get_char(d + 1);
        let c2 = path.get_char(d + 2);
        let jpg = (c0 == 'j' || c0 == 'J') && (c1 == 'p' || c1 == 'P') && (c2 == 'g' || c2 == 'G');
        let png = (c0 == 'p' || c0 == 'P') && (c1 == 'n' || c1 == 'N') && (c2 == 'g' || c2 == 'G');
        let bmp = (c0 == 'b' || c0 == 'B') && (c1 == 'm' || c1 == 'M') && (c2 == 'p' || c2 == 'P');
        proof {
            assert(e.len() == 3);
            assert(e[0] == c0 && e[1] == c1 && e[2] == c2);
            assert(jpg == lc_eq(e, "jpg"@));
            assert(png == lc_eq(e, "png"@));
            assert(bmp == lc_eq(e, "bmp"@));
            assert(!lc_eq(e, "jpeg"@) && !lc_eq(e, "webp"@));
        }
        jpg || png || bmp
    } else if len == 4 {
        let c0 = path.get_char(d);
        let c1 = path.get_char(d + 1);
        let c2 = path.get_char(d + 2);
        let c3 = path.get_char(d + 3);
        let jpeg = (c0 == 'j' || c0 == 'J') && (c1 == 'p' || c1 == 'P') && (c2 == 'e' || c2 == 'E')
            && (c3 == 'g' || c3 == 'G');
        let webp = (c0 == 'w' || c0 == 'W') && (c1 == 'e' || c1 == 'E') && (c2 == 'b' || c2 == 'B')
            && (c3 == 'p' || c3 == 'P');
        proof {
            assert(e.len() == 4);
            assert(e[0] == c0 && e[1] == c1 && e[2] == c2 && e[3] == c3);
            assert(jpeg == lc_eq(e, "jpeg"@));
            assert(webp == lc_eq(e, "webp"@));
            assert(!lc_eq(e, "jpg"@) && !lc_eq(e, "png"@) && !lc_eq(e, "bmp"@));
        }
        jpeg || (webp_ok && webp)
    } else {
        proof {
            assert(!lc_eq(e, "jpg"@) && !lc_eq(e, "png"@) && !lc_eq(e, "bmp"@));
            assert(!lc_eq(e, "jpeg"@) && !lc_eq(e, "webp"@));
        }
        false
    }
}

/// The supported paths among `files`, in their original order.
pub open spec fn supported_of(files: Seq<Seq<char>>, webp_ok: bool) -> Seq<Seq<char>>
    decreases files.len(),
{
    if files.len() == 0 {
        Seq::empty()
    } else {
        let rest = supported_of(files.drop_last(), webp_ok);
        if spec_supported(files.last(), webp_ok) {
            rest.push(files.last())
        } else {
            rest
        }
    }
}

/// Keeps the paths that name supported images, preserving order.
fn filter_supported(entries: &Vec<String>, webp_ok: bool) -> (files: Vec<String>)
    ensures
        files.deep_view() == supported_of(entries.deep_view(), webp_ok),
{
    let mut files: Vec<String> = Vec::new();
    let mut i: usize = 0;
    while i < entries.len()
        invariant
            i <= entries@.len(),
            files.deep_view() =~= supported_of(entries.deep_view().subrange(0, i as int), webp_ok),
        decreases entries@.len() - i,
    {
        proof {
            assert(entries.deep_view().subrange(0, i + 1).drop_last() =~= entries.deep_view()
                .subrange(0, i as int));
            assert(entries.deep_view().subrange(0, i + 1).last() == entries@[i as int]@);
        }
        if is_supported_image(entries[i].as_str(), webp_ok) {
            files.push(entries[i].clone());
        }
        assert(files.deep_view() =~= supported_of(
            entries.deep_view().subrange(0, i + 1),
            webp_ok,
        ));
        i = i + 1;
    }
    proof {
        assert(entries.deep_view().subrange(0, entries@.len() as int) =~= entries.deep_view());
    }
    files
}

/// Relies on `rand::rng` and `rand::RngExt::random_range`: some index
/// below `n`, sampled from the thread-local generator. Nothing more is
/// assumed of which index comes back.
#[verifier::external_body]
fn random_below(n: usize) -> (i: usize)
    requires
        n > 0,
    ensures
        i < n,
{
    let mut generator = rand::rng();
    rand::RngExt::random_range(&mut generator, 0..n)
}

/// The set of image paths eligible for rotation, all stored as the
/// surrounding binary resolved them (absolute), and never empty.
pub struct WallpaperCache {
    files: Vec<String>,
}

impl WallpaperCache {
    /// The cached image paths, in discovery order.
    pub closed spec fn spec_files(self) -> Seq<Seq<char>> {
        self.files.deep_view()
    }

    /// Builds the cache from the paths found under the wallpaper
    /// directory, keeping those with a supported image extension (webp
    /// included); a scan yielding no supported image is an error.
    pub fn new(entries: Vec<String>) -> (r: Result<WallpaperCache, WallpaperError>)
        ensures
            r is Ok <==> supported_of(entries.deep_view(), true).len() > 0,
            r is Ok ==> r->Ok_0.spec_files() == supported_of(entries.deep_view(), true),
            r is Err ==> r->Err_0 == WallpaperError::NoImages,
    {
        let files = filter_supported(&entries, true);
        if files.len() == 0 {
            Err(WallpaperError::NoImages)
        } else {
            Ok(WallpaperCache { files })
        }
    }

    /// How many images the cache holds.
    pub fn len(&self) -> (n: usize)
        ensures
            n == self.spec_files().len(),
    {
        self.files.len()
    }

    /// Picks one cached image path at random. The cache is never empty,
    /// so this always yields one of its paths.
    pub fn pick_random(&self) -> (p: String)
        requires
            self.spec_files().len() > 0,
        ensures
            self.spec_files().contains(p@),
    {
        let i = random_below(self.files.len());
        let p = self.files[i].clone();
        assert(self.spec_files()[i as int] == p@);
        p
    }
}

/// Filters `entries` by the narrower extension list (webp excluded) and
/// picks one of the remaining images at random; an empty remainder is an
/// error.
pub fn pick_random_wallpaper(entries: &Vec<String>) -> (r: Result<String, WallpaperError>)
    ensures
        r is Ok <==> supported_of(entries.deep_view(), false).len() > 0,
        r is Ok ==> supported_of(entries.deep_view(), false).contains(r->Ok_0@),
        r is Err ==> r->Err_0 == WallpaperError::NoImages,
{
    let files = filter_supported(entries, false);
    if files.len() == 0 {
        Err(WallpaperError::NoImages)
    } else {
        let i = random_below(files.len());
        let p = files[i].clone();
        assert(files.deep_view()[i as int] == p@);
        Ok(p)
    }
}

} // verus!
