//! The asset path that a terrain configuration records for the directory it lies in.
use vstd::prelude::*;
use crate::text::concat_chars;

verus! {

/// `s` with every backslash turned into a forward slash.
pub open spec fn forward_slashes(s: Seq<char>) -> Seq<char> {
    s.map_values(|c: char| if c == '\\' { '/' } else { c })
}

/// The directory name under which assets are looked up, with its slash.
pub open spec fn assets_marker() -> Seq<char> {
    seq!['a', 's', 's', 'e', 't', 's', '/']
}

/// Whether `assets/` starts at position `i` of `t`.
pub open spec fn marker_at(t: Seq<char>, i: int) -> bool {
    0 <= i && i + 7 <= t.len() && t.subrange(i, i + 7) == assets_marker()
}

/// Whether `assets/` starts at `i` of `t` and at no later position.
pub open spec fn last_marker_at(t: Seq<char>, i: int) -> bool {
    marker_at(t, i) && forall|j: int| #[trigger] marker_at(t, j) ==> j <= i
}

/// The path with forward slashes, from the last `assets/` on where it holds one; the
/// whole path otherwise.
pub open spec fn asset_relative_path(path: Seq<char>) -> Seq<char> {
    let t = forward_slashes(path);
    if exists|i: int| last_marker_at(t, i) {
        t.skip(choose|i: int| last_marker_at(t, i))
    } else {
        t
    }
}

/// Whether `assets/` starts at position `i` of `t`.
fn marker_at_index(t: &Vec<char>, i: usize) -> (r: bool)
    requires
        i + 7 <= t@.len(),
    ensures
        r == marker_at(t@, i as int),
{
    let len = t.len();
    assert(i + 7 <= len);
    let r = t[i] == 'a' && t[i + 1] == 's' && t[i + 2] == 's' && t[i + 3] == 'e' && t[i + 4] == 't'
        && t[i + 5] == 's' && t[i + 6] == '/';
    proof {
        let s = t@.subrange(i as int, i + 7);
        if r {
            assert(s =~= assets_marker());
        } else if s == assets_marker() {
            assert(s[0] == t@[i as int] && s[1] == t@[i + 1] && s[2] == t@[i + 2]);
            assert(s[3] == t@[i + 3] && s[4] == t@[i + 4] && s[5] == t@[i + 5] && s[6] == t@[i + 6]);
        }
    }
    r
}

/// The path that a terrain configuration records for the terrain directory `path`: its
/// backslashes become forward slashes, and where it holds `assets/` the path is cut to
/// begin at the last of them.
pub fn asset_path(path: &str) -> (r: String)
    ensures
        r@ == asset_relative_path(path@),
{
    let n = path.unicode_len();
    let mut t: Vec<char> = Vec::new();
    let mut i: usize = 0;
    while i < n
        invariant
            n == path@.len(),
            i <= n,
            t@ == forward_slashes(path@).take(i as int),
        decreases n - i,
    {
        let c = path.get_char(i);
        t.push(if c == '\\' { '/' } else { c });
        assert(forward_slashes(path@).take(i as int).push(if c == '\\' { '/' } else { c })
            =~= forward_slashes(path@).take(i + 1));
        i = i + 1;
    }
    assert(t@ =~= forward_slashes(path@));
    let ghost full = t@;
    let mut last: Option<usize> = None;
    let mut k: usize = 0;
    while n >= 7 && k <= n - 7
        invariant
            t@ == full,
            full.len() == n,
            k <= n,
            last matches Some(m) ==> m < k && marker_at(full, m as int),
            last matches Some(m) ==> forall|j: int| m < j < k ==> !#[trigger] marker_at(full, j),
            last is None ==> forall|j: int| 0 <= j < k ==> !#[trigger] marker_at(full, j),
        decreases n - k,
    {
        if marker_at_index(&t, k) {
            last = Some(k);
        }
        k = k + 1;
    }
    let start: usize = match last {
        Some(m) => m,
        None => 0,
    };
    proof {
        assert forall|j: int| k <= j implies !#[trigger] marker_at(full, j) by {}
        match last {
            Some(m) => {
                assert(last_marker_at(full, m as int));
                let c = choose|i: int| last_marker_at(full, i);
                assert(c == m);
            },
            None => {
                assert(!exists|i: int| last_marker_at(full, i));
            },
        }
    }
    let mut rest: Vec<char> = Vec::new();
    let mut p: usize = start;
    while p < n
        invariant
            t@ == full,
            full.len() == n,
            start <= p <= n,
            rest@ == full.subrange(start as int, p as int),
        decreases n - p,
    {
        rest.push(t[p]);
        assert(full.subrange(start as int, p as int).push(full[p as int])
            =~= full.subrange(start as int, p + 1));
        p = p + 1;
    }
    assert(rest@ =~= full.skip(start as int));
    let r = concat_chars("", &rest);
    proof {
        reveal_strlit("");
        assert(r@ =~= rest@);
    }
    r
}

} // verus!
