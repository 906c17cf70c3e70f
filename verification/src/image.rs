//! The image-extension check that guards picture uploads: a path is an
//! image when the extension of its file name, compared without regard to
//! ASCII case, is one of jpg, jpeg, png, gif or bmp.
//!
//! The path model is deliberately plain: the file name is everything after
//! the last `/`, so a path that ends in a separator has an empty file name
//! and is rejected. Dropped or picked paths always name a file, so none of
//! them ends in a separator.

use vstd::prelude::*;

verus! {

/// The index in `p` where the file name begins: just after the last `/`,
/// or 0 when the path holds no separator.
pub open spec fn spec_name_start(p: Seq<char>) -> int
    decreases p.len(),
{
    if p.len() == 0 {
        0
    } else if p.last() == '/' {
        p.len() as int
    } else {
        spec_name_start(p.drop_last())
    }
}

/// The index of the last `.` in `s`, or -1 when there is none.
pub open spec fn spec_last_dot(s: Seq<char>) -> int
    decreases s.len(),
{
    if s.len() == 0 {
        -1
    } else if s.last() == '.' {
        s.len() - 1
    } else {
        spec_last_dot(s.drop_last())
    }
}

/// The file name of a path: everything after the last separator.
pub open spec fn spec_file_name(p: Seq<char>) -> Seq<char> {
    p.subrange(spec_name_start(p), p.len() as int)
}

/// The extension of a file name: what follows the last dot, provided that
/// dot is neither absent nor the leading character of the name.
pub open spec fn spec_extension(name: Seq<char>) -> Option<Seq<char>> {
    let d = spec_last_dot(name);
    if d <= 0 {
        None
    } else {
        Some(name.subrange(d + 1, name.len() as int))
    }
}

/// `c` equals `l` up to ASCII case, over the letters the image extensions
/// use; `l` is one of those lowercase letters.
pub open spec fn lower_eq(c: char, l: char) -> bool {
    ||| c == l
    ||| (l == 'j' && c == 'J')
    ||| (l == 'p' && c == 'P')
    ||| (l == 'g' && c == 'G')
    ||| (l == 'e' && c == 'E')
    ||| (l == 'n' && c == 'N')
    ||| (l == 'i' && c == 'I')
    ||| (l == 'f' && c == 'F')
    ||| (l == 'b' && c == 'B')
    ||| (l == 'm' && c == 'M')
}

/// The fixed allow-list of image extensions, spelled out character by
/// character so that case does not matter: jpg, jpeg, png, gif, bmp.
pub open spec fn spec_is_image_ext(e: Seq<char>) -> bool {
    ||| (e.len() == 3 && lower_eq(e[0], 'j') && lower_eq(e[1], 'p') && lower_eq(e[2], 'g'))
    ||| (e.len() == 4 && lower_eq(e[0], 'j') && lower_eq(e[1], 'p') && lower_eq(e[2], 'e')
        && lower_eq(e[3], 'g'))
    ||| (e.len() == 3 && lower_eq(e[0], 'p') && lower_eq(e[1], 'n') && lower_eq(e[2], 'g'))
    ||| (e.len() == 3 && lower_eq(e[0], 'g') && lower_eq(e[1], 'i') && lower_eq(e[2], 'f'))
    ||| (e.len() == 3 && lower_eq(e[0], 'b') && lower_eq(e[1], 'm') && lower_eq(e[2], 'p'))
}

/// A path names an image when its file name has an extension on the
/// allow-list.
pub open spec fn spec_is_image(p: Seq<char>) -> bool {
    spec_extension(spec_file_name(p)) matches Some(e) && spec_is_image_ext(e)
}

proof fn lemma_name_start_unique(p: Seq<char>, i: int)
    requires
        0 <= i <= p.len(),
        forall|k: int| i <= k < p.len() ==> p[k] != '/',
        i > 0 ==> p[i - 1] == '/',
    ensures
        i == spec_name_start(p),
    decreases p.len(),
{
    if p.len() == 0 {
    } else if p.last() == '/' {
        assert(i == p.len()) by {
            if i < p.len() {
                assert(p[p.len() - 1] != '/');
            }
        }
    } else {
        assert(i < p.len()) by {
            if i == p.len() {
                assert(p[i - 1] == '/');
            }
        }
        assert(forall|k: int| i <= k < p.drop_last().len() ==> p.drop_last()[k] != '/');
        assert(i > 0 ==> p.drop_last()[i - 1] == '/');
        lemma_name_start_unique(p.drop_last(), i);
    }
}

proof fn lemma_last_dot_unique(s: Seq<char>, d: int)
    requires
        -1 <= d < s.len(),
        forall|k: int| d < k < s.len() ==> s[k] != '.',
        d >= 0 ==> s[d] == '.',
    ensures
        d == spec_last_dot(s),
    decreases s.len(),
{
    if s.len() == 0 {
    } else if s.last() == '.' {
        assert(d == s.len() - 1) by {
            if d < s.len() - 1 {
                assert(s[s.len() - 1] != '.');
            }
        }
    } else {
        assert(d < s.len() - 1) by {
            if d == s.len() - 1 {
                assert(s[d] == '.');
            }
        }
        assert(forall|k: int| d < k < s.drop_last().len() ==> s.drop_last()[k] != '.');
        assert(d >= 0 ==> s.drop_last()[d] == '.');
        lemma_last_dot_unique(s.drop_last(), d);
    }
}

/// Decides whether a dropped or selected path names an image file.
pub fn is_image(path: &str) -> (r: bool)
    ensures
        r == spec_is_image(path@),
{
    let n = path.unicode_len();
    let ghost p = path@;

    // Find where the file name begins: just after the last '/'.
    let mut ns: usize = n;
    loop
        invariant
            ns <= n == p.len(),
            p == path@,
            forall|k: int| ns <= k < p.len() ==> p[k] != '/',
        ensures
            ns <= n,
            forall|k: int| ns <= k < p.len() ==> p[k] != '/',
            ns == 0 || p[ns - 1] == '/',
        decreases ns,
    {
        if ns == 0 {
            break;
        }
        let c = path.get_char(ns - 1);
        if c == '/' {
            break;
        }
        ns = ns - 1;
    }
    proof {
        lemma_name_start_unique(p, ns as int);
    }
    let ghost nm = spec_file_name(p);

    // Find the last '.' inside the file name.
    let mut j: usize = n;
    loop
        invariant
            ns <= j <= n == p.len(),
            p == path@,
            forall|k: int| j <= k < p.len() ==> p[k] != '.',
        ensures
            ns <= j <= n,
            forall|k: int| j <= k < p.len() ==> p[k] != '.',
            j == ns || p[j - 1] == '.',
        decreases j,
    {
        if j == ns {
            break;
        }
        let c = path.get_char(j - 1);
        if c == '.' {
            break;
        }
        j = j - 1;
    }
    proof {
        assert(forall|k: int| j - ns <= k < nm.len() ==> nm[k] != '.');
        if j > ns {
            assert(nm[j - ns - 1] == '.');
            lemma_last_dot_unique(nm, j - ns - 1);
        } else {
            lemma_last_dot_unique(nm, -1);
        }
    }

    if j - ns <= 1 {
        // No dot in the file name, or the name starts with its only dot:
        // no extension.
        proof {
            assert(spec_last_dot(nm) <= 0);
        }
        return false;
    }
    let ghost ext = spec_extension(nm)->0;
    proof {
        assert(ext =~= p.subrange(j as int, n as int));
    }

    let el = n - j;
    if el == 3 {
        let c0 = path.get_char(j);
        let c1 = path.get_char(j + 1);
        let c2 = path.get_char(j + 2);
        proof {
            assert(ext[0] == c0 && ext[1] == c1 && ext[2] == c2);
        }
        let jpg = (c0 == 'j' || c0 == 'J') && (c1 == 'p' || c1 == 'P') && (c2 == 'g' || c2 == 'G');
        let png = (c0 == 'p' || c0 == 'P') && (c1 == 'n' || c1 == 'N') && (c2 == 'g' || c2 == 'G');
        let gif = (c0 == 'g' || c0 == 'G') && (c1 == 'i' || c1 == 'I') && (c2 == 'f' || c2 == 'F');
        let bmp = (c0 == 'b' || c0 == 'B') && (c1 == 'm' || c1 == 'M') && (c2 == 'p' || c2 == 'P');
        jpg || png || gif || bmp
    } else if el == 4 {
        let c0 = path.get_char(j);
        let c1 = path.get_char(j + 1);
        let c2 = path.get_char(j + 2);
        let c3 = path.get_char(j + 3);
        proof {
            assert(ext[0] == c0 && ext[1] == c1 && ext[2] == c2 && ext[3] == c3);
        }
        (c0 == 'j' || c0 == 'J') && (c1 == 'p' || c1 == 'P') && (c2 == 'e' || c2 == 'E') && (c3
            == 'g' || c3 == 'G')
    } else {
        false
    }
}

} // verus!
