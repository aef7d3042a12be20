use vstd::prelude::*;

verus! {

/// Container formats the pipeline understands, judged by file extension.
#[derive(Clone, Copy, Debug, PartialEq, Eq, Structural)]
pub enum FileFormat {
    Png,
    Jpeg,
    Unsupported,
}

/// ASCII-lowered code point of a character: upper-case ASCII letters are
/// shifted to their lower-case forms, every other character is untouched.
pub open spec fn lower_code(c: char) -> u32 {
    if 65 <= c as u32 && c as u32 <= 90 {
        (c as u32 + 32) as u32
    } else {
        c as u32
    }
}

/// Case-insensitive (ASCII) equality of two character sequences.
pub open spec fn eq_ignore_ascii_case(a: Seq<char>, b: Seq<char>) -> bool {
    a.len() == b.len() && forall|i: int| 0 <= i < a.len() ==> lower_code(a[i]) == lower_code(b[i])
}

/// The extension of a path: the characters after the last `.` of the final
/// path component. A `.` that begins the component (a hidden file) starts no
/// extension, and a component without a `.` has none.
pub open spec fn spec_extension(p: Seq<char>) -> Option<Seq<char>>
    decreases p.len(),
{
    if p.len() == 0 {
        None
    } else {
        let c = p[p.len() - 1];
        if c == '/' {
            None
        } else if c == '.' {
            if p.len() == 1 || p[p.len() - 2] == '/' {
                None
            } else {
                Some(Seq::empty())
            }
        } else {
            match spec_extension(p.drop_last()) {
                None => None,
                Some(e) => Some(e.push(c)),
            }
        }
    }
}

/// How a resolved extension of a prefix extends to the whole path, while the
/// suffix holds neither `.` nor `/`.
pub open spec fn spec_ext_join(e: Option<Seq<char>>, suffix: Seq<char>) -> Option<Seq<char>> {
    match e {
        None => None,
        Some(e0) => Some(e0 + suffix),
    }
}

/// Format selection is case-insensitive on the extension: `png` files take
/// the PNG pipeline, `jpg`/`jpeg` files the JPEG pipeline, and any other
/// extension (or none) is unsupported.
pub open spec fn spec_format_of(p: Seq<char>) -> FileFormat {
    match spec_extension(p) {
        None => FileFormat::Unsupported,
        Some(e) => if eq_ignore_ascii_case(e, "png"@) {
            FileFormat::Png
        } else if eq_ignore_ascii_case(e, "jpg"@) || eq_ignore_ascii_case(e, "jpeg"@) {
            FileFormat::Jpeg
        } else {
            FileFormat::Unsupported
        },
    }
}

fn char_lower(c: char) -> (r: u32)
    ensures
        r == lower_code(c),
{
    let u = c as u32;
    if 65 <= u && u <= 90 {
        u + 32
    } else {
        u
    }
}

/// Index where the extension of `path` begins, if the path has one.
fn extension_start(path: &str) -> (r: Option<usize>)
    ensures
        match r {
            Some(s) => s <= path@.len() && spec_extension(path@) == Some(
                path@.subrange(s as int, path@.len() as int),
            ),
            None => spec_extension(path@) is None,
        },
{
    let n = path.unicode_len();
    let mut i = n;
    proof {
        assert(path@.subrange(0, n as int) =~= path@);
        assert(match spec_extension(path@) {
            None => true,
            Some(e0) => e0 + path@.subrange(n as int, n as int) =~= e0,
        });
    }
    while i > 0
        invariant
            i <= n,
            n == path@.len(),
            spec_extension(path@) == spec_ext_join(
                spec_extension(path@.subrange(0, i as int)),
                path@.subrange(i as int, n as int),
            ),
        decreases i,
    {
        let ghost pre = path@.subrange(0, i as int);
        let c = path.get_char(i - 1);
        assert(pre[i - 1] == path@[i - 1]);
        if c == '/' {
            return None;
        } else if c == '.' {
            if i == 1 {
                return None;
            }
            if path.get_char(i - 2) == '/' {
                proof {
                    assert(pre[i - 2] == path@[i - 2]);
                }
                return None;
            }
            proof {
                assert(pre[i - 2] == path@[i - 2]);
                assert(Seq::<char>::empty() + path@.subrange(i as int, n as int) =~= path@
                    .subrange(i as int, n as int));
            }
            return Some(i);
        }
        proof {
            let prev = path@.subrange(0, i - 1);
            assert(pre.drop_last() =~= prev);
            match spec_extension(prev) {
                None => {},
                Some(e) => {
                    assert(e.push(c) + path@.subrange(i as int, n as int) =~= e + path@.subrange(
                        i - 1,
                        n as int,
                    ));
                },
            }
        }
        i = i - 1;
    }
    proof {
        assert(path@.subrange(0, 0) =~= Seq::<char>::empty());
    }
    None
}

/// Compares the characters of `path` from `start` on against `target`,
/// ignoring ASCII case.
fn suffix_eq_ignore_case(path: &str, start: usize, target: &str) -> (r: bool)
    requires
        start <= path@.len(),
    ensures
        r == eq_ignore_ascii_case(path@.subrange(start as int, path@.len() as int), target@),
{
    let n = path.unicode_len();
    let m = target.unicode_len();
    if n - start != m {
        return false;
    }
    let mut j: usize = 0;
    while j < m
        invariant
            j <= m,
            m == target@.len(),
            n == path@.len(),
            start + m == n,
            forall|k: int|
                0 <= k < j ==> lower_code(path@[start + k]) == lower_code(target@[k]),
        decreases m - j,
    {
        if char_lower(path.get_char(start + j)) != char_lower(target.get_char(j)) {
            proof {
                assert(path@.subrange(start as int, n as int)[j as int] == path@[start + j]);
            }
            return false;
        }
        j = j + 1;
    }
    proof {
        assert(forall|k: int|
            0 <= k < m ==> path@.subrange(start as int, n as int)[k] == path@[start + k]);
    }
    true
}

/// Which pipeline a path takes, decided by its extension alone.
pub fn format_of_path(path: &str) -> (r: FileFormat)
    ensures
        r == spec_format_of(path@),
{
    match extension_start(path) {
        None => FileFormat::Unsupported,
        Some(s) => {
            if suffix_eq_ignore_case(path, s, "png") {
                FileFormat::Png
            } else if suffix_eq_ignore_case(path, s, "jpg") {
                FileFormat::Jpeg
            } else if suffix_eq_ignore_case(path, s, "jpeg") {
                FileFormat::Jpeg
            } else {
                FileFormat::Unsupported
            }
        },
    }
}

/// Whether a candidate path names a file the pipeline can work on; the
/// directory scanner keeps exactly these paths.
pub fn is_supported_path(path: &str) -> (r: bool)
    ensures
        r == (spec_format_of(path@) != FileFormat::Unsupported),
{
    match format_of_path(path) {
        FileFormat::Unsupported => false,
        _ => true,
    }
}

} // verus!
