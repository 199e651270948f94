use vstd::prelude::*;

use crate::error::BotError;

verus! {

/// Index of the last occurrence of `c` in `s`, or -1 when there is none.
pub open spec fn last_index_of(s: Seq<char>, c: char) -> int
    decreases s.len(),
{
    if s.len() == 0 {
        -1
    } else if s.last() == c {
        s.len() - 1
    } else {
        last_index_of(s.drop_last(), c)
    }
}

/// Whether a path component is the current-directory mark `.`.
pub open spec fn is_current_dir(seg: Seq<char>) -> bool {
    seg == seq!['.']
}

/// Whether a path component is the parent-directory mark `..`.
pub open spec fn is_parent_dir(seg: Seq<char>) -> bool {
    seg == seq!['.', '.']
}

/// The file name of a `/`-separated path: its last component once empty
/// components (from repeated or trailing separators) and `.` components
/// are set aside; none when no component is left or the last one is `..`.
pub open spec fn file_name_of(path: Seq<char>) -> Option<Seq<char>>
    decreases path.len(),
{
    if path.len() == 0 {
        None
    } else {
        let k = last_index_of(path, '/');
        let seg = path.subrange(k + 1, path.len() as int);
        if seg.len() == 0 || is_current_dir(seg) {
            if 0 <= k < path.len() {
                file_name_of(path.subrange(0, k))
            } else {
                None
            }
        } else if is_parent_dir(seg) {
            None
        } else {
            Some(seg)
        }
    }
}

/// The extension of a file name: what follows its last dot, unless there is
/// no dot or the only dot opens the name.
pub open spec fn extension_of(name: Seq<char>) -> Option<Seq<char>> {
    let k = last_index_of(name, '.');
    if k <= 0 {
        None
    } else {
        Some(name.subrange(k + 1, name.len() as int))
    }
}

/// The code of `c` with an ASCII capital turned into its small letter.
pub open spec fn ascii_lower(c: char) -> u32 {
    if 'A' <= c && c <= 'Z' {
        (c as u32 + 32) as u32
    } else {
        c as u32
    }
}

/// Whether `s` equals the lower-case word `w` when ASCII case is ignored.
pub open spec fn equals_ignoring_case(s: Seq<char>, w: Seq<char>) -> bool {
    &&& s.len() == w.len()
    &&& forall|i: int| 0 <= i < s.len() ==> #[trigger] ascii_lower(s[i]) == w[i] as u32
}

/// The image extensions that the icon pools hold.
pub open spec fn is_image_extension(ext: Seq<char>) -> bool {
    ||| equals_ignoring_case(ext, "png"@)
    ||| equals_ignoring_case(ext, "jpg"@)
    ||| equals_ignoring_case(ext, "jpeg"@)
    ||| equals_ignoring_case(ext, "gif"@)
    ||| equals_ignoring_case(ext, "webp"@)
}

/// Whether the file at `path` is an icon candidate, by its extension alone.
pub open spec fn is_supported_path(path: Seq<char>) -> bool {
    match file_name_of(path) {
        Some(name) => {
            let ext = extension_of(name);
            ext is Some && is_image_extension(ext->Some_0)
        },
        None => false,
    }
}

/// `dir` and `name` joined by one separator; an empty `dir` leaves `name`.
pub open spec fn join_spec(dir: Seq<char>, name: Seq<char>) -> Seq<char> {
    if dir.len() == 0 {
        name
    } else if dir.last() == '/' {
        dir + name
    } else {
        dir + seq!['/'] + name
    }
}

/// Finds the last occurrence of `c` in `s`.
pub fn last_index(s: &str, c: char) -> (r: Option<usize>)
    ensures
        r is None ==> last_index_of(s@, c) == -1,
        r is Some ==> last_index_of(s@, c) == r->Some_0 as int && r->Some_0 < s@.len(),
{
    let n = s.unicode_len();
    let mut i: usize = n;
    assert(s@.subrange(0, n as int) =~= s@);
    while i > 0
        invariant
            i <= n,
            n == s@.len(),
            last_index_of(s@, c) == last_index_of(s@.subrange(0, i as int), c),
        decreases i,
    {
        assert(s@.subrange(0, i as int).drop_last() =~= s@.subrange(0, i - 1));
        if s.get_char(i - 1) == c {
            return Some(i - 1);
        }
        i = i - 1;
    }
    None
}

/// Whether `s` equals the lower-case word `w`, ignoring ASCII case.
pub fn matches_ignoring_case(s: &str, w: &str) -> (r: bool)
    ensures
        r == equals_ignoring_case(s@, w@),
{
    let n = s.unicode_len();
    if n != w.unicode_len() {
        return false;
    }
    let mut i: usize = 0;
    while i < n
        invariant
            n == s@.len(),
            n == w@.len(),
            i <= n,
            forall|j: int| 0 <= j < i ==> #[trigger] ascii_lower(s@[j]) == w@[j] as u32,
        decreases n - i,
    {
        let a = s.get_char(i);
        let b = w.get_char(i);
        let lowered: u32 = if 'A' <= a && a <= 'Z' { a as u32 + 32 } else { a as u32 };
        if lowered != b as u32 {
            assert(ascii_lower(s@[i as int]) != w@[i as int] as u32);
            return false;
        }
        i = i + 1;
    }
    true
}

/// Whether `seg` is `.` (when `dots` is 1) or `..` (when `dots` is 2).
fn is_dots(seg: &str, dots: usize) -> (r: bool)
    requires
        1 <= dots <= 2,
    ensures
        dots == 1 ==> r == is_current_dir(seg@),
        dots == 2 ==> r == is_parent_dir(seg@),
{
    if seg.unicode_len() != dots {
        return false;
    }
    let first = seg.get_char(0) == '.';
    if dots == 1 {
        proof {
            if first {
                assert(seg@ =~= seq!['.']);
            }
        }
        first
    } else {
        let both = first && seg.get_char(1) == '.';
        proof {
            if both {
                assert(seg@ =~= seq!['.', '.']);
            }
        }
        both
    }
}

/// The file name of `path`, if it has one.
pub fn file_name(path: &str) -> (r: Option<&str>)
    ensures
        r is None ==> file_name_of(path@) is None,
        r is Some ==> file_name_of(path@) == Some(r->Some_0@),
{
    let mut end: usize = path.unicode_len();
    assert(path@.subrange(0, end as int) =~= path@);
    loop
        invariant
            end <= path@.len(),
            file_name_of(path@) == file_name_of(path@.subrange(0, end as int)),
        decreases end,
    {
        if end == 0 {
            return None;
        }
        let prefix = path.substring_char(0, end);
        let (start, k) = match last_index(prefix, '/') {
            Some(k) => (k + 1, Some(k)),
            None => (0, None),
        };
        let seg = prefix.substring_char(start, end);
        assert(seg@ == prefix@.subrange(last_index_of(prefix@, '/') + 1, prefix@.len() as int));
        if seg.unicode_len() == 0 || is_dots(seg, 1) {
            match k {
                Some(k) => {
                    assert(path@.subrange(0, k as int) =~= prefix@.subrange(0, k as int));
                    end = k;
                },
                None => {
                    return None;
                },
            }
        } else if is_dots(seg, 2) {
            return None;
        } else {
            return Some(seg);
        }
    }
}

/// Whether `path` names a supported image: its extension, compared without
/// regard to ASCII case, is png, jpg, jpeg, gif or webp.
pub fn is_supported_icon(path: &str) -> (r: bool)
    ensures
        r == is_supported_path(path@),
{
    let name = match file_name(path) {
        Some(name) => name,
        None => {
            return false;
        },
    };
    let n = name.unicode_len();
    let k = match last_index(name, '.') {
        Some(k) => k,
        None => {
            return false;
        },
    };
    if k == 0 {
        return false;
    }
    let ext = name.substring_char(k + 1, n);
    assert(extension_of(name@) == Some(ext@));
    matches_ignoring_case(ext, "png") || matches_ignoring_case(ext, "jpg")
        || matches_ignoring_case(ext, "jpeg") || matches_ignoring_case(ext, "gif")
        || matches_ignoring_case(ext, "webp")
}

/// The file name of an icon path; a path without one (empty, only
/// separators and `.` components, or ending in `..`) is a configuration
/// error.
pub fn icon_filename(path: &str) -> (r: Result<String, BotError>)
    ensures
        file_name_of(path@) is None ==> r == Err::<String, BotError>(BotError::Configuration),
        file_name_of(path@) is Some ==> r is Ok && r->Ok_0@ == file_name_of(path@)->Some_0,
{
    match file_name(path) {
        Some(name) => Ok(name.to_owned()),
        None => Err(BotError::Configuration),
    }
}

/// `name` placed inside the directory `dir`.
pub fn join_path(dir: &str, name: &str) -> (r: String)
    ensures
        r@ == join_spec(dir@, name@),
{
    let n = dir.unicode_len();
    let mut r = dir.to_owned();
    if n > 0 && dir.get_char(n - 1) != '/' {
        r.append("/");
        proof {
            reveal_strlit("/");
        }
    }
    r.append(name);
    r
}

} // verus!
