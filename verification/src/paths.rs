//! File-system path text: joining and the file-name rules that `std::path` applies.
use vstd::prelude::*;

verus! {

/// A single ordinary path component: not empty, not `.` or `..`, and free of separators
/// and drive colons on every platform.
pub open spec fn plain_component(s: Seq<char>) -> bool {
    &&& s.len() > 0
    &&& s != seq!['.']
    &&& s != seq!['.', '.']
    &&& forall|i: int| 0 <= i < s.len() ==> #[trigger] s[i] != '/' && s[i] != '\\' && s[i] != ':'
}

/// A Windows verbatim path (`\\?\...`), which `PathBuf::push` normalizes when it joins.
pub open spec fn is_verbatim(path: Seq<char>) -> bool {
    path.len() >= 4 && path.take(4) == seq!['\\', '\\', '?', '\\']
}

/// Whether a path ends in a separator (`/` or `\\`) or in `:`, after which `PathBuf::push`
/// may add no separator (a bare Windows drive such as `C:`).
pub open spec fn ends_open(path: Seq<char>) -> bool {
    path.len() > 0 && (path.last() == '/' || path.last() == '\\' || path.last() == ':')
}

/// Whether `r` is `relative` joined onto `base` as on every platform: `base` itself followed
/// by `relative`, with exactly one separator (`/` or `\\`) between them when `base` is not
/// empty and does not already end in a separator or `:`.
pub open spec fn joined(r: Seq<char>, base: Seq<char>, relative: Seq<char>) -> bool {
    plain_component(relative) && !is_verbatim(base) ==> if base.len() > 0 && !ends_open(base) {
        ||| r == base.push('/') + relative
        ||| r == base.push('\\') + relative
    } else {
        ||| r == base + relative
        ||| r == base.push('/') + relative
        ||| r == base.push('\\') + relative
    }
}

/// `Path::join` of two UTF-8 paths (`Path::new(base).join(relative)`), as text.
///
/// A relative path extends the base (the `PathBuf::push` documentation), with a separator
/// when the base is not empty and does not end in one. The separator (`/` or `\\`) depends on
/// the platform; so does whether a base ending in `\\` or `:` gets one (Windows adds none
/// after a drive like `C:`). What a Windows verbatim base gives (`.` and `..` removed from it)
/// is left unsaid.
#[verifier::external_body]
pub(crate) fn join_path(base: &str, relative: &str) -> (r: String)
    ensures
        joined(r@, base@, relative@),
{
    std::path::Path::new(base).join(relative).to_string_lossy().into_owned()
}

/// The stem and extension that `Path::file_stem` and `Path::extension` give for a file name
/// (a path's last component).
pub open spec fn last_dot(name: Seq<char>) -> Option<int> {
    if exists|i: int| 0 <= i < name.len() && name[i] == '.' {
        Some(choose|i: int| 0 <= i < name.len() && name[i] == '.' && forall|j: int|
            i < j < name.len() ==> name[j] != '.')
    } else {
        None
    }
}

/// `Path::file_stem` of a file name.
pub open spec fn file_stem_spec(name: Seq<char>) -> Seq<char> {
    if name == seq!['.', '.'] {
        name
    } else {
        match last_dot(name) {
            Some(i) => if i == 0 {
                name
            } else {
                name.take(i)
            },
            None => name,
        }
    }
}

/// `Path::extension` of a file name.
pub open spec fn extension_spec(name: Seq<char>) -> Option<Seq<char>> {
    if name == seq!['.', '.'] {
        None
    } else {
        match last_dot(name) {
            Some(i) => if i == 0 {
                None
            } else {
                Some(name.skip(i + 1))
            },
            None => None,
        }
    }
}

/// The name of the temporary file that a conversion writes before it is renamed to
/// `name`: `<stem>.partial.<extension>`, with `tmp` for a name without extension.
pub open spec fn partial_file_name_spec(name: Seq<char>) -> Seq<char> {
    file_stem_spec(name) + ".partial."@ + match extension_spec(name) {
        Some(e) => e,
        None => "tmp"@,
    }
}

/// Finds the position of the last `.` in a file name.
fn find_last_dot(name: &[char]) -> (r: Option<usize>)
    ensures
        r is Some <==> last_dot(name@) is Some,
        r matches Some(i) ==> last_dot(name@) == Some(i as int) && i < name@.len(),
{
    let mut k: usize = name.len();
    while k > 0
        invariant
            k <= name@.len(),
            forall|j: int| k <= j < name@.len() ==> name@[j] != '.',
        decreases k,
    {
        if name[k - 1] == '.' {
            let i = k - 1;
            assert(exists|i: int| 0 <= i < name@.len() && name@[i] == '.');
            let ghost c = choose|i: int| 0 <= i < name@.len() && name@[i] == '.' && forall|j: int|
                i < j < name@.len() ==> name@[j] != '.';
            assert(0 <= i && name@[i as int] == '.' && forall|j: int|
                i < j < name@.len() ==> name@[j] != '.');
            assert(c == i as int) by {
                if c < i {
                    assert(name@[i as int] != '.');
                }
                if c > i {
                    assert(name@[c] != '.');
                }
            }
            return Some(i);
        }
        k -= 1;
    }
    assert(!exists|i: int| 0 <= i < name@.len() && name@[i] == '.');
    None
}

/// `Path::file_stem` of a file name (see [`file_stem_spec`]).
pub fn file_stem(name: &str) -> (r: String)
    ensures
        r@ == file_stem_spec(name@),
{
    let chars = crate::text::chars_of(name);
    let dots = chars.len() == 2 && chars[0] == '.' && chars[1] == '.';
    assert(dots == (chars@ == seq!['.', '.'])) by {
        if chars@ == seq!['.', '.'] {
            assert(chars@[0] == '.' && chars@[1] == '.');
        }
        if dots {
            assert(chars@ =~= seq!['.', '.']);
        }
    }
    match find_last_dot(chars.as_slice()) {
        Some(i) if !dots && i > 0 => {
            let mut out: Vec<char> = Vec::new();
            let mut k: usize = 0;
            while k < i
                invariant
                    i < chars@.len(),
                    k <= i,
                    out@ == chars@.take(k as int),
                decreases i - k,
            {
                out.push(chars[k]);
                assert(chars@.take(k + 1) == chars@.take(k as int).push(chars@[k as int]));
                k += 1;
            }
            crate::text::string_of(out.as_slice())
        },
        _ => name.to_owned(),
    }
}

/// The temporary file name used while writing `name` (see [`partial_file_name_spec`]).
pub fn partial_file_name(name: &str) -> (r: String)
    ensures
        r@ == partial_file_name_spec(name@),
{
    let chars = crate::text::chars_of(name);
    let dots = chars.len() == 2 && chars[0] == '.' && chars[1] == '.';
    assert(dots == (chars@ == seq!['.', '.'])) by {
        if chars@ == seq!['.', '.'] {
            assert(chars@[0] == '.' && chars@[1] == '.');
        }
        if dots {
            assert(chars@ =~= seq!['.', '.']);
        }
    }
    let position = find_last_dot(chars.as_slice());
    let mut out: Vec<char> = Vec::new();
    let mut extension: Vec<char> = Vec::new();
    let mut has_extension = false;
    match position {
        Some(i) if !dots && i > 0 => {
            let mut k: usize = 0;
            while k < i
                invariant
                    i < chars@.len(),
                    k <= i,
                    out@ == chars@.take(k as int),
                decreases i - k,
            {
                out.push(chars[k]);
                assert(chars@.take(k + 1) == chars@.take(k as int).push(chars@[k as int]));
                k += 1;
            }
            let mut m: usize = i + 1;
            while m < chars.len()
                invariant
                    i < chars@.len(),
                    i + 1 <= m <= chars@.len(),
                    extension@ == chars@.subrange(i + 1, m as int),
                decreases chars@.len() - m,
            {
                extension.push(chars[m]);
                assert(chars@.subrange(i + 1, m + 1) == chars@.subrange(i + 1, m as int).push(
                    chars@[m as int],
                ));
                m += 1;
            }
            assert(chars@.skip(i + 1) == chars@.subrange(i + 1, chars@.len() as int));
            has_extension = true;
        },
        _ => {
            crate::text::extend_chars(&mut out, chars.as_slice());
        },
    }
    crate::text::extend_str(&mut out, ".partial.");
    if has_extension {
        crate::text::extend_chars(&mut out, extension.as_slice());
    } else {
        crate::text::extend_str(&mut out, "tmp");
    }
    crate::text::string_of(out.as_slice())
}

} // verus!
