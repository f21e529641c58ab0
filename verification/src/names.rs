use vstd::prelude::*;
use vstd::string::*;

use crate::error::AttachmentError;

verus! {

/// The most characters that the name of a record may have.
pub const MAX_NAME_LEN: usize = 256;

/// The name given to an upload that brings no usable name of its own.
pub open spec fn default_name() -> Seq<char> {
    "attachment"@
}

/// `path` without the separators and `.` components that it ends in.
pub open spec fn trim_trailing(path: Seq<char>) -> Seq<char>
    decreases path.len(),
{
    if path.len() >= 1 && path.last() == '/' {
        trim_trailing(path.drop_last())
    } else if path.len() >= 2 && path[path.len() - 1] == '.' && path[path.len() - 2] == '/' {
        trim_trailing(path.subrange(0, path.len() - 2))
    } else {
        path
    }
}

/// Where the component that `path` ends in begins: just behind the last
/// separator, or at 0 if there is none.
pub open spec fn component_start(path: Seq<char>) -> int
    decreases path.len(),
{
    if path.len() == 0 || path.last() == '/' {
        path.len() as int
    } else {
        component_start(path.drop_last())
    }
}

/// The component that `path` ends in: what follows its last separator.
pub open spec fn final_component(path: Seq<char>) -> Seq<char> {
    path.subrange(component_start(path), path.len() as int)
}

/// The file name of `path`: its last component, trailing separators and `.`
/// components set aside. There is none where nothing is left, or where what
/// is left is `.` or `..`.
pub open spec fn file_name_of(path: Seq<char>) -> Option<Seq<char>> {
    let last = final_component(trim_trailing(path));
    if last.len() == 0 || last == seq!['.'] || last == seq!['.', '.'] {
        None
    } else {
        Some(last)
    }
}

/// The name under which an upload is recorded: the file name of the name
/// that the client supplied, or the default where that yields none.
pub open spec fn derived_name(supplied: Option<Seq<char>>) -> Seq<char> {
    match supplied {
        Some(path) => match file_name_of(path) {
            Some(name) => name,
            None => default_name(),
        },
        None => default_name(),
    }
}

/// Whether a record may carry `name`: it is not empty, has at most 256
/// characters, and is a single path component.
pub open spec fn valid_name(name: Seq<char>) -> bool {
    &&& 1 <= name.len() <= MAX_NAME_LEN
    &&& !name.contains('/')
}

/// The extension of a file name: what follows its last `.`, unless that `.`
/// is its first character or it has none.
pub open spec fn extension_of(name: Seq<char>) -> Option<Seq<char>> {
    let dot = last_dot(name);
    if dot <= 0 {
        None
    } else {
        Some(name.subrange(dot + 1, name.len() as int))
    }
}

/// The position of the last `.` in `name`, or -1 if it has none.
pub open spec fn last_dot(name: Seq<char>) -> int
    decreases name.len(),
{
    if name.len() == 0 {
        -1
    } else if name.last() == '.' {
        name.len() - 1
    } else {
        last_dot(name.drop_last())
    }
}

/// The component that a path ends in holds no separator and reaches to the
/// path's end.
pub proof fn lemma_final_component(path: Seq<char>)
    ensures
        0 <= component_start(path) <= path.len(),
        component_start(path) > 0 ==> path[component_start(path) - 1] == '/',
        !final_component(path).contains('/'),
    decreases path.len(),
{
    if path.len() == 0 || path.last() == '/' {
    } else {
        let shorter = path.drop_last();
        lemma_final_component(shorter);
        let start = component_start(path);
        assert forall|i: int| 0 <= i < final_component(path).len() implies final_component(
            path,
        )[i] != '/' by {
            if start + i < shorter.len() {
                assert(final_component(shorter)[i] == shorter[start + i]);
                assert(final_component(shorter).contains(shorter[start + i]));
            }
        }
    }
}

/// A file name is never empty, never `.` or `..`, and holds no separator:
/// whatever path a client supplies, the name taken from it names no other
/// directory.
pub proof fn lemma_file_name_is_one_component(path: Seq<char>)
    ensures
        file_name_of(path) matches Some(name) ==> {
            &&& name.len() >= 1
            &&& !name.contains('/')
            &&& name != seq!['.']
            &&& name != seq!['.', '.']
        },
{
    lemma_final_component(trim_trailing(path));
}

/// The name derived for an upload is a single path component and not empty.
pub proof fn lemma_derived_name_is_one_component(supplied: Option<Seq<char>>)
    ensures
        derived_name(supplied).len() >= 1,
        !derived_name(supplied).contains('/'),
        derived_name(supplied).len() <= MAX_NAME_LEN ==> valid_name(derived_name(supplied)),
{
    reveal_strlit("attachment");
    if supplied is Some {
        lemma_file_name_is_one_component(supplied->0);
    }
    let name = derived_name(supplied);
    if name == default_name() {
        assert forall|i: int| 0 <= i < name.len() implies name[i] != '/' by {}
    }
}

/// The characters of `text`, in order.
fn characters(text: &str) -> (chars: Vec<char>)
    ensures
        chars@ == text@,
{
    let mut chars: Vec<char> = Vec::new();
    for c in it: text.chars()
        invariant
            it.seq() == text@,
            chars@ == text@.take(it.index() as int),
    {
        chars.push(c);
    }
    chars
}

/// The file name of `path`, if it has one.
pub fn file_name(path: &str) -> (name: Option<String>)
    ensures
        name is Some <==> file_name_of(path@) is Some,
        name matches Some(n) ==> file_name_of(path@) == Some(n@),
{
    let chars = characters(path);
    let mut end: usize = chars.len();
    assert(path@.subrange(0, end as int) == path@);
    loop
        invariant
            chars@ == path@,
            end <= chars.len(),
            trim_trailing(path@) == trim_trailing(path@.subrange(0, end as int)),
        ensures
            end <= chars.len(),
            trim_trailing(path@) == path@.subrange(0, end as int),
        decreases end,
    {
        let ghost head = path@.subrange(0, end as int);
        if end >= 1 && chars[end - 1] == '/' {
            assert(head.drop_last() == path@.subrange(0, end - 1));
            end = end - 1;
        } else if end >= 2 && chars[end - 1] == '.' && chars[end - 2] == '/' {
            assert(head.subrange(0, head.len() - 2) == path@.subrange(0, end - 2));
            end = end - 2;
        } else {
            break ;
        }
    }
    let ghost trimmed = path@.subrange(0, end as int);
    let mut start: usize = end;
    assert(trimmed.subrange(0, start as int) == trimmed);
    while start > 0 && chars[start - 1] != '/'
        invariant
            chars@ == path@,
            start <= end <= chars.len(),
            trimmed == path@.subrange(0, end as int),
            component_start(trimmed) == component_start(trimmed.subrange(0, start as int)),
        decreases start,
    {
        assert(trimmed.subrange(0, start as int).drop_last() == trimmed.subrange(
            0,
            start - 1,
        ));
        start = start - 1;
    }
    assert(component_start(trimmed) == start);
    assert(final_component(trimmed) == path@.subrange(start as int, end as int));
    let len: usize = end - start;
    if len == 0 {
        return None;
    }
    if len == 1 && chars[start] == '.' {
        assert(final_component(trimmed) =~= seq!['.']);
        return None;
    }
    if len == 2 && chars[start] == '.' && chars[start + 1] == '.' {
        assert(final_component(trimmed) =~= seq!['.', '.']);
        return None;
    }
    proof {
        let last = final_component(trimmed);
        if last == seq!['.'] {
            assert(last.len() == 1 && last[0] == '.');
        }
        if last == seq!['.', '.'] {
            assert(last.len() == 2 && last[0] == '.' && last[1] == '.');
        }
    }
    Some(path.substring_char(start, end).to_owned())
}

/// The extension of the file name `name`, if it has one.
pub fn extension(name: &str) -> (ext: Option<String>)
    ensures
        ext is Some <==> extension_of(name@) is Some,
        ext matches Some(e) ==> extension_of(name@) == Some(e@),
{
    let chars = characters(name);
    let mut end: usize = chars.len();
    assert(name@.subrange(0, end as int) == name@);
    while end > 0 && chars[end - 1] != '.'
        invariant
            chars@ == name@,
            end <= chars.len(),
            last_dot(name@) == last_dot(name@.subrange(0, end as int)),
        decreases end,
    {
        assert(name@.subrange(0, end as int).drop_last() == name@.subrange(0, end - 1));
        end = end - 1;
    }
    assert(last_dot(name@) == end - 1);
    if end <= 1 {
        None
    } else {
        Some(name.substring_char(end, chars.len()).to_owned())
    }
}

/// The name under which an upload is recorded, taken from the name that the
/// client supplied, if any. Directories in the supplied name are dropped; a
/// name of more than 256 characters is refused.
pub fn sanitize_name(supplied: Option<&str>) -> (result: Result<String, AttachmentError>)
    ensures
        match result {
            Ok(name) => {
                &&& name@ == derived_name(supplied_view(supplied))
                &&& valid_name(name@)
            },
            Err(error) => {
                &&& error == AttachmentError::InvalidName
                &&& derived_name(supplied_view(supplied)).len() > MAX_NAME_LEN
            },
        },
{
    let name: String = match supplied {
        Some(path) => match file_name(path) {
            Some(name) => name,
            None => "attachment".to_owned(),
        },
        None => "attachment".to_owned(),
    };
    proof {
        lemma_derived_name_is_one_component(supplied_view(supplied));
    }
    let len = name.as_str().unicode_len();
    if len == 0 || len > MAX_NAME_LEN {
        Err(AttachmentError::InvalidName)
    } else {
        Ok(name)
    }
}

/// The characters of a supplied name, if one was supplied.
pub open spec fn supplied_view(supplied: Option<&str>) -> Option<Seq<char>> {
    match supplied {
        Some(path) => Some(path@),
        None => None,
    }
}

/// Whether `text` ends in `suffix`.
pub fn ends_with(text: &str, suffix: &str) -> (b: bool)
    ensures
        b == suffix@.is_suffix_of(text@),
{
    let text_chars = characters(text);
    let suffix_chars = characters(suffix);
    let n = text_chars.len();
    let m = suffix_chars.len();
    if m > n {
        return false;
    }
    let offset: usize = n - m;
    let mut i: usize = 0;
    while i < m
        invariant
            text_chars@ == text@,
            suffix_chars@ == suffix@,
            n == text_chars.len(),
            m == suffix_chars.len(),
            offset == n - m,
            i <= m,
            forall|k: int| 0 <= k < i ==> text@[offset + k] == suffix@[k],
        decreases m - i,
    {
        if text_chars[offset + i] != suffix_chars[i] {
            proof {
                let tail = text@.subrange(text@.len() - suffix@.len(), text@.len() as int);
                assert(tail[i as int] == text@[offset + i]);
            }
            return false;
        }
        i = i + 1;
    }
    assert(text@.subrange(text@.len() - suffix@.len(), text@.len() as int) =~= suffix@);
    true
}

} // verus!
