//! Names of asset files, relative to the directory the renderer runs in.
//!
//! A path is a text whose components a slash separates. What this module
//! says of file names and extensions is what `std::path::Path` says of them
//! on the paths that `spec_names_file` admits, and the functions here ask
//! for such a path.

use vstd::prelude::*;
use vstd::string::StringExecFns;

verus! {

/// Index of the last `c` in `s`, or -1 where `s` holds none.
pub open spec fn spec_last_index_of(s: Seq<char>, c: char) -> int
    decreases s.len(),
{
    if s.len() == 0 {
        -1
    } else if s.last() == c {
        s.len() - 1
    } else {
        spec_last_index_of(s.drop_last(), c)
    }
}

/// The last `c` of `s` stands at the index found, and none stands behind it.
pub proof fn lemma_last_index_of(s: Seq<char>, c: char)
    ensures
        -1 <= spec_last_index_of(s, c) < s.len(),
        spec_last_index_of(s, c) >= 0 ==> s[spec_last_index_of(s, c)] == c,
        forall|i: int| spec_last_index_of(s, c) < i < s.len() ==> s[i] != c,
    decreases s.len(),
{
    if s.len() > 0 && s.last() != c {
        lemma_last_index_of(s.drop_last(), c);
        assert forall|i: int| spec_last_index_of(s, c) < i < s.len() implies s[i] != c by {
            if i < s.len() - 1 {
                assert(s.drop_last()[i] == s[i]);
            }
        }
    }
}

/// Index of the last `c` in `s`, or `None` where `s` holds none.
pub fn last_index_of(s: &str, c: char) -> (found: Option<usize>)
    ensures
        match found {
            Some(i) => i == spec_last_index_of(s@, c),
            None => spec_last_index_of(s@, c) == -1,
        },
{
    let len: usize = s.unicode_len();
    let mut i: usize = len;
    assert(s@.take(len as int) =~= s@);
    while i > 0
        invariant
            i <= len,
            len == s@.len(),
            spec_last_index_of(s@, c) == spec_last_index_of(s@.take(i as int), c),
        decreases i,
    {
        if s.get_char(i - 1) == c {
            return Some(i - 1);
        }
        assert(s@.take(i as int).drop_last() =~= s@.take(i - 1));
        i = i - 1;
    }
    None
}

/// Name of the file that `path` leads to: what follows its last slash.
pub open spec fn spec_file_name(path: Seq<char>) -> Seq<char> {
    path.skip(spec_last_index_of(path, '/') + 1)
}

/// Whether `path` names a file in the plain way: it is a text of
/// components that slashes separate and that hold no backslash, it does not
/// end in a slash, and its last component is neither `.` nor `..`. On such
/// paths the file name and the extension are what `std::path::Path` takes
/// them to be; on others this module is not to be asked.
pub open spec fn spec_names_file(path: Seq<char>) -> bool {
    let len = path.len() as int;
    &&& len > 0
    &&& spec_last_index_of(path, '\\') == -1
    &&& path[len - 1] != '/'
    &&& !(path[len - 1] == '.' && (len == 1 || path[len - 2] == '/'))
    &&& !(len >= 2 && path[len - 1] == '.' && path[len - 2] == '.' && (len == 2 || path[len - 3]
        == '/'))
}

/// Whether `path` names a file in the plain way.
pub fn names_file(path: &str) -> (plain: bool)
    ensures
        plain == spec_names_file(path@),
{
    let len: usize = s_len(path);
    if len == 0 {
        return false;
    }
    if last_index_of(path, '\\').is_some() {
        proof {
            lemma_last_index_of(path@, '\\');
        }
        return false;
    }
    let last = path.get_char(len - 1);
    if last == '/' {
        return false;
    }
    if last != '.' {
        return true;
    }
    if len == 1 {
        return false;
    }
    let before = path.get_char(len - 2);
    if before == '/' {
        return false;
    }
    if before != '.' {
        return true;
    }
    if len == 2 {
        return false;
    }
    path.get_char(len - 3) != '/'
}

/// Name of the file that `path` leads to.
pub fn path_name_to_string(path: &str) -> (name: String)
    requires
        spec_names_file(path@),
    ensures
        name@ == spec_file_name(path@),
{
    let len: usize = s_len(path);
    proof {
        lemma_last_index_of(path@, '/');
    }
    let start: usize = match last_index_of(path, '/') {
        Some(i) => i + 1,
        None => 0,
    };
    let name = path.substring_char(start, len);
    assert(path@.subrange(start as int, len as int) =~= path@.skip(start as int));
    String::from_str(name)
}

/// Number of characters of `s`.
pub fn s_len(s: &str) -> (len: usize)
    ensures
        len == s@.len(),
{
    s.unicode_len()
}

/// Where the extension of the file that `path` leads to begins: the index of
/// the last dot of the file name, unless the name has none or begins with it.
pub open spec fn spec_extension_dot(path: Seq<char>) -> Option<int> {
    let name_start = spec_last_index_of(path, '/') + 1;
    let dot = spec_last_index_of(path, '.');
    if dot > name_start {
        Some(dot)
    } else {
        None
    }
}

/// `path` with the extension of its file replaced by `extension`, or given
/// that extension where the file has none.
pub open spec fn spec_with_extension(path: Seq<char>, extension: Seq<char>) -> Seq<char> {
    match spec_extension_dot(path) {
        Some(dot) => path.take(dot) + seq!['.'] + extension,
        None => path + seq!['.'] + extension,
    }
}

/// Whether `extension` can be the extension of a file: it is not empty and
/// holds no separator.
pub open spec fn spec_is_extension(extension: Seq<char>) -> bool {
    &&& extension.len() > 0
    &&& spec_last_index_of(extension, '/') == -1
    &&& spec_last_index_of(extension, '\\') == -1
}

/// Whether `extension` can be the extension of a file.
pub fn is_extension(extension: &str) -> (plain: bool)
    ensures
        plain == spec_is_extension(extension@),
{
    proof {
        lemma_last_index_of(extension@, '/');
        lemma_last_index_of(extension@, '\\');
    }
    s_len(extension) > 0 && last_index_of(extension, '/').is_none() && last_index_of(
        extension,
        '\\',
    ).is_none()
}

/// `path` with the extension of its file replaced by `extension`.
pub fn with_extension(path: &str, extension: &str) -> (renamed: String)
    requires
        spec_names_file(path@),
        spec_is_extension(extension@),
    ensures
        renamed@ == spec_with_extension(path@, extension@),
{
    let len: usize = s_len(path);
    proof {
        lemma_last_index_of(path@, '/');
        lemma_last_index_of(path@, '.');
        reveal_strlit(".");
    }
    let name_start: usize = match last_index_of(path, '/') {
        Some(i) => i + 1,
        None => 0,
    };
    let stem: &str = match last_index_of(path, '.') {
        Some(dot) => if dot > name_start {
            path.substring_char(0, dot)
        } else {
            path
        },
        None => path,
    };
    assert(seq!['.'] =~= "."@);
    String::from_str(stem).concat(".").concat(extension)
}

/// The directory of the assets.
pub open spec fn spec_asset_dir() -> Seq<char> {
    "assets/"@
}

/// The directory of the compiled shaders.
pub open spec fn spec_shader_dir() -> Seq<char> {
    "assets/shaders/spirv/"@
}

/// Whether `path` is relative: it does not begin at the root.
pub open spec fn spec_is_relative(path: Seq<char>) -> bool {
    path.len() == 0 || path[0] != '/'
}

/// Whether `path` is relative.
pub fn is_relative(path: &str) -> (relative: bool)
    ensures
        relative == spec_is_relative(path@),
{
    s_len(path) == 0 || path.get_char(0) != '/'
}

/// Where the asset `relative_path` lies.
pub fn asset_path(relative_path: &str) -> (path: String)
    requires
        spec_is_relative(relative_path@),
    ensures
        path@ == spec_asset_dir() + relative_path@,
{
    String::from_str("assets/").concat(relative_path)
}

/// Where the compiled form of the shader `relative_path` lies: among the
/// compiled shaders, under the same name with the extension `spv`.
pub fn shader_path(relative_path: &str) -> (path: String)
    requires
        spec_names_file(relative_path@),
        spec_is_relative(relative_path@),
    ensures
        path@ == spec_shader_dir() + spec_with_extension(relative_path@, "spv"@),
{
    proof {
        reveal_strlit("spv");
        lemma_last_index_of("spv"@, '/');
        lemma_last_index_of("spv"@, '\\');
    }
    let renamed = with_extension(relative_path, "spv");
    String::from_str("assets/shaders/spirv/").concat(renamed.as_str())
}


/// Index of the first of `names` that is `name`, or `names.len()` where none is.
pub open spec fn spec_position_of(names: Seq<String>, name: Seq<char>) -> int
    decreases names.len(),
{
    if names.len() == 0 {
        0
    } else if names.first()@ == name {
        0
    } else {
        1 + spec_position_of(names.drop_first(), name)
    }
}

/// The position found is that of the first occurrence.
pub proof fn lemma_position_of(names: Seq<String>, name: Seq<char>)
    ensures
        0 <= spec_position_of(names, name) <= names.len(),
        spec_position_of(names, name) < names.len()
            ==> names[spec_position_of(names, name)]@ == name,
        forall|i: int| 0 <= i < spec_position_of(names, name) ==> (#[trigger] names[i])@ != name,
    decreases names.len(),
{
    if names.len() > 0 && names.first()@ != name {
        lemma_position_of(names.drop_first(), name);
        assert forall|i: int| 0 <= i < spec_position_of(names, name) implies (#[trigger] names[i])@
            != name by {
            if i > 0 {
                assert(names.drop_first()[i - 1] == names[i]);
            }
        }
    }
}

/// Index of the first of `names` that is `name`.
pub fn position_of(names: &Vec<String>, name: &str) -> (found: Option<usize>)
    ensures
        match found {
            Some(i) => i == spec_position_of(names@, name@) && i < names@.len(),
            None => spec_position_of(names@, name@) == names@.len(),
        },
{
    let mut i: usize = 0;
    assert(names@.skip(0) =~= names@);
    while i < names.len()
        invariant
            i <= names.len(),
            spec_position_of(names@, name@) == i + spec_position_of(names@.skip(i as int), name@),
        decreases names.len() - i,
    {
        assert(names@.skip(i as int).first() == names@[i as int]);
        assert(names@.skip(i as int).drop_first() =~= names@.skip(i + 1));
        if same_text(names[i].as_str(), name) {
            return Some(i);
        }
        i = i + 1;
    }
    None
}

/// Whether two texts are the same.
pub fn same_text(a: &str, b: &str) -> (same: bool)
    ensures
        same == (a@ == b@),
{
    let len: usize = a.unicode_len();
    if len != b.unicode_len() {
        return false;
    }
    let mut i: usize = 0;
    while i < len
        invariant
            i <= len,
            len == a@.len(),
            len == b@.len(),
            forall|k: int| 0 <= k < i ==> a@[k] == b@[k],
        decreases len - i,
    {
        if a.get_char(i) != b.get_char(i) {
            return false;
        }
        i = i + 1;
    }
    assert(a@ =~= b@);
    true
}

} // verus!
