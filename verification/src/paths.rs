//! Paths as texts: the directory of a file, and a file beside another.
//!
//! A path is taken apart at its separators. A separator at its very start is
//! its root; a single dot at its start, where there is no root, stands for
//! the current directory. Behind them comes the body: components with
//! separators between them. An empty component and a component that is a
//! single dot count for nothing. Drive prefixes are not told apart from
//! other components.

use crate::models::Platform;
use vstd::prelude::*;

verus! {

/// Whether the character parts the components of a path.
pub open spec fn is_separator(platform: Platform, c: char) -> bool {
    c == '/' || (platform == Platform::Windows && c == '\\')
}

/// The text of the separator that the platform writes.
pub open spec fn separator_text(platform: Platform) -> Seq<char> {
    if platform == Platform::Windows {
        "\\"@
    } else {
        "/"@
    }
}

/// Whether the path begins with a root.
pub open spec fn has_root(platform: Platform, path: Seq<char>) -> bool {
    path.len() > 0 && is_separator(platform, path[0])
}

/// Whether the path begins with a dot that stands for the current directory.
pub open spec fn has_leading_dot(platform: Platform, path: Seq<char>) -> bool {
    !has_root(platform, path) && path.len() > 0 && path[0] == '.' && (path.len() == 1
        || is_separator(platform, path[1]))
}

/// Where the body of the path begins: behind its root or its leading dot.
pub open spec fn body_start(platform: Platform, path: Seq<char>) -> int {
    if has_root(platform, path) || has_leading_dot(platform, path) {
        1
    } else {
        0
    }
}

/// The length of the last component of the body that begins at `start`: the
/// characters behind the last separator.
pub open spec fn last_component_len(platform: Platform, path: Seq<char>, start: int) -> int
    decreases path.len(),
{
    if path.len() <= start || path.len() == 0 || is_separator(platform, path.last()) {
        0
    } else {
        1 + last_component_len(platform, path.drop_last(), start)
    }
}

/// The length of the path without its last component and the separator
/// before it.
pub open spec fn without_last_len(platform: Platform, path: Seq<char>, start: int) -> int {
    let component = last_component_len(platform, path, start);
    if path.len() - component > start {
        path.len() - component - 1
    } else {
        path.len() - component
    }
}

/// Whether the last component of the body counts for nothing: it is empty
/// or a single dot.
pub open spec fn last_is_idle(platform: Platform, path: Seq<char>, start: int) -> bool {
    let component = last_component_len(platform, path, start);
    component == 0 || (component == 1 && path.last() == '.')
}

/// The length of the path once the components at its end that count for
/// nothing are taken away.
pub open spec fn trimmed_len(platform: Platform, path: Seq<char>, start: int) -> int
    decreases path.len(),
{
    if path.len() <= start || path.len() == 0 {
        path.len() as int
    } else if last_is_idle(platform, path, start) {
        let shorter = without_last_len(platform, path, start);
        if 0 <= shorter < path.len() {
            trimmed_len(platform, path.take(shorter), start)
        } else {
            path.len() as int
        }
    } else {
        path.len() as int
    }
}

/// The length of the path's parent: the path without its last component
/// that counts, and without what counts for nothing before it. A path that
/// is only a root, and an empty path, have no parent.
pub open spec fn parent_len(platform: Platform, path: Seq<char>) -> Option<int> {
    let start = body_start(platform, path);
    let trimmed = path.take(trimmed_len(platform, path, start));
    if trimmed.len() <= start {
        if has_leading_dot(platform, path) {
            Some(0)
        } else {
            None
        }
    } else {
        let cut = trimmed.take(without_last_len(platform, trimmed, start));
        Some(trimmed_len(platform, cut, start))
    }
}

/// The path `rest` below the directory `base`: a separator comes between
/// the two unless the base is empty or ends with one.
pub open spec fn joined(platform: Platform, base: Seq<char>, rest: Seq<char>) -> Seq<char> {
    if base.len() > 0 && !is_separator(platform, base.last()) {
        base + separator_text(platform) + rest
    } else {
        base + rest
    }
}

/// The path of the file named `name` in the directory of the file at
/// `path`. Where the path has no parent, the name is added to the path
/// itself.
pub open spec fn sibling_of(platform: Platform, path: Seq<char>, name: Seq<char>) -> Seq<char> {
    match parent_len(platform, path) {
        Some(len) => joined(platform, path.take(len), name),
        None => joined(platform, path, name),
    }
}

/// The path of the keybindings file that belongs to the settings file at
/// `config_path`: the file of the fixed name in the same directory.
pub open spec fn keybindings_path_of(platform: Platform, config_path: Seq<char>) -> Seq<char> {
    sibling_of(platform, config_path, "keybindings.json"@)
}

/// The lengths that `last_component_len` and `without_last_len` give are
/// within the path.
pub proof fn lemma_component_bounds(platform: Platform, path: Seq<char>, start: int)
    requires
        0 <= start,
    ensures
        0 <= last_component_len(platform, path, start) <= path.len(),
        path.len() > start ==> path.len() - last_component_len(platform, path, start) >= start,
        path.len() > start ==> start <= without_last_len(platform, path, start) <= path.len(),
        path.len() > start && last_is_idle(platform, path, start) ==> without_last_len(
            platform,
            path,
            start,
        ) < path.len(),
    decreases path.len(),
{
    if !(path.len() <= start || path.len() == 0 || is_separator(platform, path.last())) {
        lemma_component_bounds(platform, path.drop_last(), start);
    }
}

/// The length that `trimmed_len` gives is within the path.
pub proof fn lemma_trimmed_bounds(platform: Platform, path: Seq<char>, start: int)
    requires
        0 <= start,
    ensures
        0 <= trimmed_len(platform, path, start) <= path.len(),
        path.len() >= start ==> trimmed_len(platform, path, start) >= start,
    decreases path.len(),
{
    if !(path.len() <= start || path.len() == 0) && last_is_idle(platform, path, start) {
        lemma_component_bounds(platform, path, start);
        lemma_trimmed_bounds(
            platform,
            path.take(without_last_len(platform, path, start)),
            start,
        );
    }
}

/// Whether the character parts the components of a path.
pub fn separates(platform: Platform, c: char) -> (r: bool)
    ensures
        r == is_separator(platform, c),
{
    c == '/' || (matches!(platform, Platform::Windows) && c == '\\')
}

/// The length of the last component of the first `len` characters of the
/// path, whose body begins at `start`.
fn component_len(platform: Platform, path: &str, len: usize, start: usize) -> (r: usize)
    requires
        len <= path@.len(),
    ensures
        r == last_component_len(platform, path@.take(len as int), start as int),
        r <= len,
{
    let mut end: usize = len;
    let ghost whole = path@.take(len as int);
    while end > start && !separates(platform, path.get_char(end - 1))
        invariant
            end <= len,
            len <= path@.len(),
            whole == path@.take(len as int),
            last_component_len(platform, whole, start as int) == (len - end)
                + last_component_len(platform, path@.take(end as int), start as int),
        decreases end,
    {
        proof {
            let now = path@.take(end as int);
            assert(now.last() == path@[end - 1]);
            assert(now.drop_last() =~= path@.take(end - 1));
        }
        end = end - 1;
    }
    proof {
        let now = path@.take(end as int);
        if end > start {
            assert(now.last() == path@[end - 1]);
        }
    }
    len - end
}

/// The length of the first `len` characters of the path without their last
/// component and the separator before it.
fn cut_last(platform: Platform, path: &str, len: usize, start: usize) -> (r: usize)
    requires
        start < len <= path@.len(),
    ensures
        r == without_last_len(platform, path@.take(len as int), start as int),
        start <= r <= len,
{
    proof {
        lemma_component_bounds(platform, path@.take(len as int), start as int);
    }
    let component = component_len(platform, path, len, start);
    if len - component > start {
        len - component - 1
    } else {
        len - component
    }
}

/// The length of the first `len` characters of the path once the components
/// at their end that count for nothing are taken away.
fn trim_idle(platform: Platform, path: &str, len: usize, start: usize) -> (r: usize)
    requires
        len <= path@.len(),
    ensures
        r == trimmed_len(platform, path@.take(len as int), start as int),
        r <= len,
{
    let mut end: usize = len;
    loop
        invariant
            end <= len,
            len <= path@.len(),
            trimmed_len(platform, path@.take(len as int), start as int) == trimmed_len(
                platform,
                path@.take(end as int),
                start as int,
            ),
        decreases end,
    {
        if end <= start || end == 0 {
            return end;
        }
        let ghost now = path@.take(end as int);
        let component = component_len(platform, path, end, start);
        proof {
            lemma_component_bounds(platform, now, start as int);
            assert(now.last() == path@[end - 1]);
        }
        let idle = component == 0 || (component == 1 && path.get_char(end - 1) == '.');
        if !idle {
            return end;
        }
        let shorter = cut_last(platform, path, end, start);
        proof {
            assert(now.take(shorter as int) =~= path@.take(shorter as int));
        }
        end = shorter;
    }
}

/// The length of the path's parent, if it has one.
pub fn parent_length(platform: Platform, path: &str) -> (r: Option<usize>)
    ensures
        match r {
            Some(len) => parent_len(platform, path@) == Some(len as int) && len <= path@.len(),
            None => parent_len(platform, path@) is None,
        },
{
    let n = path.unicode_len();
    let rooted = n > 0 && separates(platform, path.get_char(0));
    let dotted = !rooted && n > 0 && path.get_char(0) == '.' && (n == 1 || separates(
        platform,
        path.get_char(1),
    ));
    let start: usize = if rooted || dotted {
        1
    } else {
        0
    };
    proof {
        assert(path@.take(n as int) =~= path@);
        lemma_trimmed_bounds(platform, path@, start as int);
    }
    let trimmed = trim_idle(platform, path, n, start);
    if trimmed <= start {
        if dotted {
            Some(0)
        } else {
            None
        }
    } else {
        let cut = cut_last(platform, path, trimmed, start);
        proof {
            assert(path@.take(trimmed as int).take(cut as int) =~= path@.take(cut as int));
        }
        Some(trim_idle(platform, path, cut, start))
    }
}

/// The path `rest` below the directory `base`.
pub fn join_path(platform: Platform, base: &str, rest: &str) -> (r: String)
    ensures
        r@ == joined(platform, base@, rest@),
{
    let n = base.unicode_len();
    let mut out = String::from_str(base);
    if n > 0 && !separates(platform, base.get_char(n - 1)) {
        match platform {
            Platform::Windows => out.append("\\"),
            _ => out.append("/"),
        }
    }
    out.append(rest);
    out
}

/// The path of the file named `name` in the directory of the file at
/// `path`.
pub fn sibling(platform: Platform, path: &str, name: &str) -> (r: String)
    ensures
        r@ == sibling_of(platform, path@, name@),
{
    match parent_length(platform, path) {
        Some(len) => {
            let kept = path.substring_char(0, len);
            assert(kept@ =~= path@.take(len as int));
            join_path(platform, kept, name)
        },
        None => join_path(platform, path, name),
    }
}

/// The path of the keybindings file that belongs to the settings file at
/// `config_path`.
pub fn get_keybindings_path(config_path: &str, platform: Platform) -> (r: String)
    ensures
        r@ == keybindings_path_of(platform, config_path@),
{
    sibling(platform, config_path, "keybindings.json")
}

} // verus!
