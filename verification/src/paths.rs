//! File paths as text.

use vstd::prelude::*;

use crate::text::{begins_with, chars_of, ends_with, starts_with, text_between};

verus! {

/// The systems that DepotDownloader is published for.
#[derive(Debug, Clone, Copy, PartialEq, Eq, Structural)]
pub enum Os {
    Windows,
    MacOs,
    Linux,
}

/// The processors that DepotDownloader is published for.
#[derive(Debug, Clone, Copy, PartialEq, Eq, Structural)]
pub enum Arch {
    X64,
    Arm64,
    Arm,
}

/// How a path is taken apart.
#[derive(Debug, Clone, Copy, PartialEq, Eq, Structural)]
pub enum PathStyle {
    /// By slashes.
    Unix,
    /// By slashes and backslashes, after a drive, a server's share or another
    /// prefix of Windows.
    Windows,
}

/// How a system takes a path apart.
pub open spec fn style_of(os: Os) -> PathStyle {
    if os == Os::Windows {
        PathStyle::Windows
    } else {
        PathStyle::Unix
    }
}

impl Os {
    /// How the system takes a path apart.
    pub fn path_style(self) -> (style: PathStyle)
        ensures
            style == style_of(self),
    {
        if self == Os::Windows {
            PathStyle::Windows
        } else {
            PathStyle::Unix
        }
    }
}

/// What takes a path apart: which characters separate its components, and
/// whether a `.` between them is none.
#[derive(Debug, Clone, Copy, PartialEq, Eq, Structural)]
pub struct Marks {
    pub slash: bool,
    pub backslash: bool,
    pub dots: bool,
}

/// A character that separates the components of a path.
pub open spec fn is_mark(c: char, marks: Marks) -> bool {
    (marks.slash && c == '/') || (marks.backslash && c == '\\')
}

/// A character that separates the components of a path: a slash, and where
/// `backslash` holds a backslash too.
pub open spec fn is_separator(c: char, backslash: bool) -> bool {
    c == '/' || (backslash && c == '\\')
}

/// What takes this path apart. In one that starts with `\\?\` backslashes alone
/// do, and a `.` stands for itself.
pub open spec fn marks_of(path: Seq<char>, style: PathStyle) -> Marks {
    match style {
        PathStyle::Unix => Marks { slash: true, backslash: false, dots: true },
        PathStyle::Windows => {
            let literal = begins_with(path, "\\\\?\\"@);
            Marks { slash: !literal, backslash: true, dots: !literal }
        },
    }
}

/// A bare drive letter and its colon.
pub open spec fn is_drive(path: Seq<char>) -> bool {
    &&& path.len() == 2
    &&& ('a' <= path[0] && path[0] <= 'z') || ('A' <= path[0] && path[0] <= 'Z')
    &&& path[1] == ':'
}

/// Where the component that starts at `from` ends.
pub open spec fn component_end(path: Seq<char>, from: nat, marks: Marks) -> nat
    decreases path.len() - from,
{
    if from >= path.len() {
        path.len()
    } else if is_mark(path[from as int], marks) {
        from
    } else {
        component_end(path, from + 1, marks)
    }
}

/// The length of the prefix that a path of Windows starts with: `C:`, a share as
/// in `\\server\share`, a device as in `\\.\COM1`, or one of `\\?\C:`,
/// `\\?\UNC\server\share` and `\\?\name`. Nothing where it has none.
pub open spec fn windows_prefix(path: Seq<char>) -> nat {
    let marks = marks_of(path, PathStyle::Windows);
    if begins_with(path, "\\\\?\\"@) {
        if begins_with(path, "\\\\?\\UNC\\"@) {
            let server = component_end(path, 8, marks);
            let share = component_end(path, server + 1, marks);
            if share > server + 1 {
                share
            } else {
                server
            }
        } else {
            component_end(path, 4, marks)
        }
    } else if path.len() >= 2 && is_mark(path[0], marks) && is_mark(path[1], marks) {
        if path.len() >= 4 && path[2] == '.' && is_mark(path[3], marks) {
            component_end(path, 4, marks)
        } else {
            let server = component_end(path, 2, marks);
            let share = component_end(path, server + 1, marks);
            if server > 2 && share > server + 1 {
                share
            } else {
                0
            }
        }
    } else if path.len() >= 2 && is_drive(path.take(2)) {
        2
    } else {
        0
    }
}

/// The length of what a path starts with before its components.
pub open spec fn prefix_len(path: Seq<char>, style: PathStyle) -> nat {
    match style {
        PathStyle::Unix => 0,
        PathStyle::Windows => windows_prefix(path),
    }
}

/// The path without separators, and `.` components after one, at its end; its
/// prefix stays.
pub open spec fn without_marks(path: Seq<char>, marks: Marks, prefix: nat) -> Seq<char>
    decreases path.len(),
{
    let n = path.len() as int;
    if n > prefix && is_mark(path[n - 1], marks) {
        without_marks(path.drop_last(), marks, prefix)
    } else if marks.dots && n > prefix + 1 && path[n - 1] == '.' && is_mark(path[n - 2], marks) {
        without_marks(path.drop_last(), marks, prefix)
    } else {
        path
    }
}

/// The path without what may follow its last component.
pub open spec fn without_tail(path: Seq<char>, style: PathStyle) -> Seq<char> {
    without_marks(path, marks_of(path, style), prefix_len(path, style))
}

/// The length of the path up to and with its last separator, or of its prefix
/// where none follows.
pub open spec fn last_start(path: Seq<char>, marks: Marks, prefix: nat) -> nat
    decreases path.len(),
{
    if path.len() <= prefix || is_mark(path.last(), marks) {
        path.len()
    } else {
        last_start(path.drop_last(), marks, prefix)
    }
}

/// The last component of a path; empty where it has none.
pub open spec fn last_component(path: Seq<char>, style: PathStyle) -> Seq<char> {
    let whole = without_tail(path, style);
    whole.skip(last_start(whole, marks_of(path, style), prefix_len(path, style)) as int)
}

/// The path that the last component lies in.
pub open spec fn parent(path: Seq<char>, style: PathStyle) -> Seq<char> {
    let marks = marks_of(path, style);
    let prefix = prefix_len(path, style);
    let whole = without_tail(path, style);
    without_marks(whole.take(last_start(whole, marks, prefix) as int), marks, prefix)
}

/// Whether the character separates the components of a path.
fn separator(c: char, backslash: bool) -> (yes: bool)
    ensures
        yes == is_separator(c, backslash),
{
    c == '/' || (backslash && c == '\\')
}

/// Whether the character separates the components of a path.
fn mark(c: char, marks: Marks) -> (yes: bool)
    ensures
        yes == is_mark(c, marks),
{
    (marks.slash && c == '/') || (marks.backslash && c == '\\')
}

/// Whether a path starts with a drive letter and its colon.
fn starts_with_drive(path: &Vec<char>) -> (yes: bool)
    ensures
        yes == (path@.len() >= 2 && is_drive(path@.take(2))),
{
    path.len() >= 2 && (('a' <= path[0] && path[0] <= 'z') || ('A' <= path[0] && path[0] <= 'Z'))
        && path[1] == ':'
}

/// Where the component that starts at `from` ends.
fn end_of_component(path: &Vec<char>, from: usize, marks: Marks) -> (end: usize)
    requires
        from <= path@.len(),
    ensures
        from <= end <= path@.len(),
        end == component_end(path@, from as nat, marks),
{
    let mut end: usize = from;
    while end < path.len() && !mark(path[end], marks)
        invariant
            from <= end <= path@.len(),
            component_end(path@, end as nat, marks) == component_end(path@, from as nat, marks),
        decreases path@.len() - end,
    {
        end = end + 1;
    }
    end
}

/// Where the component after the one that ends at `end` ends; the end of the
/// path where there is none.
fn end_of_next(path: &Vec<char>, end: usize, marks: Marks) -> (next: usize)
    requires
        end <= path@.len(),
    ensures
        next <= path@.len(),
        next == component_end(path@, (end + 1) as nat, marks),
{
    if end < path.len() {
        end_of_component(path, end + 1, marks)
    } else {
        path.len()
    }
}

/// What takes a path apart, and the length of its prefix.
fn layout(path: &str, chars: &Vec<char>, style: PathStyle) -> (layout: (Marks, usize))
    requires
        chars@ == path@,
    ensures
        layout.0 == marks_of(path@, style),
        layout.1 == prefix_len(path@, style),
        layout.1 <= path@.len(),
{
    if style == PathStyle::Unix {
        return (Marks { slash: true, backslash: false, dots: true }, 0);
    }
    proof {
        reveal_strlit("\\\\?\\");
        reveal_strlit("\\\\?\\UNC\\");
    }
    let literal = starts_with(path, "\\\\?\\");
    let marks = Marks { slash: !literal, backslash: true, dots: !literal };
    if literal {
        if starts_with(path, "\\\\?\\UNC\\") {
            let server = end_of_component(chars, 8, marks);
            let share = end_of_next(chars, server, marks);
            return (marks, if server < chars.len() && share > server + 1 { share } else { server });
        }
        return (marks, end_of_component(chars, 4, marks));
    }
    if chars.len() >= 2 && mark(chars[0], marks) && mark(chars[1], marks) {
        if chars.len() >= 4 && chars[2] == '.' && mark(chars[3], marks) {
            return (marks, end_of_component(chars, 4, marks));
        }
        let server = end_of_component(chars, 2, marks);
        let share = end_of_next(chars, server, marks);
        return (
            marks,
            if server > 2 && server < chars.len() && share > server + 1 {
                share
            } else {
                0
            },
        );
    }
    (marks, if starts_with_drive(chars) { 2 } else { 0 })
}

/// Where the first `end` characters end without their tail.
fn tail_from(path: &Vec<char>, end: usize, marks: Marks, prefix: usize) -> (cut: usize)
    requires
        end <= path@.len(),
    ensures
        cut <= end,
        path@.take(cut as int) == without_marks(path@.take(end as int), marks, prefix as nat),
{
    let mut cut: usize = end;
    while cut > prefix && (mark(path[cut - 1], marks) || (marks.dots && cut - 1 > prefix
        && path[cut - 1] == '.' && mark(path[cut - 2], marks)))
        invariant
            cut <= end <= path@.len(),
            without_marks(path@.take(cut as int), marks, prefix as nat) == without_marks(
                path@.take(end as int),
                marks,
                prefix as nat,
            ),
        decreases cut,
    {
        assert(path@.take(cut as int).drop_last() =~= path@.take(cut - 1));
        cut = cut - 1;
    }
    cut
}

/// Where the last component of the first `end` characters starts.
fn component_from(path: &Vec<char>, end: usize, marks: Marks, prefix: usize) -> (start: usize)
    requires
        end <= path@.len(),
    ensures
        start <= end,
        start == last_start(path@.take(end as int), marks, prefix as nat),
{
    let mut start: usize = end;
    while start > prefix && !mark(path[start - 1], marks)
        invariant
            start <= end <= path@.len(),
            last_start(path@.take(start as int), marks, prefix as nat) == last_start(
                path@.take(end as int),
                marks,
                prefix as nat,
            ),
        decreases start,
    {
        assert(path@.take(start as int).drop_last() =~= path@.take(start - 1));
        start = start - 1;
    }
    start
}

/// A path taken apart: the path its last component lies in, and that
/// component.
pub struct Split {
    pub parent: String,
    pub name: String,
}

/// Takes the last component off a path.
pub fn split_last(path: &str, style: PathStyle) -> (split: Split)
    ensures
        split.parent@ == parent(path@, style),
        split.name@ == last_component(path@, style),
{
    let chars = chars_of(path);
    let (marks, prefix) = layout(path, &chars, style);
    assert(chars@.take(chars@.len() as int) =~= path@);
    let end = tail_from(&chars, chars.len(), marks, prefix);
    let start = component_from(&chars, end, marks, prefix);
    let cut = tail_from(&chars, start, marks, prefix);
    let ghost whole = chars@.take(end as int);
    assert(chars@.subrange(start as int, end as int) =~= whole.skip(start as int));
    assert(whole.take(start as int) =~= chars@.take(start as int));
    assert(chars@.subrange(0, cut as int) =~= chars@.take(cut as int));
    Split { parent: text_between(&chars, 0, cut), name: text_between(&chars, start, end) }
}

/// The path of `relative` under `dir`: with the system's separator between
/// them, unless `dir` is empty, ends in one, or is a bare drive of Windows.
pub open spec fn under(os: Os, dir: Seq<char>, relative: Seq<char>) -> Seq<char> {
    if dir.len() == 0 || is_separator(dir.last(), os == Os::Windows) || (os == Os::Windows
        && is_drive(dir)) {
        dir + relative
    } else if os == Os::Windows {
        dir + "\\"@ + relative
    } else {
        dir + "/"@ + relative
    }
}

/// The path of `relative` under `dir`.
pub fn path_under(os: Os, dir: &str, relative: &str) -> (path: String)
    ensures
        path@ == under(os, dir@, relative@),
{
    let chars = chars_of(dir);
    let windows = os == Os::Windows;
    let mut path = dir.to_owned();
    assert(chars@.len() == 2 ==> chars@.take(2) =~= dir@);
    let bare_drive = windows && chars.len() == 2 && starts_with_drive(&chars);
    if chars.len() > 0 && !separator(chars[chars.len() - 1], windows) && !bare_drive {
        path.append(if windows { "\\" } else { "/" });
    }
    path.append(relative);
    path
}

/// A name that is one component of a path on every system.
pub open spec fn is_plain_name(name: Seq<char>) -> bool {
    &&& name.len() > 0
    &&& name != "."@
    &&& name != ".."@
    &&& forall|i: int|
        0 <= i < name.len() ==> {
            let c = #[trigger] name[i];
            c != '/' && c != '\\' && c != ':'
        }
}

/// A path that stands for a place in whatever directory it is seen from: it
/// starts neither with a separator nor with a drive.
pub open spec fn is_relative(path: Seq<char>) -> bool {
    &&& path.len() > 0
    &&& !is_separator(path[0], true)
    &&& path.len() > 1 ==> path[1] != ':'
}

/// `path` is `dir` and `name` after it, with the system's separator between
/// them where one is needed: not after a separator, nor on Windows after a bare
/// drive.
pub open spec fn joins(dir: Seq<char>, name: Seq<char>, path: Seq<char>) -> bool {
    if dir.len() == 0 || dir.last() == '/' {
        path == dir + name
    } else {
        ||| path == dir + "/"@ + name
        ||| path == dir + "\\"@ + name
        ||| (dir.last() == '\\' || is_drive(dir)) && path == dir + name
    }
}

/// `path` is what joining `name` to `dir` gives, as far as that is the same
/// everywhere. A relative name goes after the directory; any other takes the
/// place of some or all of it where its system reads it so. Of a directory that
/// starts with `\\?\`, which Windows writes anew, it is known for plain names
/// that the path still starts so and ends in the name.
pub open spec fn adjoins(dir: Seq<char>, name: Seq<char>, path: Seq<char>) -> bool {
    if begins_with(dir, "\\\\?\\"@) {
        is_plain_name(name) ==> begins_with(path, "\\\\?\\"@) && ends_with(path, name)
    } else if is_relative(name) {
        joins(dir, name, path)
    } else {
        name.len() > 0 ==> joins(dir, name, path) || exists|kept: int|
            0 <= kept <= dir.len() && path == #[trigger] dir.take(kept) + name
    }
}

/// `path` is the plain name `name` joined to `dir`, as far as that is the same
/// everywhere.
pub open spec fn lies_in(dir: Seq<char>, name: Seq<char>, path: Seq<char>) -> bool {
    &&& ends_with(path, name)
    &&& !begins_with(dir, "\\\\?\\"@) ==> joins(dir, name, path)
    &&& begins_with(dir, "\\\\?\\"@) ==> begins_with(path, "\\\\?\\"@)
}

/// `Path::join` appends a relative path to a path, with the separator of the
/// system it runs on between the two unless the path is empty or ends in one
/// (or, on Windows, is a bare drive). A name that its system reads as absolute
/// replaces the path, and on Windows one that has a root but no drive replaces
/// all but the drive. Windows takes `.` and `..` out of a path that starts with
/// `\\?\` before it appends to it: of such a path it is stated that with a plain
/// name it still starts so and ends in the name, and with any other nothing is.
#[verifier::external_body]
pub(crate) fn join_path(dir: &str, name: &str) -> (path: String)
    ensures
        adjoins(dir@, name@, path@),
        is_plain_name(name@) ==> ends_with(path@, name@),
{
    std::path::Path::new(dir).join(name).to_string_lossy().into_owned()
}

/// A plain name joined to a directory is the last component of the path, and
/// the directory is what it lies in: by slashes on any system but Windows.
pub proof fn joined_name_lies_in_the_directory(dir: Seq<char>, name: Seq<char>, path: Seq<char>)
    requires
        is_plain_name(name),
        path == under(Os::Linux, dir, name),
    ensures
        last_component(path, PathStyle::Unix) == name,
        parent(path, PathStyle::Unix) == without_tail(dir, PathStyle::Unix),
{
    reveal_strlit("/");
    let marks = marks_of(path, PathStyle::Unix);
    if path != dir + name {
        assert(path.take(dir.len() as int) =~= dir);
        assert(path.skip(dir.len() as int + 1) =~= name);
    }
    joined_name_is_last(dir, name, path, marks, 0);
}

/// A plain name joined to a directory is the last component of the path, and
/// the directory is what it lies in: on Windows, where the directory is more
/// than the beginning of a prefix that the name would become part of.
pub proof fn joined_name_lies_in_the_windows_directory(
    dir: Seq<char>,
    name: Seq<char>,
    path: Seq<char>,
)
    requires
        is_plain_name(name),
        joins(dir, name, path),
        !begins_with(dir, "\\\\?\\"@),
        windows_prefix(path) == windows_prefix(dir),
    ensures
        last_component(path, PathStyle::Windows) == name,
        parent(path, PathStyle::Windows) == without_tail(dir, PathStyle::Windows),
{
    reveal_strlit("/");
    reveal_strlit("\\");
    reveal_strlit("\\\\?\\");
    let marks = marks_of(dir, PathStyle::Windows);
    let prefix = windows_prefix(dir);
    prefix_is_within(dir);
    prefix_is_within(path);
    assert(marks_of(path, PathStyle::Windows) == marks) by {
        if begins_with(path, "\\\\?\\"@) {
            assert(dir.len() >= 4);
            assert(path.subrange(0, 4) =~= dir.subrange(0, 4));
        }
    }
    if is_drive(dir) {
        assert(dir.take(2) =~= dir);
        assert(prefix == 2);
    }
    if path != dir + name {
        assert(path.take(dir.len() as int) =~= dir);
        assert(path.skip(dir.len() as int + 1) =~= name);
    }
    joined_name_is_last(dir, name, path, marks, prefix);
}

/// A prefix is part of its path, and a literal one is four characters at least.
proof fn prefix_is_within(path: Seq<char>)
    ensures
        windows_prefix(path) <= path.len(),
        begins_with(path, "\\\\?\\"@) ==> windows_prefix(path) >= 4,
{
    reveal_strlit("\\\\?\\");
    reveal_strlit("\\\\?\\UNC\\");
    let marks = marks_of(path, PathStyle::Windows);
    component_end_is_within(path, 8, marks);
    component_end_is_within(path, component_end(path, 8, marks) + 1, marks);
    component_end_is_within(path, 4, marks);
    component_end_is_within(path, 2, marks);
    component_end_is_within(path, component_end(path, 2, marks) + 1, marks);
}

/// A component ends within its path, and no earlier than it starts.
proof fn component_end_is_within(path: Seq<char>, from: nat, marks: Marks)
    ensures
        component_end(path, from, marks) <= path.len(),
        from <= path.len() ==> component_end(path, from, marks) >= from,
    decreases path.len() - from,
{
    if from < path.len() && !is_mark(path[from as int], marks) {
        component_end_is_within(path, from + 1, marks);
    }
}

/// A plain name after a directory, with a separator between them or right after
/// the prefix, is the last component, and the directory is what it lies in.
proof fn joined_name_is_last(
    dir: Seq<char>,
    name: Seq<char>,
    path: Seq<char>,
    marks: Marks,
    prefix: nat,
)
    requires
        is_plain_name(name),
        prefix <= dir.len(),
        path == dir + name || (path.len() == dir.len() + 1 + name.len() && path.take(
            dir.len() as int,
        ) == dir && path.skip(dir.len() as int + 1) == name && is_mark(path[dir.len() as int], marks)),
        path == dir + name ==> dir.len() == prefix || is_mark(dir.last(), marks),
    ensures
        ({
            let whole = without_marks(path, marks, prefix);
            let start = last_start(whole, marks, prefix) as int;
            &&& whole.skip(start) == name
            &&& without_marks(whole.take(start), marks, prefix) == without_marks(
                dir,
                marks,
                prefix,
            )
        }),
{
    reveal_strlit(".");
    let start = (path.len() - name.len()) as nat;
    assert(path.skip(start as int) =~= name);
    assert(path.last() == name.last());
    if path.last() == '.' && path.len() > prefix + 1 && is_mark(path[path.len() - 2], marks) {
        assert(name.len() == 1) by {
            if name.len() > 1 {
                assert(path[path.len() - 2] == name[name.len() - 2]);
            }
        }
        assert(name =~= "."@);
    }
    assert(without_marks(path, marks, prefix) == path);
    assert forall|i: int| start <= i < path.len() implies !is_mark(#[trigger] path[i], marks) by {
        assert(path[i] == name[i - start]);
    }
    let front = path.take(start as int);
    if path == dir + name {
        assert(front =~= dir);
    } else {
        assert(front.drop_last() =~= dir);
    }
    last_start_is(path, start, marks, prefix);
}

/// Where the last component starts, told by what stands before and in it.
proof fn last_start_is(path: Seq<char>, start: nat, marks: Marks, prefix: nat)
    requires
        prefix <= start <= path.len(),
        start == prefix || is_mark(path[start - 1], marks),
        forall|i: int| start <= i < path.len() ==> !is_mark(#[trigger] path[i], marks),
    ensures
        last_start(path, marks, prefix) == start,
    decreases path.len(),
{
    if start < path.len() {
        let rest = path.drop_last();
        assert(forall|i: int| 0 <= i < rest.len() ==> rest[i] == path[i]);
        last_start_is(rest, start, marks, prefix);
    }
}

} // verus!
