//! Paths as text: components between `/`, parents, children, prefixes.
//!
//! A path is read as a list of components. An absolute path starts with the
//! root, written `/`. After it come the names between separators; empty names
//! and the name `.` are passed over, except a `.` that opens a relative path.

use crate::text::{append, chars_eq, pieces, split, views, Sep};
use vstd::prelude::*;

verus! {

/// The name `.`.
pub open spec fn dot() -> Seq<char> {
    seq!['.']
}

/// The name `..`.
pub open spec fn dot_dot() -> Seq<char> {
    seq!['.', '.']
}

/// The root component, and the separator.
pub open spec fn slash() -> Seq<char> {
    seq!['/']
}

/// A path is absolute when it starts with `/`.
pub open spec fn is_absolute(path: Seq<char>) -> bool {
    path.len() > 0 && path[0] == '/'
}

/// The names that count among `parts`: every part but `.`, and a `.` that
/// stands first in a relative path.
pub open spec fn kept(parts: Seq<Seq<char>>, relative: bool) -> Seq<Seq<char>>
    decreases parts.len(),
{
    if parts.len() == 0 {
        Seq::empty()
    } else {
        let init = kept(parts.drop_last(), relative);
        if parts.last() == dot() && !(relative && parts.len() == 1) {
            init
        } else {
            init.push(parts.last())
        }
    }
}

/// The names of a path, without the root.
pub open spec fn names(path: Seq<char>) -> Seq<Seq<char>> {
    kept(pieces(path, Sep::Slash, false), !is_absolute(path))
}

/// The components of a path: the root if the path is absolute, then its
/// names.
pub open spec fn components(path: Seq<char>) -> Seq<Seq<char>> {
    if is_absolute(path) {
        seq![slash()] + names(path)
    } else {
        names(path)
    }
}

/// The last component, where it is a name other than `.` and `..`.
pub open spec fn file_name(path: Seq<char>) -> Option<Seq<char>> {
    let parts = components(path);
    if parts.len() == 0 || parts.last() == slash() || parts.last() == dot() || parts.last()
        == dot_dot() {
        None
    } else {
        Some(parts.last())
    }
}

/// Where the names of a path start: after the root of an absolute path,
/// after the `.` that opens a relative path, else at the start.
pub open spec fn body_start(path: Seq<char>) -> int {
    if is_absolute(path) {
        1
    } else if path.len() > 0 && path[0] == '.' && (path.len() == 1 || path[1] == '/') {
        1
    } else {
        0
    }
}

/// Where the last piece of `path` before `end` starts: after the last
/// separator at or after `start`, or at `start`.
pub open spec fn piece_start(path: Seq<char>, start: int, end: int) -> int
    decreases end,
{
    if end <= start || end <= 0 {
        start
    } else if path[end - 1] == '/' {
        end
    } else {
        piece_start(path, start, end - 1)
    }
}

/// The end of `path` before `end` once the separators and the pieces `.`
/// that end it are taken off, down to `start`.
pub open spec fn trimmed_end(path: Seq<char>, start: int, end: int) -> int
    decreases end,
{
    if end <= start || start < 0 {
        end
    } else if path[end - 1] == '/' {
        trimmed_end(path, start, end - 1)
    } else if path[end - 1] == '.' && end - 1 == start {
        start
    } else if path[end - 1] == '.' && path[end - 2] == '/' {
        trimmed_end(path, start, end - 2)
    } else {
        end
    }
}

/// The path without its last component: the text of the path up to that
/// component, without the separators and the pieces `.` that then end it.
/// The root and the empty path have no parent; the parent of a path that is
/// only `.` is the empty path.
pub open spec fn parent(path: Seq<char>) -> Option<Seq<char>> {
    let start = body_start(path);
    let end = trimmed_end(path, start, path.len() as int);
    if end > start {
        let at = piece_start(path, start, end);
        let cut = if at > start {
            at - 1
        } else {
            at
        };
        Some(path.take(trimmed_end(path, start, cut)))
    } else if !is_absolute(path) && start == 1 {
        Some(Seq::empty())
    } else {
        None
    }
}

/// A path that ends with its last component: it is the root, or it ends
/// neither with a separator nor with the piece `.`.
pub open spec fn ends_with_component(path: Seq<char>) -> bool {
    ||| path == slash()
    ||| path.len() == 0
    ||| path == dot()
    ||| (path.last() != '/' && !(path.len() >= 2 && path.last() == '.' && path[path.len() - 2]
        == '/'))
}

/// `name` put under `path`. An absolute `name` stands for itself.
pub open spec fn child(path: Seq<char>, name: Seq<char>) -> Seq<char> {
    if is_absolute(name) {
        name
    } else if path.len() == 0 || path.last() == '/' {
        path + name
    } else {
        path + slash() + name
    }
}

/// `base` leads to `path`: the components of `base` are the first
/// components of `path`.
pub open spec fn starts_with(path: Seq<char>, base: Seq<char>) -> bool {
    components(base).is_prefix_of(components(path))
}

/// Whether `path` is absolute.
pub fn path_is_absolute(path: &Vec<char>) -> (r: bool)
    ensures
        r == is_absolute(path@),
{
    path.len() > 0 && path[0] == '/'
}

/// Whether `part` is the name `.`.
fn is_dot(part: &Vec<char>) -> (r: bool)
    ensures
        r == (part@ == dot()),
{
    let r = part.len() == 1 && part[0] == '.';
    proof {
        if r {
            assert(part@ =~= dot());
        }
    }
    r
}

/// Whether `part` is the name `..`.
fn is_dot_dot(part: &Vec<char>) -> (r: bool)
    ensures
        r == (part@ == dot_dot()),
{
    let r = part.len() == 2 && part[0] == '.' && part[1] == '.';
    proof {
        if r {
            assert(part@ =~= dot_dot());
        }
    }
    r
}

/// Whether `part` is the root.
fn is_slash(part: &Vec<char>) -> (r: bool)
    ensures
        r == (part@ == slash()),
{
    let r = part.len() == 1 && part[0] == '/';
    proof {
        if r {
            assert(part@ =~= slash());
        }
    }
    r
}

/// The components of `path`.
pub fn split_components(path: &Vec<char>) -> (r: Vec<Vec<char>>)
    ensures
        views(r@) == components(path@),
{
    let absolute = path_is_absolute(path);
    let mut parts = split(path, Sep::Slash, false);
    let ghost all = views(parts@);
    let ghost head: Seq<Seq<char>> = if absolute {
        seq![slash()]
    } else {
        Seq::empty()
    };
    let mut out: Vec<Vec<char>> = Vec::new();
    if absolute {
        let mut root: Vec<char> = Vec::new();
        root.push('/');
        assert(root@ =~= slash());
        out.push(root);
    }
    assert(views(out@) =~= head);
    let n: usize = parts.len();
    let mut i: usize = 0;
    while i < n
        invariant
            i <= n,
            n == parts@.len(),
            all.len() == n,
            forall|j: int| i <= j < n ==> (#[trigger] parts@[j])@ == all[j],
            views(out@) == head + kept(all.take(i as int), !absolute),
        decreases n - i,
    {
        proof {
            assert(all.take(i + 1).drop_last() == all.take(i as int));
            assert(all.take(i + 1).last() == all[i as int]);
        }
        let mut part: Vec<char> = Vec::new();
        std::mem::swap(&mut parts[i], &mut part);
        if is_dot(&part) && !(!absolute && i == 0) {
        } else {
            let ghost before = views(out@);
            out.push(part);
            assert(views(out@) == before.push(part@));
            assert(before.push(part@) =~= head + kept(all.take(i as int), !absolute).push(part@));
        }
        i = i + 1;
    }
    assert(all.take(n as int) == all);
    out
}

/// The last component of `path`, where it is a name other than `.` and
/// `..`.
pub fn path_file_name(path: &Vec<char>) -> (r: Option<Vec<char>>)
    ensures
        match r {
            Some(name) => file_name(path@) == Some(name@),
            None => file_name(path@).is_none(),
        },
{
    let mut parts = split_components(path);
    match parts.pop() {
        None => None,
        Some(last) => {
            if is_slash(&last) || is_dot(&last) || is_dot_dot(&last) {
                None
            } else {
                Some(last)
            }
        },
    }
}

/// Where the names of `path` start.
fn find_body_start(path: &Vec<char>) -> (r: usize)
    ensures
        r == body_start(path@),
        r <= path@.len(),
        r <= 1,
{
    if path.len() > 0 && path[0] == '/' {
        1
    } else if path.len() > 0 && path[0] == '.' && (path.len() == 1 || path[1] == '/') {
        1
    } else {
        0
    }
}

/// Where the last piece of `path` before `end` starts.
fn find_piece_start(path: &Vec<char>, start: usize, end: usize) -> (r: usize)
    requires
        start <= end <= path@.len(),
    ensures
        r == piece_start(path@, start as int, end as int),
        start <= r <= end,
{
    let mut at: usize = end;
    while at > start && path[at - 1] != '/'
        invariant
            start <= at <= end <= path@.len(),
            piece_start(path@, start as int, end as int) == piece_start(
                path@,
                start as int,
                at as int,
            ),
        decreases at,
    {
        at = at - 1;
    }
    at
}

/// The end of `path` before `end` without the separators and the pieces
/// `.` that end it.
fn find_trimmed_end(path: &Vec<char>, start: usize, end: usize) -> (r: usize)
    requires
        start <= end <= path@.len(),
    ensures
        r == trimmed_end(path@, start as int, end as int),
        start <= r <= end,
{
    let mut at: usize = end;
    loop
        invariant
            start <= at <= end <= path@.len(),
            trimmed_end(path@, start as int, end as int) == trimmed_end(
                path@,
                start as int,
                at as int,
            ),
        ensures
            start <= at <= end,
            at == trimmed_end(path@, start as int, end as int),
        decreases at,
    {
        if at <= start {
            break ;
        }
        if path[at - 1] == '/' {
            at = at - 1;
        } else if path[at - 1] == '.' && at - 1 == start {
            at = start;
            break ;
        } else if path[at - 1] == '.' && path[at - 2] == '/' {
            at = at - 2;
        } else {
            break ;
        }
    }
    at
}

/// The path without its last component.
pub fn path_parent(path: &Vec<char>) -> (r: Option<Vec<char>>)
    ensures
        match r {
            Some(p) => parent(path@) == Some(p@),
            None => parent(path@).is_none(),
        },
{
    let start = find_body_start(path);
    let end = find_trimmed_end(path, start, path.len());
    if end > start {
        let at = find_piece_start(path, start, end);
        let cut: usize = if at > start {
            at - 1
        } else {
            at
        };
        let keep = find_trimmed_end(path, start, cut);
        Some(crate::text::slice(path, 0, keep))
    } else if !(path.len() > 0 && path[0] == '/') && start == 1 {
        Some(Vec::new())
    } else {
        None
    }
}

/// `name` put under `path`.
pub fn path_child(path: &Vec<char>, name: &Vec<char>) -> (r: Vec<char>)
    ensures
        r@ == child(path@, name@),
{
    let mut out: Vec<char> = Vec::new();
    if path_is_absolute(name) {
        append(&mut out, name);
        assert(out@ =~= name@);
    } else if path.len() == 0 || path[path.len() - 1] == '/' {
        append(&mut out, path);
        append(&mut out, name);
    } else {
        append(&mut out, path);
        out.push('/');
        append(&mut out, name);
        assert(out@ =~= path@ + slash() + name@);
    }
    out
}

/// Whether `base` leads to `path`.
pub fn path_starts_with(path: &Vec<char>, base: &Vec<char>) -> (r: bool)
    ensures
        r == starts_with(path@, base@),
{
    let a = split_components(path);
    let b = split_components(base);
    if b.len() > a.len() {
        return false;
    }
    let mut i: usize = 0;
    while i < b.len()
        invariant
            i <= b.len() <= a.len(),
            views(a@) == components(path@),
            views(b@) == components(base@),
            forall|j: int| 0 <= j < i ==> views(a@)[j] == views(b@)[j],
        decreases b.len() - i,
    {
        if !chars_eq(&a[i], &b[i]) {
            assert(views(a@).subrange(0, b.len() as int)[i as int] != views(b@)[i as int]);
            return false;
        }
        i = i + 1;
    }
    assert(views(b@) =~= views(a@).subrange(0, b.len() as int));
    true
}

/// Whether two paths have the same components.
pub fn same_components(a: &Vec<char>, b: &Vec<char>) -> (r: bool)
    ensures
        r == (components(a@) == components(b@)),
{
    let x = split_components(a);
    let y = split_components(b);
    if x.len() != y.len() {
        assert(views(x@).len() != views(y@).len());
        return false;
    }
    let mut i: usize = 0;
    while i < x.len()
        invariant
            i <= x.len(),
            x.len() == y.len(),
            views(x@) == components(a@),
            views(y@) == components(b@),
            forall|j: int| 0 <= j < i ==> views(x@)[j] == views(y@)[j],
        decreases x.len() - i,
    {
        if !chars_eq(&x[i], &y[i]) {
            assert(views(x@)[i as int] != views(y@)[i as int]);
            return false;
        }
        i = i + 1;
    }
    assert(views(x@) =~= views(y@));
    true
}

/// How many components `path` has.
pub fn component_count(path: &Vec<char>) -> (r: usize)
    ensures
        r == components(path@).len(),
{
    let parts = split_components(path);
    parts.len()
}

/// The position of the last `.` of `name` that parts an extension from a
/// stem: there is none in `..`, and a `.` at the start does not count.
pub open spec fn extension_dot(name: Seq<char>) -> Option<int> {
    if name == dot_dot() {
        None
    } else if exists|i: int| 0 < i < name.len() && name[i] == '.' {
        Some(last_dot(name, name.len() as int))
    } else {
        None
    }
}

/// The position of the last `.` of `name` before `end`, or -1.
pub open spec fn last_dot(name: Seq<char>, end: int) -> int
    decreases end,
{
    if end <= 0 {
        -1
    } else if name[end - 1] == '.' {
        end - 1
    } else {
        last_dot(name, end - 1)
    }
}

/// What `last_dot` finds is the last `.` before `end`.
pub proof fn lemma_last_dot(name: Seq<char>, end: int)
    requires
        0 <= end <= name.len(),
    ensures
        -1 <= last_dot(name, end) < end,
        last_dot(name, end) >= 0 ==> name[last_dot(name, end)] == '.',
        forall|j: int| last_dot(name, end) < j < end ==> name[j] != '.',
    decreases end,
{
    if end > 0 && name[end - 1] != '.' {
        lemma_last_dot(name, end - 1);
    }
}

/// The name without its extension.
pub open spec fn file_stem(name: Seq<char>) -> Seq<char> {
    match extension_dot(name) {
        Some(i) => name.subrange(0, i),
        None => name,
    }
}

/// The extension of the name, without its `.`.
pub open spec fn extension(name: Seq<char>) -> Option<Seq<char>> {
    match extension_dot(name) {
        Some(i) => Some(name.subrange(i + 1, name.len() as int)),
        None => None,
    }
}

/// Where the extension of `name` starts, if it has one.
pub fn find_extension_dot(name: &Vec<char>) -> (r: Option<usize>)
    ensures
        match r {
            Some(i) => extension_dot(name@) == Some(i as int) && 0 < i < name@.len(),
            None => extension_dot(name@).is_none(),
        },
{
    if is_dot_dot(name) {
        return None;
    }
    let mut end: usize = name.len();
    while end > 1
        invariant
            end <= name.len(),
            name@ != dot_dot(),
            forall|j: int| end <= j < name@.len() ==> name@[j] != '.',
        decreases end,
    {
        if name[end - 1] == '.' {
            proof {
                let at = end - 1;
                lemma_last_dot(name@, name@.len() as int);
                let found = last_dot(name@, name@.len() as int);
                assert(0 < at < name@.len() && name@[at] == '.');
                if found < at {
                    assert(name@[at] != '.');
                }
                if found > at {
                    assert(name@[found] == '.');
                    assert(name@[found] != '.');
                }
                assert(found == at);
            }
            return Some(end - 1);
        }
        end = end - 1;
    }
    proof {
        if exists|i: int| 0 < i < name@.len() && name@[i] == '.' {
            let i = choose|i: int| 0 < i < name@.len() && name@[i] == '.';
            assert(i >= end);
        }
    }
    None
}

/// A name without separators that is neither empty nor `.`, put under a
/// path, adds one component to it.
pub proof fn lemma_child_components(path: Seq<char>, name: Seq<char>)
    requires
        name.len() > 0,
        name != dot(),
        forall|i: int| 0 <= i < name.len() ==> name[i] != '/',
    ensures
        components(child(path, name)) == components(path).push(name),
{
    let whole = child(path, name);
    let base: Seq<char> = if path.len() == 0 || path.last() == '/' {
        path
    } else {
        path + slash()
    };
    assert(whole == base + name);
    lemma_scan_closed(path);
    lemma_scan_name(base, name, name.len() as int);
    assert((base + name).take((base.len() + name.len()) as int) == base + name);
    assert(name.take(name.len() as int) == name);
    let parts = pieces(path, Sep::Slash, false);
    assert(pieces(whole, Sep::Slash, false) == parts.push(name));
    assert(parts.push(name).drop_last() == parts);
    if path.len() == 0 {
        assert(whole =~= name);
        assert(!is_absolute(whole));
    } else {
        assert(whole[0] == path[0]);
    }
    assert(is_absolute(whole) == is_absolute(path));
    if !is_absolute(path) && parts.len() == 0 {
        assert(kept(parts.push(name), true) == kept(parts, true).push(name));
    }
    assert(names(whole) == names(path).push(name));
    if is_absolute(path) {
        assert(seq![slash()] + names(path).push(name) =~= (seq![slash()] + names(path)).push(name));
    }
}

/// After a separator nothing is open, and the pieces are those of the path
/// before it.
proof fn lemma_scan_closed(path: Seq<char>)
    ensures
        path.len() > 0 && path.last() == '/' ==> crate::text::scan(path, Sep::Slash, false) == (
            pieces(path, Sep::Slash, false),
            Seq::<char>::empty(),
        ),
        crate::text::scan(path + slash(), Sep::Slash, false) == (
            pieces(path, Sep::Slash, false),
            Seq::<char>::empty(),
        ),
        crate::text::scan(Seq::<char>::empty(), Sep::Slash, false) == (
            pieces(Seq::<char>::empty(), Sep::Slash, false),
            Seq::<char>::empty(),
        ),
{
    assert((path + slash()).drop_last() == path);
    assert((path + slash()).last() == '/');
}

/// Reading a name after a closed piece leaves the name open.
proof fn lemma_scan_name(base: Seq<char>, name: Seq<char>, n: int)
    requires
        0 <= n <= name.len(),
        forall|i: int| 0 <= i < name.len() ==> name[i] != '/',
        crate::text::scan(base, Sep::Slash, false).1.len() == 0,
    ensures
        crate::text::scan((base + name).take(base.len() + n), Sep::Slash, false) == (
            crate::text::scan(base, Sep::Slash, false).0,
            name.take(n),
        ),
    decreases n,
{
    let cur = (base + name).take(base.len() + n);
    if n == 0 {
        assert(cur == base);
        assert(name.take(0) == Seq::<char>::empty());
        assert(crate::text::scan(base, Sep::Slash, false).1 == Seq::<char>::empty());
    } else {
        lemma_scan_name(base, name, n - 1);
        assert(cur.drop_last() == (base + name).take(base.len() + n - 1));
        assert(cur.last() == name[n - 1]);
        assert(name.take(n) == name.take(n - 1).push(name[n - 1]));
    }
}

/// The piece that ends a text is the run of characters without a separator
/// that ends it.
proof fn lemma_piece_start_of_name(q: Seq<char>, start: int, at: int, end: int)
    requires
        0 <= start <= at <= end <= q.len(),
        at == start || q[at - 1] == '/',
        forall|i: int| at <= i < end ==> q[i] != '/',
    ensures
        piece_start(q, start, end) == at,
    decreases end - at,
{
    if end > at {
        lemma_piece_start_of_name(q, start, at, end - 1);
    }
}

/// What is taken off the end of a text depends on the text before that
/// end alone.
proof fn lemma_trimmed_end_of_prefix(a: Seq<char>, b: Seq<char>, start: int, end: int)
    requires
        0 <= end <= a.len(),
        end <= b.len(),
        forall|i: int| 0 <= i < end ==> a[i] == b[i],
    ensures
        trimmed_end(a, start, end) == trimmed_end(b, start, end),
    decreases end,
{
    if end <= start || start < 0 {
    } else if a[end - 1] == '/' {
        lemma_trimmed_end_of_prefix(a, b, start, end - 1);
    } else if a[end - 1] == '.' && end - 1 == start {
    } else if a[end - 1] == '.' && a[end - 2] == '/' {
        lemma_trimmed_end_of_prefix(a, b, start, end - 2);
    }
}

/// The name of a child is the file name of the child: for a name without
/// separators that is neither empty nor `.` nor `..`.
pub proof fn lemma_child_file_name(path: Seq<char>, name: Seq<char>)
    requires
        name.len() > 0,
        name != dot(),
        name != dot_dot(),
        forall|i: int| 0 <= i < name.len() ==> name[i] != '/',
    ensures
        file_name(child(path, name)) == Some(name),
{
    lemma_child_components(path, name);
    assert(name != slash()) by {
        if name == slash() {
            assert(name[0] == '/');
        }
    }
}

/// The parent of a child is the path itself: for a path that ends with its
/// last component, and a name without separators that is neither empty nor
/// `.`.
pub proof fn lemma_child_parent(path: Seq<char>, name: Seq<char>)
    requires
        ends_with_component(path),
        name.len() > 0,
        name != dot(),
        forall|i: int| 0 <= i < name.len() ==> name[i] != '/',
    ensures
        parent(child(path, name)) == Some(path),
{
    let q = child(path, name);
    let n = path.len() as int;
    let joined = path.len() > 0 && path.last() != '/';
    assert(!is_absolute(name)) by {
        if is_absolute(name) {
            assert(name[0] == '/');
        }
    }
    if joined {
        assert(q == path + slash() + name);
    } else {
        assert(q == path + name);
    }
    let at = q.len() - name.len();
    assert forall|i: int| at <= i < q.len() implies q[i] != '/' by {
        assert(q[i] == name[i - at]);
    }
    assert forall|i: int| 0 <= i < n implies q[i] == path[i] by {}
    let start = body_start(q);
    // The names of the child start where those of the path do.
    assert(start == body_start(path)) by {
        if n == 0 {
            assert(q =~= name);
            if name[0] == '.' {
                if name.len() == 1 {
                    assert(name =~= dot());
                } else {
                    assert(name[1] != '/');
                }
            }
        } else if n == 1 {
            assert(q[0] == path[0]);
            if joined {
                assert(q[1] == '/');
            } else {
                assert(path[0] == '/');
            }
        } else {
            assert(q[0] == path[0]);
            assert(q[1] == path[1]);
        }
    }
    assert(0 <= start <= n);
    assert(start <= at);
    assert(at == start || q[at - 1] == '/') by {
        if joined {
            assert(q[at - 1] == '/');
        } else if n > 0 {
            assert(path.last() == '/');
            assert(q[at - 1] == path[n - 1]);
        }
    }
    // The child ends with its name.
    let end = q.len() as int;
    assert(trimmed_end(q, start, end) == end) by {
        assert(q[end - 1] == name[name.len() - 1]);
        if q[end - 1] == '.' {
            if name.len() == 1 {
                assert(name =~= dot());
            }
            assert(q[end - 2] == name[name.len() - 2]);
            assert(end - 1 > start);
        }
    }
    lemma_piece_start_of_name(q, start, at, end);
    let cut = if at > start {
        at - 1
    } else {
        at
    };
    assert(cut == n) by {
        if !joined && n > 0 {
            // A path that ends with a separator and with its last
            // component is the root.
            assert(path.last() == '/');
            assert(path == slash());
            assert(start == 1);
        }
    }
    // The path ends with its last component: nothing is taken off it.
    lemma_trimmed_end_of_prefix(q, path, start, n);
    assert(trimmed_end(path, start, n) == n) by {
        if n > start {
            assert(path.last() != '/');
            if path[n - 1] == '.' {
                if n - 1 == start {
                    if start == 0 {
                        assert(path =~= dot());
                    } else {
                        assert(path[0] == '/' || (path[0] == '.' && path[1] == '/'));
                    }
                }
            }
        }
    }
    assert(q.take(n) =~= path);
}

/// A path in bytes is absolute when it starts with `/`.
pub open spec fn bytes_absolute(path: Seq<u8>) -> bool {
    path.len() > 0 && path[0] == 0x2F
}

/// Where the names of a path in bytes start; see `body_start`.
pub open spec fn bytes_body_start(path: Seq<u8>) -> int {
    if bytes_absolute(path) {
        1
    } else if path.len() > 0 && path[0] == 0x2E && (path.len() == 1 || path[1] == 0x2F) {
        1
    } else {
        0
    }
}

/// Where the last piece of a path in bytes starts; see `piece_start`.
pub open spec fn bytes_piece_start(path: Seq<u8>, start: int, end: int) -> int
    decreases end,
{
    if end <= start || end <= 0 {
        start
    } else if path[end - 1] == 0x2F {
        end
    } else {
        bytes_piece_start(path, start, end - 1)
    }
}

/// The end of a path in bytes without the separators and the pieces `.`
/// that end it; see `trimmed_end`.
pub open spec fn bytes_trimmed_end(path: Seq<u8>, start: int, end: int) -> int
    decreases end,
{
    if end <= start || start < 0 {
        end
    } else if path[end - 1] == 0x2F {
        bytes_trimmed_end(path, start, end - 1)
    } else if path[end - 1] == 0x2E && end - 1 == start {
        start
    } else if path[end - 1] == 0x2E && path[end - 2] == 0x2F {
        bytes_trimmed_end(path, start, end - 2)
    } else {
        end
    }
}

/// The parent of a path in bytes: the same rule as `parent`, on the bytes
/// as the operating system holds them.
pub open spec fn parent_bytes(path: Seq<u8>) -> Option<Seq<u8>> {
    let start = bytes_body_start(path);
    let end = bytes_trimmed_end(path, start, path.len() as int);
    if end > start {
        let at = bytes_piece_start(path, start, end);
        let cut = if at > start {
            at - 1
        } else {
            at
        };
        Some(path.take(bytes_trimmed_end(path, start, cut)))
    } else if !bytes_absolute(path) && start == 1 {
        Some(Seq::empty())
    } else {
        None
    }
}

/// A name in bytes put under a path in bytes: the same rule as `child`.
pub open spec fn child_bytes(path: Seq<u8>, name: Seq<u8>) -> Seq<u8> {
    if bytes_absolute(name) {
        name
    } else if path.len() == 0 || path.last() == 0x2F {
        path + name
    } else {
        path + seq![0x2Fu8] + name
    }
}

/// Appends the bytes of `tail` to `out`.
fn append_bytes(out: &mut Vec<u8>, tail: &Vec<u8>)
    ensures
        final(out)@ == old(out)@ + tail@,
{
    let mut i: usize = 0;
    while i < tail.len()
        invariant
            i <= tail.len(),
            out@ == old(out)@ + tail@.take(i as int),
        decreases tail.len() - i,
    {
        out.push(tail[i]);
        i = i + 1;
    }
    assert(tail@.take(tail.len() as int) == tail@);
}

/// The end of a path in bytes without what is taken off it.
fn bytes_find_trimmed_end(path: &Vec<u8>, start: usize, end: usize) -> (r: usize)
    requires
        start <= end <= path@.len(),
    ensures
        r == bytes_trimmed_end(path@, start as int, end as int),
        start <= r <= end,
{
    let mut at: usize = end;
    loop
        invariant
            start <= at <= end <= path@.len(),
            bytes_trimmed_end(path@, start as int, end as int) == bytes_trimmed_end(
                path@,
                start as int,
                at as int,
            ),
        ensures
            start <= at <= end,
            at == bytes_trimmed_end(path@, start as int, end as int),
        decreases at,
    {
        if at <= start {
            break ;
        }
        if path[at - 1] == 0x2F {
            at = at - 1;
        } else if path[at - 1] == 0x2E && at - 1 == start {
            at = start;
            break ;
        } else if path[at - 1] == 0x2E && path[at - 2] == 0x2F {
            at = at - 2;
        } else {
            break ;
        }
    }
    at
}

/// The parent of a path in bytes.
pub fn bytes_parent(path: &Vec<u8>) -> (r: Option<Vec<u8>>)
    ensures
        match r {
            Some(p) => parent_bytes(path@) == Some(p@),
            None => parent_bytes(path@).is_none(),
        },
{
    let absolute = path.len() > 0 && path[0] == 0x2F;
    let start: usize = if absolute {
        1
    } else if path.len() > 0 && path[0] == 0x2E && (path.len() == 1 || path[1] == 0x2F) {
        1
    } else {
        0
    };
    let end = bytes_find_trimmed_end(path, start, path.len());
    if end > start {
        let mut at: usize = end;
        while at > start && path[at - 1] != 0x2F
            invariant
                start <= at <= end <= path@.len(),
                bytes_piece_start(path@, start as int, end as int) == bytes_piece_start(
                    path@,
                    start as int,
                    at as int,
                ),
            decreases at,
        {
            at = at - 1;
        }
        let cut: usize = if at > start {
            at - 1
        } else {
            at
        };
        let keep = bytes_find_trimmed_end(path, start, cut);
        let mut out: Vec<u8> = Vec::new();
        let mut i: usize = 0;
        while i < keep
            invariant
                i <= keep <= path@.len(),
                out@ == path@.take(i as int),
            decreases keep - i,
        {
            out.push(path[i]);
            i = i + 1;
        }
        Some(out)
    } else if !absolute && start == 1 {
        Some(Vec::new())
    } else {
        None
    }
}

/// A name in bytes put under a path in bytes.
pub fn bytes_child(path: &Vec<u8>, name: &Vec<u8>) -> (r: Vec<u8>)
    ensures
        r@ == child_bytes(path@, name@),
{
    let mut out: Vec<u8> = Vec::new();
    if name.len() > 0 && name[0] == 0x2F {
        append_bytes(&mut out, name);
        assert(out@ =~= name@);
    } else if path.len() == 0 || path[path.len() - 1] == 0x2F {
        append_bytes(&mut out, path);
        append_bytes(&mut out, name);
    } else {
        append_bytes(&mut out, path);
        out.push(0x2F);
        append_bytes(&mut out, name);
        assert(out@ =~= path@ + seq![0x2Fu8] + name@);
    }
    out
}

} // verus!
