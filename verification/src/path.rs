//! Lexical operations on slash-separated paths.
//!
//! A path is a string. Nothing here looks at a file system: whether a path names anything is
//! for the caller to find out.

use vstd::prelude::*;

use crate::text;

verus! {

/// What a path leads to, as far as the rules of this library distinguish it.
#[derive(Debug, Clone, Copy, PartialEq, Eq, Structural)]
pub enum PathKind {
    Missing,
    File,
    Directory,
    Other,
}

impl PathKind {
    /// Whether the path leads to anything.
    pub open spec fn found(self) -> bool {
        !(self is Missing)
    }

    pub fn is_found(&self) -> (r: bool)
        ensures
            r == self.found(),
    {
        match self {
            PathKind::Missing => false,
            _ => true,
        }
    }

    pub fn is_file(&self) -> (r: bool)
        ensures
            r == (*self is File),
    {
        match self {
            PathKind::File => true,
            _ => false,
        }
    }

    pub fn is_dir(&self) -> (r: bool)
        ensures
            r == (*self is Directory),
    {
        match self {
            PathKind::Directory => true,
            _ => false,
        }
    }
}

/// One component of a path.
#[derive(Debug, PartialEq, Eq)]
pub enum Component {
    RootDir,
    CurDir,
    ParentDir,
    Normal(String),
}

/// What a `Component` stands for.
pub enum Part {
    Root,
    Cur,
    Up,
    Name(Seq<char>),
}

impl Component {
    pub open spec fn part(self) -> Part {
        match self {
            Component::RootDir => Part::Root,
            Component::CurDir => Part::Cur,
            Component::ParentDir => Part::Up,
            Component::Normal(name) => Part::Name(name@),
        }
    }
}

/// The parts that a list of components stands for.
pub open spec fn parts_of(components: Seq<Component>) -> Seq<Part> {
    components.map_values(|c: Component| c.part())
}

/// A path is absolute when it starts at the root.
pub open spec fn absolute(path: Seq<char>) -> bool {
    path.len() > 0 && path[0] == '/'
}

pub fn is_absolute(path: &str) -> (r: bool)
    ensures
        r == absolute(path@),
{
    path.unicode_len() > 0 && path.get_char(0) == '/'
}

/// The current directory as a path component.
pub open spec fn dot(piece: Seq<char>) -> bool {
    piece == seq!['.']
}

/// The parent directory as a path component.
pub open spec fn dot_dot(piece: Seq<char>) -> bool {
    piece == seq!['.', '.']
}

/// The parts that the pieces between slashes stand for. Empty pieces and single dots stand for
/// nothing.
pub open spec fn body_parts(pieces: Seq<Seq<char>>) -> Seq<Part>
    decreases pieces.len(),
{
    if pieces.len() == 0 {
        seq![]
    } else {
        let before = body_parts(pieces.drop_last());
        let piece = pieces.last();
        if piece.len() == 0 || dot(piece) {
            before
        } else if dot_dot(piece) {
            before.push(Part::Up)
        } else {
            before.push(Part::Name(piece))
        }
    }
}

/// What stands before the body of a path: the root, or a leading single dot.
pub open spec fn lead_parts(path: Seq<char>) -> Seq<Part> {
    if absolute(path) {
        seq![Part::Root]
    } else if dot(text::split_at_all(path, '/')[0]) {
        seq![Part::Cur]
    } else {
        seq![]
    }
}

/// The components of a path: repeated slashes, a trailing slash and single dots other than a
/// leading one are left out.
pub open spec fn parts(path: Seq<char>) -> Seq<Part> {
    lead_parts(path) + body_parts(text::split_at_all(path, '/'))
}

fn is_dot(piece: &str) -> (r: bool)
    ensures
        r == dot(piece@),
{
    let r = text::same(piece, ".");
    proof {
        reveal_strlit(".");
        assert("."@ =~= seq!['.']);
    }
    r
}

fn is_dot_dot(piece: &str) -> (r: bool)
    ensures
        r == dot_dot(piece@),
{
    let r = text::same(piece, "..");
    proof {
        reveal_strlit("..");
        assert(".."@ =~= seq!['.', '.']);
    }
    r
}

/// Splits a path into its components.
pub fn components(path: &str) -> (r: Vec<Component>)
    ensures
        parts_of(r@) == parts(path@),
{
    let pieces = text::split(path, '/');
    let mut out: Vec<Component> = Vec::new();
    let ghost all = text::split_at_all(path@, '/');
    assert(text::views(pieces@).len() == pieces@.len());
    assert(text::views(pieces@)[0] == pieces@[0]@);
    if is_absolute(path) {
        out.push(Component::RootDir);
    } else if is_dot(pieces[0].as_str()) {
        out.push(Component::CurDir);
    }
    assert(parts_of(out@) =~= lead_parts(path@));
    let mut i: usize = 0;
    assert(lead_parts(path@) + body_parts(all.take(0)) =~= lead_parts(path@));
    while i < pieces.len()
        invariant
            i <= pieces.len(),
            all == text::views(pieces@),
            all == text::split_at_all(path@, '/'),
            parts_of(out@) == lead_parts(path@) + body_parts(all.take(i as int)),
        decreases pieces.len() - i,
    {
        let piece = &pieces[i];
        let ghost before = out@;
        proof {
            assert(all.take(i + 1).drop_last() =~= all.take(i as int));
            assert(all.take(i + 1).last() == piece@);
        }
        if piece.as_str().is_empty() || is_dot(piece.as_str()) {
        } else if is_dot_dot(piece.as_str()) {
            out.push(Component::ParentDir);
            assert(parts_of(out@) =~= parts_of(before).push(Part::Up));
        } else {
            out.push(Component::Normal(piece.clone()));
            assert(parts_of(out@) =~= parts_of(before).push(Part::Name(piece@)));
        }
        assert(parts_of(out@) =~= lead_parts(path@) + body_parts(all.take(i + 1)));
        i = i + 1;
    }
    assert(all.take(i as int) =~= all);
    out
}

/// Whether one of a path's components is a single dot. Only a leading one counts.
pub fn has_cur_dir(path: &str) -> (r: bool)
    ensures
        r == parts(path@).contains(Part::Cur),
{
    let all = components(path);
    let mut i: usize = 0;
    while i < all.len()
        invariant
            i <= all.len(),
            parts_of(all@) == parts(path@),
            forall|j: int| 0 <= j < i ==> !(all@[j].part() is Cur),
        decreases all.len() - i,
    {
        if let Component::CurDir = &all[i] {
            assert(parts(path@)[i as int] == Part::Cur);
            return true;
        }
        i = i + 1;
    }
    assert forall|j: int| 0 <= j < parts(path@).len() implies parts(path@)[j] != Part::Cur by {
        assert(parts_of(all@)[j] == all@[j].part());
    }
    false
}

/// Whether one of a path's components is `..`.
pub fn has_parent_dir(path: &str) -> (r: bool)
    ensures
        r == parts(path@).contains(Part::Up),
{
    let all = components(path);
    let mut i: usize = 0;
    while i < all.len()
        invariant
            i <= all.len(),
            parts_of(all@) == parts(path@),
            forall|j: int| 0 <= j < i ==> !(all@[j].part() is Up),
        decreases all.len() - i,
    {
        if let Component::ParentDir = &all[i] {
            assert(parts(path@)[i as int] == Part::Up);
            return true;
        }
        i = i + 1;
    }
    assert forall|j: int| 0 <= j < parts(path@).len() implies parts(path@)[j] != Part::Up by {
        assert(parts_of(all@)[j] == all@[j].part());
    }
    false
}

proof fn lemma_body_parts(pieces: Seq<Seq<char>>)
    ensures
        forall|i: int|
            0 <= i < body_parts(pieces).len() ==> ((#[trigger] body_parts(pieces)[i]) is Up
                || body_parts(pieces)[i] is Name),
    decreases pieces.len(),
{
    if pieces.len() > 0 {
        lemma_body_parts(pieces.drop_last());
    }
}

/// The components of a relative path without a leading dot and without `..` are all names.
pub proof fn lemma_plain_path(path: Seq<char>)
    requires
        !absolute(path),
        !parts(path).contains(Part::Cur),
        !parts(path).contains(Part::Up),
    ensures
        forall|i: int| 0 <= i < parts(path).len() ==> (#[trigger] parts(path)[i]) is Name,
{
    let pieces = text::split_at_all(path, '/');
    lemma_body_parts(pieces);
    if dot(pieces[0]) {
        assert(parts(path)[0] == Part::Cur);
    }
    assert forall|i: int| 0 <= i < parts(path).len() implies (#[trigger] parts(path)[i]) is Name by {
        assert(parts(path)[i] == body_parts(pieces)[i]);
    }
}

/// `path` as seen from the directory `base`: an absolute path stays as it is.
pub open spec fn joined(base: Seq<char>, path: Seq<char>) -> Seq<char> {
    if absolute(path) {
        path
    } else if base.len() == 0 || base.last() == '/' {
        base + path
    } else {
        base.push('/') + path
    }
}

pub fn join(base: &str, path: &str) -> (r: String)
    ensures
        r@ == joined(base@, path@),
{
    if is_absolute(path) {
        return path.to_owned();
    }
    let n: usize = base.unicode_len();
    let mut out = base.to_owned();
    if n > 0 && base.get_char(n - 1) != '/' {
        out.push('/');
    }
    out.append(path);
    out
}

/// The name that a path ends in, unless it ends in `..` or has no component to name.
pub open spec fn last_name(path: Seq<char>) -> Option<Seq<char>> {
    let all = parts(path);
    if all.len() == 0 {
        None
    } else {
        match all.last() {
            Part::Name(name) => Some(name),
            _ => None,
        }
    }
}

pub fn file_name(path: &str) -> (r: Option<String>)
    ensures
        text::opt_view(r) == last_name(path@),
{
    let mut all = components(path);
    let ghost model = parts(path@);
    assert(parts_of(all@).len() == all@.len());
    if all.len() == 0 {
        return None;
    }
    assert(parts_of(all@).last() == all@.last().part());
    match all.pop() {
        Some(Component::Normal(name)) => Some(name),
        _ => None,
    }
}

/// The position of the last `c` in `s`, or -1.
pub open spec fn last_index(s: Seq<char>, c: char) -> int
    decreases s.len(),
{
    if s.len() == 0 {
        -1
    } else if s.last() == c {
        s.len() - 1
    } else {
        last_index(s.drop_last(), c)
    }
}

pub proof fn lemma_last_index(s: Seq<char>, c: char)
    ensures
        -1 <= last_index(s, c) < s.len(),
        last_index(s, c) >= 0 ==> s[last_index(s, c)] == c,
        forall|i: int| last_index(s, c) < i < s.len() ==> s[i] != c,
    decreases s.len(),
{
    if s.len() > 0 && s.last() != c {
        let t = s.drop_last();
        lemma_last_index(t, c);
        assert forall|i: int| last_index(s, c) < i < s.len() implies s[i] != c by {
            if i < s.len() - 1 {
                assert(t[i] == s[i]);
            }
        }
    }
}

/// The last position below `to` and not below `from` that holds `c`, plus one; `from` where
/// there is none.
fn after_last(v: &[char], from: usize, to: usize, c: char) -> (r: usize)
    requires
        from <= to <= v@.len(),
    ensures
        from <= r <= to,
        r == from + last_index(v@.subrange(from as int, to as int), c) + 1,
{
    let mut i: usize = to;
    while i > from && v[i - 1] != c
        invariant
            from <= i <= to <= v@.len(),
            last_index(v@.subrange(from as int, to as int), c) == last_index(
                v@.subrange(from as int, i as int),
                c,
            ),
        decreases i,
    {
        assert(v@.subrange(from as int, i as int).drop_last() =~= v@.subrange(from as int, i - 1));
        i = i - 1;
    }
    i
}

/// The part of a file name behind its last dot, unless the name's only dot is its first
/// character.
pub open spec fn name_extension(name: Seq<char>) -> Option<Seq<char>> {
    let i = last_index(name, '.');
    if i <= 0 {
        None
    } else {
        Some(name.skip(i + 1))
    }
}

/// The extension of the file that a path names.
pub open spec fn extension_of(path: Seq<char>) -> Option<Seq<char>> {
    match last_name(path) {
        Some(name) => name_extension(name),
        None => None,
    }
}

pub fn extension(path: &str) -> (r: Option<String>)
    ensures
        text::opt_view(r) == extension_of(path@),
{
    match file_name(path) {
        None => None,
        Some(name) => {
            let v = text::to_chars(name.as_str());
            assert(v@.subrange(0, v@.len() as int) =~= v@);
            let i: usize = after_last(&v, 0, v.len(), '.');
            if i <= 1 {
                None
            } else {
                Some(text::from_chars(&v, i, v.len()))
            }
        },
    }
}

/// How many characters of a path stand before its body: the root, or a leading single dot.
pub open spec fn body_start(path: Seq<char>) -> int {
    if absolute(path) || dot(path) || seq!['.', '/'].is_prefix_of(path) {
        1
    } else {
        0
    }
}

/// Where the last piece of a path begins. The body of the path begins at `start`.
pub open spec fn last_piece(path: Seq<char>, start: int) -> int {
    start + last_index(path.skip(start), '/') + 1
}

/// A path without its last piece and without the slash before it.
pub open spec fn without_last_piece(path: Seq<char>, start: int) -> Seq<char> {
    let k = last_piece(path, start);
    if k > start {
        path.take(k - 1)
    } else {
        path.take(start)
    }
}

/// A path without the trailing pieces that stand for nothing.
pub open spec fn without_idle_tail(path: Seq<char>, start: int) -> Seq<char>
    decreases path.len(),
{
    let piece = path.skip(last_piece(path, start));
    if path.len() > start && (piece.len() == 0 || dot(piece)) && without_last_piece(
        path,
        start,
    ).len() < path.len() {
        without_idle_tail(without_last_piece(path, start), start)
    } else {
        path
    }
}

/// The path without its final component, if it has one that is not the root.
pub open spec fn parent_of(path: Seq<char>) -> Option<Seq<char>> {
    let start = body_start(path);
    let kept = without_idle_tail(path, start);
    if kept.len() > start {
        Some(without_idle_tail(without_last_piece(kept, start), start))
    } else if absolute(path) || start == 0 {
        None
    } else {
        Some(seq![])
    }
}

/// Whether a piece of a path is a name: it holds no slash, and stands for something.
pub open spec fn plain(piece: Seq<char>) -> bool {
    piece.len() > 0 && !piece.contains('/') && !dot(piece)
}

/// A path that ends in a name has no idle tail.
proof fn lemma_ends_in_name(before: Seq<char>, name: Seq<char>, start: int)
    requires
        0 <= start <= before.len(),
        before.len() == start || before.last() == '/',
        plain(name),
    ensures
        last_piece(before + name, start) == before.len(),
        without_idle_tail(before + name, start) == before + name,
{
    let path = before + name;
    let body = path.skip(start);
    lemma_last_index(body, '/');
    let k = last_index(body, '/');
    assert(k < before.len() - start) by {
        if k >= before.len() - start {
            assert(name[k - (before.len() - start)] == '/');
        }
    }
    if before.len() > start {
        assert(body[before.len() - 1 - start] == '/');
    }
    assert(path.skip(before.len() as int) =~= name);
}

/// What is joined to a directory by its name lies in that directory.
pub proof fn lemma_parent_of_joined(base: Seq<char>, dir: Seq<char>, name: Seq<char>)
    requires
        plain(dir),
        plain(name),
    ensures
        parent_of(joined(joined(base, dir), name)) == Some(joined(base, dir)),
{
    assert(dir.contains(dir[0]) && dir.contains(dir.last()) && name.contains(name[0]));
    let before = if base.len() == 0 || base.last() == '/' {
        base
    } else {
        base.push('/')
    };
    let outer = joined(base, dir);
    let path = joined(outer, name);
    let start = body_start(path);
    assert(outer =~= before + dir);
    assert(outer.last() == dir.last());
    assert(path =~= outer.push('/') + name);
    assert(path[0] == outer[0]);
    assert(start <= before.len()) by {
        if before.len() == 0 {
            assert(path[0] == dir[0]);
            if seq!['.', '/'].is_prefix_of(path) {
                assert(path.subrange(0, 2)[0] == '.' && path.subrange(0, 2)[1] == '/');
                assert(path[0] == '.' && path[1] == '/');
                if dir.len() == 1 {
                    assert(dir =~= seq!['.']);
                } else {
                    assert(path[1] == dir[1]);
                    assert(dir.contains(dir[1]));
                }
            }
            assert(path.len() >= 2);
            assert(!dot(path));
        }
    }
    lemma_ends_in_name(outer.push('/'), name, start);
    lemma_ends_in_name(before, dir, start);
    assert(path.take(outer.len() as int) =~= outer);
}

/// Where the last piece of `v[..to]` begins.
fn piece_start(v: &[char], start: usize, to: usize) -> (r: usize)
    requires
        start <= to <= v@.len(),
    ensures
        start <= r <= to,
        r == last_piece(v@.take(to as int), start as int),
{
    let r: usize = after_last(v, start, to, '/');
    assert(v@.take(to as int).skip(start as int) =~= v@.subrange(start as int, to as int));
    r
}

/// Where `v[..to]` ends once its last piece is left out.
fn cut_last_piece(v: &[char], start: usize, to: usize) -> (r: usize)
    requires
        start <= to <= v@.len(),
    ensures
        start <= r <= to,
        v@.take(r as int) == without_last_piece(v@.take(to as int), start as int),
{
    let k: usize = piece_start(v, start, to);
    let r: usize = if k > start {
        k - 1
    } else {
        start
    };
    assert(v@.take(to as int).take(r as int) =~= v@.take(r as int));
    r
}

/// Where `v[..to]` ends once the trailing pieces that stand for nothing are left out.
fn cut_idle_tail(v: &[char], start: usize, to: usize) -> (r: usize)
    requires
        start <= to <= v@.len(),
    ensures
        start <= r <= to,
        v@.take(r as int) == without_idle_tail(v@.take(to as int), start as int),
{
    let mut end: usize = to;
    loop
        invariant
            start <= end <= to <= v@.len(),
            without_idle_tail(v@.take(to as int), start as int) == without_idle_tail(
                v@.take(end as int),
                start as int,
            ),
        decreases end,
    {
        if end == start {
            return end;
        }
        let k: usize = piece_start(v, start, end);
        let ghost piece = v@.take(end as int).skip(k as int);
        let idle = k == end || (k + 1 == end && v[k] == '.');
        proof {
            assert(piece.len() == end - k);
            assert(piece.len() > 0 ==> piece[0] == v@[k as int]);
            if k + 1 == end && v@[k as int] == '.' {
                assert(piece =~= seq!['.']);
            }
            assert(idle == (piece.len() == 0 || dot(piece)));
        }
        if !idle {
            return end;
        }
        end = cut_last_piece(v, start, end);
    }
}

/// The directory that a path lies in, by its text alone.
pub fn parent(path: &str) -> (r: Option<String>)
    ensures
        text::opt_view(r) == parent_of(path@),
{
    let v = text::to_chars(path);
    let n: usize = v.len();
    let rooted = n > 0 && v[0] == '/';
    let dotted = n > 0 && v[0] == '.' && (n == 1 || v[1] == '/');
    let start: usize = if rooted || dotted {
        1
    } else {
        0
    };
    proof {
        if n == 1 && v@[0] == '.' {
            assert(v@ =~= seq!['.']);
        }
        if n >= 2 && v@[0] == '.' && v@[1] == '/' {
            assert(seq!['.', '/'] =~= v@.subrange(0, 2));
        }
        if seq!['.', '/'].is_prefix_of(v@) {
            assert(v@.subrange(0, 2)[0] == '.' && v@.subrange(0, 2)[1] == '/');
            assert(v@[0] == '.' && v@[1] == '/');
        }
        assert(start == body_start(path@));
        assert(v@.take(n as int) =~= v@);
    }
    let kept: usize = cut_idle_tail(&v, start, n);
    if kept > start {
        let cut: usize = cut_last_piece(&v, start, kept);
        let end: usize = cut_idle_tail(&v, start, cut);
        assert(v@.take(end as int) =~= v@.subrange(0, end as int));
        Some(text::from_chars(&v, 0, end))
    } else if rooted || start == 0 {
        None
    } else {
        Some(String::new())
    }
}

/// The path with its file name, where it has one, replaced by `name`.
pub open spec fn renamed(path: Seq<char>, name: Seq<char>) -> Seq<char> {
    if last_name(path) is Some && parent_of(path) is Some {
        joined(parent_of(path)->0, name)
    } else {
        joined(path, name)
    }
}

pub fn with_file_name(path: &str, name: &str) -> (r: String)
    ensures
        r@ == renamed(path@, name@),
{
    if file_name(path).is_some() {
        if let Some(dir) = parent(path) {
            return join(dir.as_str(), name);
        }
    }
    join(path, name)
}

/// A joined path ends in what was joined to the base, and begins with the base unless that is
/// absolute.
pub proof fn lemma_joined_ends(base: Seq<char>, path: Seq<char>)
    ensures
        path.is_suffix_of(joined(base, path)),
        !absolute(path) ==> base.is_prefix_of(joined(base, path)),
{
    let whole = joined(base, path);
    assert(path =~= whole.subrange(whole.len() - path.len(), whole.len() as int));
    if !absolute(path) {
        assert(base =~= whole.subrange(0, base.len() as int));
    }
}

} // verus!
