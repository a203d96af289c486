//! File paths as byte strings. A path is its components: further slashes between them and behind
//! the last one, and `.` anywhere but at the start, make no difference.

use std::sync::Arc;
use vstd::prelude::*;
use vstd::slice::*;
use vstd::string::*;
use vstd::utf8::*;

verus! {

/// The byte that separates the components of a path.
pub const SLASH: u8 = 0x2f;

/// The byte of a dot.
pub const DOT: u8 = 0x2e;

/// What `String::from_utf8_lossy` makes of a byte string: its text, with a replacement character
/// for each part that is not UTF-8.
pub uninterp spec fn lossy_text(bytes: Seq<u8>) -> Seq<char>;

/// `String::from_utf8_lossy` decodes bytes that are UTF-8 as they are; what it makes of others is
/// a function of the bytes.
#[verifier::external_body]
pub(crate) fn text_lossy(bytes: &[u8]) -> (r: String)
    ensures
        r@ == lossy_text(bytes@),
        valid_utf8(bytes@) ==> r@ == decode_utf8(bytes@),
{
    String::from_utf8_lossy(bytes).into_owned()
}

/// `Arc::clone` makes another pointer to the same value.
#[verifier::external_body]
fn share(bytes: &Arc<Vec<u8>>) -> (r: Arc<Vec<u8>>)
    ensures
        r == *bytes,
{
    Arc::clone(bytes)
}

/// A path, shared between its copies, in its plain spelling.
#[derive(Debug)]
pub struct FilePath {
    bytes: Arc<Vec<u8>>,
}

/// The index just past the last slash of a path, 0 without one.
pub open spec fn name_start(path: Seq<u8>) -> int
    decreases path.len(),
{
    if path.len() == 0 || path.last() == SLASH {
        path.len() as int
    } else {
        name_start(path.drop_last())
    }
}

/// The last component of a path, empty for the root and for the empty path.
pub open spec fn name_of(path: Seq<u8>) -> Seq<u8> {
    path.skip(name_start(path))
}

/// A path below a directory.
pub open spec fn under(dir: Seq<u8>, path: Seq<u8>) -> Seq<u8> {
    if dir.last() == SLASH {
        dir + path
    } else {
        dir.push(SLASH) + path
    }
}

/// The plain spelling of a path: one slash between its components, none behind the last one, and no
/// `.` but at the start.
pub open spec fn tidied(path: Seq<u8>) -> Seq<u8>
    decreases path.len(),
    via tidied_decreases
{
    let start = name_start(path);
    if start == 0 {
        path
    } else {
        let dir = if start == 1 {
            path.take(1)
        } else {
            tidied(path.take(start - 1))
        };
        if name_of(path).len() == 0 || name_of(path) == seq![DOT] {
            dir
        } else {
            under(dir, name_of(path))
        }
    }
}

#[via_fn]
proof fn tidied_decreases(path: Seq<u8>) {
    lemma_name_start(path);
}

/// A path in its plain spelling.
pub open spec fn neat(path: Seq<u8>) -> bool {
    tidied(path) == path
}

/// The components of a path but for the root.
pub open spec fn parts_of(path: Seq<u8>) -> Seq<Seq<u8>>
    decreases path.len(),
    via parts_of_decreases
{
    let start = name_start(path);
    let above = if start <= 1 {
        Seq::empty()
    } else {
        parts_of(path.take(start - 1))
    };
    if name_of(path).len() == 0 || (start > 0 && name_of(path) == seq![DOT]) {
        above
    } else {
        above.push(name_of(path))
    }
}

#[via_fn]
proof fn parts_of_decreases(path: Seq<u8>) {
    lemma_name_start(path);
}

/// The path that a text names.
pub open spec fn text_path(text: Seq<char>) -> Seq<u8> {
    tidied(encode_utf8(text))
}

impl View for FilePath {
    type V = Seq<u8>;

    closed spec fn view(&self) -> Seq<u8> {
        self.bytes@
    }
}

/// Whether a path starts at the file system's root.
pub open spec fn absolute(path: Seq<u8>) -> bool {
    path.len() > 0 && path[0] == SLASH
}

/// A relative path appended to a directory; an absolute path stands for itself, and the empty one
/// for the directory.
pub open spec fn joined(dir: Seq<u8>, path: Seq<u8>) -> Seq<u8> {
    if absolute(path) {
        path
    } else if path.len() == 0 {
        dir
    } else if dir.len() == 0 {
        path
    } else {
        tidied(dir.push(SLASH) + path)
    }
}

/// A directory without the slash of the root.
pub open spec fn stemmed(dir: Seq<u8>) -> Seq<u8> {
    if dir.len() > 0 && dir.last() == SLASH {
        dir.drop_last()
    } else {
        dir
    }
}

/// A path as seen from a directory above it, `None` when it does not lie there. Every path lies
/// below the empty directory.
pub open spec fn relative(path: Seq<u8>, dir: Seq<u8>) -> Option<Seq<u8>>
    recommends
        neat(path),
        neat(dir),
{
    let base = stemmed(dir);
    if dir.len() == 0 {
        Some(path)
    } else if path == dir {
        Some(Seq::empty())
    } else if base.push(SLASH).is_prefix_of(path) {
        Some(tidied(path.skip(base.len() as int + 1)))
    } else {
        None
    }
}

/// The directory that holds a path: the root for its direct entries, the empty path for a bare
/// name, `None` for the root and for the empty path.
pub open spec fn parent_of(path: Seq<u8>) -> Option<Seq<u8>> {
    let start = name_start(path);
    if start == path.len() {
        None
    } else {
        Some(tidied(path.take(start)))
    }
}

/// A name that is neither `.` nor `..`.
pub open spec fn ordinary(name: Seq<u8>) -> bool {
    name.len() > 0 && name != seq![DOT] && name != seq![DOT, DOT]
}

/// The names of the components of a path, without the root and without `.` and `..`.
pub open spec fn names_of(path: Seq<u8>) -> Seq<Seq<u8>>
    decreases path.len(),
    via names_of_decreases
{
    let start = name_start(path);
    let above = if start == 0 {
        Seq::empty()
    } else {
        names_of(path.take(start - 1))
    };
    if ordinary(name_of(path)) {
        above.push(name_of(path))
    } else {
        above
    }
}

#[via_fn]
proof fn names_of_decreases(path: Seq<u8>) {
    lemma_name_start(path);
}

/// The last component of a path starts behind its last slash.
pub(crate) proof fn lemma_name_start(path: Seq<u8>)
    ensures
        0 <= name_start(path) <= path.len(),
        name_start(path) > 0 ==> path[name_start(path) - 1] == SLASH,
        forall|k: int| name_start(path) <= k < path.len() ==> path[k] != SLASH,
    decreases path.len(),
{
    if path.len() > 0 && path.last() != SLASH {
        let rest = path.drop_last();
        lemma_name_start(rest);
        assert forall|k: int| name_start(path) <= k < path.len() implies path[k] != SLASH by {
            if k < rest.len() {
                assert(rest[k] == path[k]);
            }
        }
    }
}

/// Where the last component of a path starts.
proof fn lemma_name_starts_at(path: Seq<u8>, at: int)
    requires
        0 <= at <= path.len(),
        at == 0 || path[at - 1] == SLASH,
        forall|k: int| at <= k < path.len() ==> path[k] != SLASH,
    ensures
        name_start(path) == at,
{
    lemma_name_start(path);
}

/// A name below a directory in its plain spelling is spelled plainly.
proof fn lemma_under(dir: Seq<u8>, name: Seq<u8>)
    requires
        neat(dir),
        dir.len() > 0,
        dir.last() == SLASH ==> dir.len() == 1,
        name.len() > 0,
        name != seq![DOT],
        forall|k: int| 0 <= k < name.len() ==> name[k] != SLASH,
    ensures
        neat(under(dir, name)),
        under(dir, name).last() != SLASH,
        parts_of(under(dir, name)) == parts_of(dir).push(name),
{
    let path = under(dir, name);
    let at = path.len() - name.len();
    assert forall|k: int| at <= k < path.len() implies path[k] != SLASH by {
        assert(path[k] == name[k - at]);
    }
    lemma_name_starts_at(path, at);
    assert(name_of(path) =~= name);
    if dir.last() == SLASH {
        assert(path.take(1) =~= dir);
        lemma_name_starts_at(dir, 1);
        assert(parts_of(dir) =~= Seq::<Seq<u8>>::empty());
    } else {
        assert(path.take(at - 1) =~= dir);
    }
}

/// Names as text, with a slash between each two.
pub open spec fn named(names: Seq<Seq<u8>>) -> Seq<char>
    decreases names.len(),
{
    if names.len() == 0 {
        Seq::empty()
    } else if names.len() == 1 {
        lossy_text(names[0])
    } else {
        named(names.drop_last()).push('/') + lossy_text(names.last())
    }
}

/// The plain spelling is itself spelled plainly, is no longer than the path, and has the same
/// components.
pub(crate) proof fn lemma_tidied(path: Seq<u8>)
    ensures
        neat(tidied(path)),
        tidied(path).len() <= path.len(),
        path.len() > 0 ==> tidied(path).len() > 0,
        tidied(path).len() > 1 ==> tidied(path).last() != SLASH,
        absolute(tidied(path)) == absolute(path),
        parts_of(tidied(path)) == parts_of(path),
    decreases path.len(),
{
    lemma_name_start(path);
    let start = name_start(path);
    let name = name_of(path);
    if start == 0 {
    } else {
        let dir = if start == 1 {
            path.take(1)
        } else {
            tidied(path.take(start - 1))
        };
        if start == 1 {
            lemma_name_starts_at(dir, 1);
            assert(name_of(dir) =~= Seq::<u8>::empty());
            assert(dir.take(1) =~= dir);
            assert(parts_of(dir) =~= Seq::<Seq<u8>>::empty());
        } else {
            lemma_tidied(path.take(start - 1));
        }
        if name.len() > 0 && name != seq![DOT] {
            assert forall|k: int| 0 <= k < name.len() implies name[k] != SLASH by {
                assert(name[k] == path[start + k]);
            }
            lemma_under(dir, name);
        }
    }
}

/// A single name is spelled plainly.
pub(crate) proof fn lemma_single_name(name: Seq<u8>)
    requires
        forall|k: int| 0 <= k < name.len() ==> name[k] != SLASH,
    ensures
        tidied(name) == name,
{
    lemma_name_starts_at(name, 0);
}

/// The index of the last dot of a name, -1 without one.
pub open spec fn last_dot(name: Seq<u8>) -> int
    decreases name.len(),
{
    if name.len() == 0 {
        -1
    } else if name.last() == DOT {
        name.len() - 1
    } else {
        last_dot(name.drop_last())
    }
}

/// The part of a path's name after its last dot; a leading dot starts no extension.
pub open spec fn extension_of(path: Seq<u8>) -> Option<Seq<u8>> {
    let name = name_of(path);
    let dot = last_dot(name);
    if dot <= 0 || name == seq![DOT, DOT] {
        None
    } else {
        Some(name.skip(dot + 1))
    }
}

/// Whether `..` is one of the components of a path from index `from` on.
pub open spec fn climbs(path: Seq<u8>) -> bool {
    exists|i: int, j: int| #[trigger] component(path, i, j) && path.subrange(i, j) == seq![DOT, DOT]
}

/// The bytes from `i` to `j` are one component of a path.
pub open spec fn component(path: Seq<u8>, i: int, j: int) -> bool {
    &&& 0 <= i < j <= path.len()
    &&& i == 0 || path[i - 1] == SLASH
    &&& j == path.len() || path[j] == SLASH
    &&& forall|k: int| i <= k < j ==> path[k] != SLASH
}

/// The rank of a byte in the order of paths: a separator sorts before every other byte, so that
/// paths compare component by component.
pub open spec fn byte_rank(b: u8) -> int {
    if b == SLASH {
        0
    } else {
        b + 1
    }
}

/// Path `a` sorts before path `b`, compared component by component.
pub open spec fn path_less(a: Seq<u8>, b: Seq<u8>) -> bool
    decreases a.len(),
{
    if b.len() == 0 {
        false
    } else if a.len() == 0 {
        true
    } else if a[0] == b[0] {
        path_less(a.skip(1), b.skip(1))
    } else {
        byte_rank(a[0]) < byte_rank(b[0])
    }
}

/// The order of two byte strings.
#[derive(Debug, Clone, Copy, PartialEq, Eq, Structural)]
pub enum Order {
    Less,
    Same,
    Greater,
}

/// No path sorts before itself.
pub proof fn path_order_is_irreflexive(a: Seq<u8>)
    ensures
        !path_less(a, a),
    decreases a.len(),
{
    if a.len() > 0 {
        path_order_is_irreflexive(a.skip(1));
    }
}

/// The order of paths is transitive.
pub proof fn path_order_is_transitive(a: Seq<u8>, b: Seq<u8>, c: Seq<u8>)
    requires
        path_less(a, b),
        path_less(b, c),
    ensures
        path_less(a, c),
    decreases a.len(),
{
    if a.len() > 0 && a[0] == b[0] && b[0] == c[0] {
        path_order_is_transitive(a.skip(1), b.skip(1), c.skip(1));
    }
}

/// Of two different paths one sorts before the other.
pub proof fn path_order_is_total(a: Seq<u8>, b: Seq<u8>)
    ensures
        a == b || path_less(a, b) || path_less(b, a),
    decreases a.len(),
{
    if a.len() > 0 && b.len() > 0 {
        if a[0] == b[0] {
            path_order_is_total(a.skip(1), b.skip(1));
            if a.skip(1) == b.skip(1) {
                assert(a =~= seq![a[0]] + a.skip(1));
                assert(b =~= seq![b[0]] + b.skip(1));
            }
        }
    } else if a.len() == 0 && b.len() == 0 {
        assert(a =~= b);
    }
}

/// Compares two paths component by component.
pub fn order(a: &[u8], b: &[u8]) -> (r: Order)
    ensures
        r is Less <==> path_less(a@, b@),
        r is Greater <==> path_less(b@, a@),
        r is Same <==> a@ == b@,
{
    let mut i: usize = 0;
    assert(a@.skip(0) =~= a@ && b@.skip(0) =~= b@);
    while i < a.len() && i < b.len()
        invariant
            i <= a.len() && i <= b.len(),
            forall|k: int| 0 <= k < i ==> a@[k] == b@[k],
            path_less(a@, b@) == path_less(a@.skip(i as int), b@.skip(i as int)),
            path_less(b@, a@) == path_less(b@.skip(i as int), a@.skip(i as int)),
        decreases a.len() - i,
    {
        let (x, y): (u8, u8) = (a[i], b[i]);
        assert(a@.skip(i as int)[0] == x && b@.skip(i as int)[0] == y);
        if x != y {
            assert(a@[i as int] != b@[i as int]);
            if x == SLASH || (y != SLASH && x < y) {
                return Order::Less;
            } else {
                return Order::Greater;
            }
        }
        assert(a@.skip(i as int).skip(1) =~= a@.skip(i + 1));
        assert(b@.skip(i as int).skip(1) =~= b@.skip(i + 1));
        i += 1;
    }
    if a.len() == b.len() {
        assert(a@ =~= b@);
        proof {
            path_order_is_irreflexive(a@);
        }
        Order::Same
    } else if a.len() < b.len() {
        Order::Less
    } else {
        Order::Greater
    }
}

/// Tests for a name that is neither `.` nor `..`.
fn ordinary_name(name: &[u8]) -> (r: bool)
    ensures
        r == ordinary(name@),
{
    let dots = (name.len() == 1 || name.len() == 2) && name[0] == DOT && name[name.len() - 1]
        == DOT;
    assert(dots == (name@ =~= seq![DOT] || name@ =~= seq![DOT, DOT]));
    name.len() > 0 && !dots
}

/// The directory that the component at `from` lies in, in its plain spelling.
spec fn dir_before(path: Seq<u8>, from: int) -> Seq<u8> {
    if from == 0 {
        Seq::empty()
    } else if from == 1 {
        path.take(1)
    } else {
        tidied(path.take(from - 1))
    }
}

/// The plain spelling of a path up to the end of the component from `from` to `to`.
proof fn lemma_tidied_step(path: Seq<u8>, from: int, to: int)
    requires
        0 <= from <= to <= path.len(),
        from == 0 || path[from - 1] == SLASH,
        forall|k: int| from <= k < to ==> path[k] != SLASH,
    ensures
        tidied(path.take(to)) == if from == 0 {
            path.take(to)
        } else if from == to || path.subrange(from, to) == seq![DOT] {
            dir_before(path, from)
        } else {
            under(dir_before(path, from), path.subrange(from, to))
        },
{
    let part = path.take(to);
    lemma_name_starts_at(part, from);
    assert(name_of(part) =~= path.subrange(from, to));
    if from > 0 {
        assert(part.take(1) =~= path.take(1));
        assert(part.take(from - 1) =~= path.take(from - 1));
    }
}

/// Spells a path plainly.
fn tidy(path: &[u8]) -> (r: Vec<u8>)
    ensures
        r@ == tidied(path@),
{
    let mut out: Vec<u8> = Vec::new();
    let mut from: usize = 0;
    let mut to: usize = 0;
    loop
        invariant_except_break
            from <= to <= path@.len(),
            from == 0 || path@[from - 1] == SLASH,
            forall|k: int| from <= k < to ==> path@[k] != SLASH,
            out@ == dir_before(path@, from as int),
        ensures
            out@ == tidied(path@),
        decreases path.len() - to,
    {
        if to < path.len() && path[to] != SLASH {
            to += 1;
            continue ;
        }
        proof {
            lemma_tidied_step(path@, from as int, to as int);
            if from > 1 {
                lemma_tidied(path@.take(from - 1));
            }
        }
        let name = slice_subrange(path, from, to);
        let dot = name.len() == 1 && name[0] == DOT;
        assert(dot == (name@ =~= seq![DOT]));
        if from == 0 || (name.len() > 0 && !dot) {
            let ghost dir = out@;
            if from > 0 && out[out.len() - 1] != SLASH {
                out.push(SLASH);
            }
            let mut tail: Vec<u8> = slice_to_vec(name);
            out.append(&mut tail);
            assert(from == 0 ==> out@ =~= path@.take(to as int));
            assert(from > 0 ==> out@ =~= under(dir, name@));
        }
        assert(out@ == tidied(path@.take(to as int)));
        if to == path.len() {
            assert(path@.take(to as int) =~= path@);
            break;
        }
        if to == 0 {
            out.push(SLASH);
            assert(out@ =~= path@.take(1));
        }
        to += 1;
        from = to;
    }
    out
}

/// Tests two byte strings for equality.
pub fn same_bytes(a: &[u8], b: &[u8]) -> (r: bool)
    ensures
        r == (a@ == b@),
{
    if a.len() != b.len() {
        return false;
    }
    for i in 0..a.len()
        invariant
            a.len() == b.len(),
            forall|k: int| 0 <= k < i ==> a@[k] == b@[k],
    {
        if a[i] != b[i] {
            return false;
        }
    }
    assert(a@ =~= b@);
    true
}

impl Clone for FilePath {
    /// Another handle to the same path.
    fn clone(&self) -> (r: Self)
        ensures
            r == *self,
    {
        proof {
            use_type_invariant(self);
        }
        FilePath { bytes: share(&self.bytes) }
    }
}

impl FilePath {
    #[verifier::type_invariant]
    spec fn spelled_plainly(self) -> bool {
        neat(self.bytes@)
    }

    /// The path with the given bytes.
    pub fn new(bytes: Vec<u8>) -> (r: Self)
        ensures
            r@ == tidied(bytes@),
    {
        let plain = tidy(bytes.as_slice());
        proof {
            lemma_tidied(bytes@);
        }
        FilePath { bytes: Arc::new(plain) }
    }

    /// The path that a text names.
    pub fn of_text(text: &str) -> (r: Self)
        ensures
            r@ == text_path(text@),
    {
        FilePath::new(slice_to_vec(text.as_bytes()))
    }

    /// The bytes of the path.
    pub fn as_bytes(&self) -> (r: &[u8])
        ensures
            r@ == self@,
            neat(self@),
    {
        proof {
            use_type_invariant(self);
        }
        (*self.bytes).as_slice()
    }

    /// The path as text, with a replacement character for what is not UTF-8.
    pub fn text(&self) -> (r: String)
        ensures
            r@ == lossy_text(self@),
            valid_utf8(self@) ==> r@ == decode_utf8(self@),
    {
        text_lossy(self.as_bytes())
    }

    /// Whether the path is empty.
    pub fn is_empty(&self) -> (r: bool)
        ensures
            r == (self@.len() == 0),
    {
        self.as_bytes().len() == 0
    }

    /// Whether the path is neither empty nor `.` nor `..`.
    pub fn is_ordinary(&self) -> (r: bool)
        ensures
            r == ordinary(self@),
    {
        ordinary_name(self.as_bytes())
    }

    /// Whether both name the same path.
    pub fn same(&self, other: &FilePath) -> (r: bool)
        ensures
            r == (self@ == other@),
    {
        same_bytes(self.as_bytes(), other.as_bytes())
    }

    /// Whether the path starts at the file system's root.
    pub fn is_absolute(&self) -> (r: bool)
        ensures
            r == absolute(self@),
    {
        let bytes = self.as_bytes();
        bytes.len() > 0 && bytes[0] == SLASH
    }

    /// `path` below this directory.
    pub fn join(&self, path: &FilePath) -> (r: FilePath)
        ensures
            r@ == joined(self@, path@),
    {
        if path.is_absolute() {
            return path.clone();
        }
        if path.is_empty() {
            return self.clone();
        }
        if self.is_empty() {
            return path.clone();
        }
        let mut bytes: Vec<u8> = slice_to_vec(self.as_bytes());
        bytes.push(SLASH);
        let mut tail: Vec<u8> = slice_to_vec(path.as_bytes());
        bytes.append(&mut tail);
        assert(bytes@ =~= self@.push(SLASH) + path@);
        FilePath::new(bytes)
    }

    /// The path as seen from `dir`, `None` when it does not lie below it.
    pub fn strip_prefix(&self, dir: &FilePath) -> (r: Option<FilePath>)
        ensures
            r is Some <==> relative(self@, dir@) is Some,
            r matches Some(rel) ==> Some(rel@) == relative(self@, dir@),
    {
        let (path, base) = (self.as_bytes(), dir.as_bytes());
        if base.len() == 0 {
            return Some(self.clone());
        }
        if self.same(dir) {
            return Some(FilePath::new(Vec::new()));
        }
        let n: usize = if base[base.len() - 1] == SLASH {
            base.len() - 1
        } else {
            base.len()
        };
        assert(stemmed(dir@) =~= base@.take(n as int));
        if path.len() <= n {
            return None;
        }
        for i in 0..n
            invariant
                n <= base@.len() && n < path@.len(),
                path@ == self@,
                dir@ == base@,
                path@ != dir@,
                base@.len() > 0,
                stemmed(base@) == base@.take(n as int),
                forall|k: int| 0 <= k < i ==> path@[k] == base@[k],
        {
            if path[i] != base[i] {
                proof {
                    let root = stemmed(dir@);
                    assert(root[i as int] == base@[i as int]);
                    assert(root.push(SLASH)[i as int] == base@[i as int]);
                    if root.push(SLASH).is_prefix_of(path@) {
                        assert(path@.subrange(0, root.len() as int + 1)[i as int] == path@[i as int]);
                    }
                }
                return None;
            }
        }
        let ghost root = stemmed(dir@);
        if path[n] != SLASH {
            proof {
                assert(root.push(SLASH)[n as int] == SLASH);
                if root.push(SLASH).is_prefix_of(path@) {
                    assert(path@.subrange(0, root.len() as int + 1)[n as int] == path@[n as int]);
                }
            }
            return None;
        }
        assert(root.push(SLASH) =~= path@.subrange(0, n + 1));
        let rest = slice_subrange(path, n + 1, path.len());
        assert(rest@ =~= path@.skip(n + 1));
        Some(FilePath::new(slice_to_vec(rest)))
    }

    /// The index just past the last slash.
    fn name_index(&self) -> (r: usize)
        ensures
            r == name_start(self@),
            r <= self@.len(),
    {
        let path = self.as_bytes();
        let mut n: usize = path.len();
        assert(path@.take(n as int) =~= path@);
        while n > 0 && path[n - 1] != SLASH
            invariant
                n <= path@.len(),
                name_start(path@) == name_start(path@.take(n as int)),
            decreases n,
        {
            assert(path@.take(n as int).drop_last() =~= path@.take(n - 1));
            n -= 1;
        }
        n
    }

    /// The last component of the path, empty for the root and for the empty path.
    pub fn file_name(&self) -> (r: FilePath)
        ensures
            r@ == name_of(self@),
    {
        let start: usize = self.name_index();
        let path = self.as_bytes();
        let name = slice_subrange(path, start, path.len());
        assert(name@ =~= name_of(self@));
        proof {
            lemma_name_start(self@);
            lemma_single_name(name@);
        }
        FilePath::new(slice_to_vec(name))
    }

    /// The directory that holds the path.
    pub fn parent(&self) -> (r: Option<FilePath>)
        ensures
            r is Some <==> parent_of(self@) is Some,
            r matches Some(dir) ==> Some(dir@) == parent_of(self@),
    {
        let start: usize = self.name_index();
        let path = self.as_bytes();
        if start == path.len() {
            return None;
        }
        let dir = slice_subrange(path, 0, start);
        assert(dir@ =~= path@.take(start as int));
        Some(FilePath::new(slice_to_vec(dir)))
    }

    /// The part of the name after its last dot.
    pub fn extension(&self) -> (r: Option<FilePath>)
        ensures
            r is Some <==> extension_of(self@) is Some,
            r matches Some(ext) ==> Some(ext@) == extension_of(self@),
    {
        let file = self.file_name();
        let name = file.as_bytes();
        let mut n: usize = name.len();
        assert(name@.take(n as int) =~= name@);
        while n > 0 && name[n - 1] != DOT
            invariant
                n <= name@.len(),
                last_dot(name@) == last_dot(name@.take(n as int)),
            decreases n,
        {
            assert(name@.take(n as int).drop_last() =~= name@.take(n - 1));
            n -= 1;
        }
        assert(last_dot(name@) == n - 1);
        if n <= 1 {
            return None;
        }
        if name.len() == 2 && name[0] == DOT && name[1] == DOT {
            assert(name@ =~= seq![DOT, DOT]);
            return None;
        }
        assert(name@ != seq![DOT, DOT]);
        let ext = slice_subrange(name, n, name.len());
        assert(ext@ =~= name@.skip(n as int));
        proof {
            lemma_name_start(self@);
            assert forall|k: int| 0 <= k < ext@.len() implies ext@[k] != SLASH by {
                assert(ext@[k] == name@[n + k]);
            }
            lemma_single_name(ext@);
        }
        Some(FilePath::new(slice_to_vec(ext)))
    }

    /// Whether `..` is a component of the path.
    pub fn has_parent_component(&self) -> (r: bool)
        ensures
            r == climbs(self@),
    {
        let path = self.as_bytes();
        let dots = seq_dots();
        let mut start: usize = 0;
        let mut n: usize = 0;
        while n < path.len()
            invariant
                start <= n <= path@.len(),
                path@ == self@,
                dots@ == seq![DOT, DOT],
                start == 0 || path@[start - 1] == SLASH,
                forall|k: int| start <= k < n ==> path@[k] != SLASH,
                forall|i: int, j: int|
                    #[trigger] component(path@, i, j) && i < start ==> path@.subrange(i, j)
                        != seq![DOT, DOT],
            decreases path.len() - n,
        {
            if path[n] == SLASH {
                if n > start && same_bytes(slice_subrange(path, start, n), dots.as_slice()) {
                    assert(component(path@, start as int, n as int));
                    return true;
                }
                proof {
                    assert forall|i: int, j: int|
                        #[trigger] component(path@, i, j) && i < n + 1 implies path@.subrange(i, j)
                        != seq![DOT, DOT] by {
                        if i >= start {
                            if i > start {
                                assert(path@[i - 1] == SLASH);
                            }
                            if j < n {
                                assert(path@[j] == SLASH);
                            }
                            assert(j <= n);
                        }
                    }
                }
                start = n + 1;
            }
            n += 1;
        }
        if n > start && same_bytes(slice_subrange(path, start, n), dots.as_slice()) {
            assert(component(path@, start as int, n as int));
            return true;
        }
        proof {
            assert forall|i: int, j: int| #[trigger] component(path@, i, j) implies path@.subrange(i, j)
                != seq![DOT, DOT] by {
                if i >= start {
                    if i > start {
                        assert(path@[i - 1] == SLASH);
                    }
                    if j < n {
                        assert(path@[j] == SLASH);
                    }
                }
            }
        }
        false
    }
}

/// The names above the component at `from`.
spec fn names_before(path: Seq<u8>, from: int) -> Seq<Seq<u8>> {
    if from == 0 {
        Seq::empty()
    } else {
        names_of(path.take(from - 1))
    }
}

/// The names of a path up to the end of the component from `from` to `to`.
proof fn lemma_names_step(path: Seq<u8>, from: int, to: int)
    requires
        0 <= from <= to <= path.len(),
        from == 0 || path[from - 1] == SLASH,
        forall|k: int| from <= k < to ==> path[k] != SLASH,
    ensures
        names_of(path.take(to)) == if ordinary(path.subrange(from, to)) {
            names_before(path, from).push(path.subrange(from, to))
        } else {
            names_before(path, from)
        },
{
    let part = path.take(to);
    lemma_name_starts_at(part, from);
    assert(name_of(part) =~= path.subrange(from, to));
    if from > 0 {
        assert(part.take(from - 1) =~= path.take(from - 1));
    }
}

/// The contents of paths.
spec fn views(list: Seq<FilePath>) -> Seq<Seq<u8>> {
    list.map_values(|p: FilePath| p@)
}

/// The names of the components of a path.
fn names(path: &[u8]) -> (r: Vec<FilePath>)
    ensures
        views(r@) == names_of(path@),
{
    let mut out: Vec<FilePath> = Vec::new();
    let mut from: usize = 0;
    let mut to: usize = 0;
    assert(views(out@) =~= Seq::empty());
    loop
        invariant_except_break
            from <= to <= path@.len(),
            from == 0 || path@[from - 1] == SLASH,
            forall|k: int| from <= k < to ==> path@[k] != SLASH,
            views(out@) == names_before(path@, from as int),
        ensures
            views(out@) == names_of(path@),
        decreases path.len() - to,
    {
        if to < path.len() && path[to] != SLASH {
            to += 1;
            continue ;
        }
        let name = slice_subrange(path, from, to);
        proof {
            lemma_names_step(path@, from as int, to as int);
        }
        let ghost before = out@;
        if ordinary_name(name) {
            proof {
                lemma_single_name(name@);
            }
            out.push(FilePath::new(slice_to_vec(name)));
            assert(views(out@) =~= views(before).push(name@));
        }
        assert(views(out@) == names_of(path@.take(to as int)));
        if to == path.len() {
            assert(path@.take(to as int) =~= path@);
            break;
        }
        to += 1;
        from = to;
    }
    out
}

impl FilePath {
    /// The names of the path's components as text, with a slash between each two: the root, `.` and
    /// `..` are left out.
    pub fn names_text(&self) -> (r: String)
        ensures
            r@ == named(names_of(self@)),
    {
        let parts = names(self.as_bytes());
        let ghost all = names_of(self@);
        let mut out = String::new();
        for i in 0..parts.len()
            invariant
                views(parts@) == all,
                out@ == named(all.take(i as int)),
        {
            assert(all[i as int] == parts@[i as int]@);
            assert(all.take(i + 1).drop_last() =~= all.take(i as int));
            if i > 0 {
                out.push('/');
                out = out.concat(parts[i].text().as_str());
            } else {
                out = parts[i].text();
            }
        }
        assert(all.take(all.len() as int) =~= all);
        out
    }
}

/// The component that names the parent directory.
fn seq_dots() -> (r: Vec<u8>)
    ensures
        r@ == seq![DOT, DOT],
{
    let mut dots: Vec<u8> = Vec::new();
    dots.push(DOT);
    dots.push(DOT);
    assert(dots@ =~= seq![DOT, DOT]);
    dots
}

/// A path that starts with the component `.`.
pub open spec fn starts_here(path: Seq<u8>) -> bool {
    path == seq![DOT] || seq![DOT, SLASH].is_prefix_of(path)
}

/// The directory part of a plainly spelled path is spelled plainly, and its last component counts.
proof fn lemma_neat_parts(path: Seq<u8>)
    requires
        neat(path),
        name_start(path) > 1,
    ensures
        neat(path.take(name_start(path) - 1)),
        name_of(path).len() > 0,
        name_of(path) != seq![DOT],
        path == path.take(name_start(path) - 1).push(SLASH) + name_of(path),
        path[name_start(path) - 2] != SLASH,
{
    lemma_name_start(path);
    let start = name_start(path);
    let up = path.take(start - 1);
    let dir = tidied(up);
    lemma_tidied(up);
    assert(path =~= up.push(SLASH) + name_of(path));
    if dir.last() == SLASH {
        assert(under(dir, name_of(path)).len() == 1 + name_of(path).len());
    } else {
        assert(path.take(start - 1) =~= dir) by {
            assert(path =~= dir.push(SLASH) + name_of(path));
        }
    }
}

/// A plainly spelled relative path below a plainly spelled directory is spelled plainly.
proof fn lemma_under_plain(dir: Seq<u8>, path: Seq<u8>)
    requires
        neat(dir),
        dir.len() > 0,
        neat(path),
        path.len() > 0,
        !absolute(path),
        !starts_here(path),
    ensures
        tidied(dir.push(SLASH) + path) == under(dir, path),
    decreases path.len(),
{
    let full = dir.push(SLASH) + path;
    let start = name_start(path);
    let at = dir.len() + 1 + start;
    lemma_name_start(path);
    lemma_tidied(dir);
    assert forall|k: int| at <= k < full.len() implies full[k] != SLASH by {
        assert(full[k] == path[k - dir.len() - 1]);
    }
    if start > 0 {
        assert(full[at - 1] == path[start - 1]);
    }
    lemma_name_starts_at(full, at);
    assert(name_of(full) =~= name_of(path));
    if start == 0 {
        assert(path.skip(0) =~= path);
        assert(full.take(at - 1) =~= dir);
    } else {
        assert(start > 1) by {
            if start == 1 {
                assert(path[0] == SLASH);
            }
        }
        lemma_neat_parts(path);
        let up = path.take(start - 1);
        assert(up[0] == path[0]);
        assert(!starts_here(up)) by {
            if up == seq![DOT] {
                assert(path.subrange(0, 2) =~= seq![DOT, SLASH]);
            } else if seq![DOT, SLASH].is_prefix_of(up) {
                assert(up.subrange(0, 2) =~= path.subrange(0, 2));
            }
        }
        lemma_under_plain(dir, up);
        assert(full.take(at - 1) =~= dir.push(SLASH) + up);
        assert(under(dir, up).last() == up.last());
        assert(up.last() == path[start - 2]);
        assert(under(under(dir, up), name_of(path)) =~= under(dir, path));
    }
}

/// A relative path, seen from the directory it was joined to, is itself, unless it starts with `.`.
pub proof fn join_then_strip(dir: Seq<u8>, path: Seq<u8>)
    requires
        neat(path),
        path.len() > 0,
        !absolute(path),
        !starts_here(path),
        neat(dir),
        dir.len() > 0,
    ensures
        relative(joined(dir, path), dir) == Some(path),
{
    lemma_under_plain(dir, path);
    lemma_tidied(dir);
    let full = under(dir, path);
    let base = stemmed(dir);
    assert(base.push(SLASH) =~= full.subrange(0, base.len() as int + 1));
    assert(full.skip(base.len() as int + 1) =~= path);
    assert(full.len() > dir.len());
}

/// The path that components make up, below the root or not.
spec fn spelled(rooted: bool, parts: Seq<Seq<u8>>) -> Seq<u8>
    decreases parts.len(),
{
    if parts.len() == 0 {
        if rooted {
            seq![SLASH]
        } else {
            Seq::empty()
        }
    } else if !rooted && parts.len() == 1 {
        parts[0]
    } else {
        under(spelled(rooted, parts.drop_last()), parts.last())
    }
}

/// The plain spelling of a path is made up of its components.
proof fn lemma_spelled(path: Seq<u8>)
    ensures
        tidied(path) == spelled(absolute(path), parts_of(path)),
    decreases path.len(),
{
    lemma_name_start(path);
    lemma_tidied(path);
    let start = name_start(path);
    let name = name_of(path);
    if start == 0 {
        assert(name =~= path);
        assert(path.len() == 0 ==> path =~= Seq::empty());
        assert(parts_of(path) =~= if path.len() == 0 {
            Seq::empty()
        } else {
            seq![path]
        });
    } else {
        let above = if start == 1 {
            Seq::empty()
        } else {
            parts_of(path.take(start - 1))
        };
        reveal_with_fuel(spelled, 2);
        if start == 1 {
            assert(path.take(1) =~= seq![SLASH]);
        } else {
            assert(path.take(start - 1)[0] == path[0]);
            lemma_spelled(path.take(start - 1));
            lemma_tidied(path.take(start - 1));
        }
        assert(above.push(name).drop_last() =~= above);
    }
}

/// A path is its components: two spellings name the same path exactly when they have the same
/// components, below the root or not.
pub proof fn paths_are_their_components(a: Seq<u8>, b: Seq<u8>)
    ensures
        tidied(a) == tidied(b) <==> absolute(a) == absolute(b) && parts_of(a) == parts_of(b),
{
    lemma_tidied(a);
    lemma_tidied(b);
    lemma_spelled(a);
    lemma_spelled(b);
}

/// A path lies below a directory exactly when its components start with those of the directory, and
/// what is seen from there are the others.
pub proof fn lower_paths_continue_their_directory(path: Seq<u8>, dir: Seq<u8>)
    requires
        neat(path),
        neat(dir),
        dir.len() > 0,
    ensures
        relative(path, dir) is Some <==> absolute(path) == absolute(dir) && parts_of(
            dir,
        ).is_prefix_of(parts_of(path)),
        relative(path, dir) matches Some(rel) ==> parts_of(path) == parts_of(dir) + parts_of(rel),
    decreases path.len(),
{
    let (all, first) = (parts_of(path), parts_of(dir));
    let base = stemmed(dir);
    let at = base.len() as int + 1;
    let start = name_start(path);
    let name = name_of(path);
    lemma_name_start(path);
    lemma_tidied(dir);
    lemma_tidied(path);
    paths_are_their_components(path, dir);
    assert(parts_of(Seq::<u8>::empty()) =~= Seq::<Seq<u8>>::empty());
    if path == dir {
        assert(first + Seq::<Seq<u8>>::empty() =~= first);
        assert(first =~= all.subrange(0, first.len() as int));
    } else if start > 1 {
        let up = path.take(start - 1);
        lemma_neat_parts(path);
        lower_paths_continue_their_directory(up, dir);
        assert(up[0] == path[0]);
        assert(up.last() == path[start - 2]);
        assert(all == parts_of(up).push(name));
        assert(first != all ==> (first.is_prefix_of(all) <==> first.is_prefix_of(parts_of(up)))) by {
            if first.is_prefix_of(all) && first != all {
                assert(first.len() < all.len()) by {
                    if first.len() == all.len() {
                        assert(all.subrange(0, first.len() as int) =~= all);
                    }
                }
                assert(parts_of(up).subrange(0, first.len() as int) =~= all.subrange(
                    0,
                    first.len() as int,
                ));
            }
            if first.is_prefix_of(parts_of(up)) {
                assert(parts_of(up).subrange(0, first.len() as int) =~= all.subrange(
                    0,
                    first.len() as int,
                ));
            }
        }
        assert(base.push(SLASH).is_prefix_of(path) <==> (up == dir || base.push(SLASH).is_prefix_of(
            up,
        ))) by {
            if base.push(SLASH).is_prefix_of(path) {
                assert(path.subrange(0, at)[at - 1] == SLASH);
                assert(start >= at);
                if start == at {
                    assert(up =~= base);
                } else {
                    assert(up.subrange(0, at) =~= path.subrange(0, at));
                }
            }
            if up == dir {
                assert(path.subrange(0, at) =~= base.push(SLASH));
            } else if base.push(SLASH).is_prefix_of(up) {
                assert(up.subrange(0, at) =~= path.subrange(0, at));
            }
        }
        if base.push(SLASH).is_prefix_of(path) {
            let rest = path.skip(at);
            lemma_tidied(rest);
            if up == dir {
                assert(rest =~= name);
                lemma_name_starts_at(rest, 0);
                assert(name_of(rest) =~= rest);
                assert(parts_of(rest) =~= seq![name]);
                assert(first.push(name) =~= first + seq![name]);
            } else {
                lemma_tidied(up.skip(at));
                assert(rest[start - at - 1] == path[start - 1]);
                assert forall|k: int| start - at <= k < rest.len() implies rest[k] != SLASH by {
                    assert(rest[k] == path[at + k]);
                }
                lemma_name_starts_at(rest, start - at);
                assert(name_of(rest) =~= name);
                assert(rest.take(start - at - 1) =~= up.skip(at));
                assert(start - at == 1 ==> up.skip(at) =~= Seq::empty());
                assert(parts_of(rest) == parts_of(up.skip(at)).push(name));
                assert((first + parts_of(up.skip(at))).push(name) =~= first + parts_of(rest));
            }
        }
    } else if start == 1 {
        assert(path.take(1) =~= seq![SLASH]);
        if absolute(dir) && first.is_prefix_of(all) {
            if first.len() > 0 {
                assert(all.subrange(0, first.len() as int) =~= all);
            } else {
                lemma_spelled(dir);
                assert(dir =~= seq![SLASH]);
                assert(path.subrange(0, 1) =~= seq![SLASH]);
                assert(base.push(SLASH) =~= seq![SLASH]);
            }
        }
        if base.push(SLASH).is_prefix_of(path) {
            assert(path.subrange(0, at)[at - 1] == SLASH);
            assert(base =~= Seq::<u8>::empty());
            assert(dir =~= seq![SLASH]);
            lemma_name_starts_at(dir, 1);
            assert(first =~= Seq::<Seq<u8>>::empty());
            assert(all.subrange(0, 0) =~= first);
            let rest = path.skip(1);
            assert(rest =~= name);
            lemma_tidied(rest);
            lemma_name_starts_at(rest, 0);
            assert(name_of(rest) =~= rest);
            assert(parts_of(rest) =~= all);
            assert(first + parts_of(rest) =~= all);
        }
    } else {
        assert(name =~= path);
        if base.push(SLASH).is_prefix_of(path) {
            assert(path.subrange(0, at)[at - 1] == SLASH);
            assert(path[at - 1] == SLASH);
        }
        if !absolute(dir) && first.is_prefix_of(all) {
            if first.len() == 0 {
                lemma_spelled(dir);
            } else {
                assert(all.subrange(0, first.len() as int) =~= all);
            }
        }
    }
}

} // verus!
