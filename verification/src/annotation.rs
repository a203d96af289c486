//! Notes that the user attaches to files and line ranges for the length of a session.

use crate::paths::{absolute, climbs, order, path_less, FilePath, Order};
use crate::text::{decimal, decimal_text, trim, trimmed};
use vstd::prelude::*;
use vstd::string::*;

verus! {

/// Why an annotation is refused.
#[derive(Debug, Clone, Copy, PartialEq, Eq, Structural)]
pub enum AnnotationError {
    /// The text is blank.
    EmptyText,
    /// A line range does not start at line 1 or later, or ends before it starts.
    InvalidRange,
    /// The path is empty, absolute, or leaves the tree.
    InvalidPath,
    /// There is no annotation with that id.
    UnknownAnnotation,
}

impl AnnotationError {
    /// The message shown for the error.
    pub open spec fn message_text(self) -> Seq<char> {
        match self {
            AnnotationError::EmptyText => "Annotation text cannot be empty"@,
            AnnotationError::InvalidRange => "Invalid line range"@,
            AnnotationError::InvalidPath => "Invalid annotation path"@,
            AnnotationError::UnknownAnnotation => "Annotation no longer exists"@,
        }
    }

    /// The message shown for the error.
    pub fn message(self) -> (r: &'static str)
        ensures
            r@ == self.message_text(),
    {
        match self {
            AnnotationError::EmptyText => "Annotation text cannot be empty",
            AnnotationError::InvalidRange => "Invalid line range",
            AnnotationError::InvalidPath => "Invalid annotation path",
            AnnotationError::UnknownAnnotation => "Annotation no longer exists",
        }
    }
}

/// A range of source lines, from 1, both ends included.
#[derive(Debug, Clone, Copy, PartialEq, Eq, Structural)]
pub struct LineRange {
    first: usize,
    last: usize,
}

impl LineRange {
    #[verifier::type_invariant]
    spec fn ordered(self) -> bool {
        1 <= self.first <= self.last
    }

    /// The first line.
    pub closed spec fn from_line(self) -> int {
        self.first as int
    }

    /// The last line.
    pub closed spec fn to_line(self) -> int {
        self.last as int
    }

    /// The range from `start` to `end`.
    pub fn new(start: usize, end: usize) -> (r: Result<Self, AnnotationError>)
        ensures
            r is Ok <==> 1 <= start <= end,
            r matches Ok(range) ==> range.from_line() == start && range.to_line() == end,
            r matches Err(e) ==> e == AnnotationError::InvalidRange,
    {
        if start == 0 || end < start {
            Err(AnnotationError::InvalidRange)
        } else {
            Ok(LineRange { first: start, last: end })
        }
    }

    /// The first line.
    pub fn start(self) -> (r: usize)
        ensures
            r == self.from_line(),
            1 <= r <= self.to_line(),
    {
        proof {
            use_type_invariant(&self);
        }
        self.first
    }

    /// The last line.
    pub fn end(self) -> (r: usize)
        ensures
            r == self.to_line(),
            1 <= self.from_line() <= r,
    {
        proof {
            use_type_invariant(&self);
        }
        self.last
    }

    /// Two ranges with the same ends are the same.
    pub proof fn same(self, other: Self)
        requires
            self.from_line() == other.from_line(),
            self.to_line() == other.to_line(),
        ensures
            self == other,
    {
    }
}

/// The file or the lines of a file that an annotation is about.
#[derive(Debug)]
pub struct AnnotationTarget {
    path: FilePath,
    lines: Option<LineRange>,
}

/// Whether a path can be annotated: relative to the root, not empty, and not leaving it.
pub open spec fn annotatable(path: Seq<u8>) -> bool {
    path.len() > 0 && !absolute(path) && !climbs(path)
}

impl AnnotationTarget {
    /// The file.
    pub closed spec fn file(self) -> Seq<u8> {
        self.path@
    }

    /// The lines, `None` for the whole file.
    pub closed spec fn range(self) -> Option<LineRange> {
        self.lines
    }

    /// A whole file.
    pub fn for_file(path: FilePath) -> (r: Result<Self, AnnotationError>)
        ensures
            r is Ok <==> annotatable(path@),
            r matches Ok(target) ==> target.file() == path@ && target.range() is None,
            r matches Err(e) ==> e == AnnotationError::InvalidPath,
    {
        if path.is_empty() || path.is_absolute() || path.has_parent_component() {
            Err(AnnotationError::InvalidPath)
        } else {
            Ok(AnnotationTarget { path, lines: None })
        }
    }

    /// Some lines of a file.
    pub fn for_lines(path: FilePath, lines: LineRange) -> (r: Result<Self, AnnotationError>)
        ensures
            r is Ok <==> annotatable(path@),
            r matches Ok(target) ==> target.file() == path@ && target.range() == Some(lines),
            r matches Err(e) ==> e == AnnotationError::InvalidPath,
    {
        if path.is_empty() || path.is_absolute() || path.has_parent_component() {
            Err(AnnotationError::InvalidPath)
        } else {
            Ok(AnnotationTarget { path, lines: Some(lines) })
        }
    }

    /// The file's path, relative to the root.
    pub fn path(&self) -> (r: &FilePath)
        ensures
            r@ == self.file(),
    {
        &self.path
    }

    /// The lines, `None` for the whole file.
    pub fn lines(&self) -> (r: Option<LineRange>)
        ensures
            r == self.range(),
    {
        self.lines
    }
}

impl Clone for AnnotationTarget {
    fn clone(&self) -> (r: Self)
        ensures
            r == *self,
    {
        AnnotationTarget { path: self.path.clone(), lines: self.lines }
    }
}

/// One annotation.
#[derive(Debug)]
pub struct Annotation {
    pub id: u64,
    pub target: AnnotationTarget,
    pub text: String,
}

/// The place of a target among those of one file: the whole file first, then lines by their start
/// and their end.
pub open spec fn place(range: Option<LineRange>) -> (int, int) {
    match range {
        None => (0, 0),
        Some(lines) => (lines.from_line(), lines.to_line()),
    }
}

/// Annotation `a` is listed before annotation `b`: by file, by place in the file, and of the same
/// place the older one first.
pub open spec fn listed_before(a: Annotation, b: Annotation) -> bool {
    let (pa, pb) = (place(a.target.range()), place(b.target.range()));
    if a.target.file() != b.target.file() {
        path_less(a.target.file(), b.target.file())
    } else if pa.0 != pb.0 {
        pa.0 < pb.0
    } else if pa.1 != pb.1 {
        pa.1 < pb.1
    } else {
        a.id < b.id
    }
}

/// The annotations of a session, in the order in which they are listed.
#[derive(Debug)]
pub struct AnnotationStore {
    items: Vec<Annotation>,
    next_id: u64,
}

/// No two annotations have the same id.
pub open spec fn distinct(items: Seq<Annotation>) -> bool {
    forall|i: int, j: int|
        0 <= i < j < items.len() ==> (#[trigger] items[i]).id != (#[trigger] items[j]).id
}

/// The annotations are in the order in which they are listed.
pub open spec fn in_order(items: Seq<Annotation>) -> bool {
    forall|i: int, j: int|
        0 <= i < j < items.len() ==> listed_before(#[trigger] items[i], #[trigger] items[j])
}

/// Whether a text says anything.
pub open spec fn blank(text: Seq<char>) -> bool {
    trim(text).len() == 0
}

impl AnnotationStore {
    #[verifier::type_invariant]
    spec fn consistent(self) -> bool {
        &&& in_order(self.items@)
        &&& distinct(self.items@)
        &&& forall|i: int| 0 <= i < self.items@.len() ==> (#[trigger] self.items@[i]).id < self.next_id
    }

    /// The annotations in the order in which they are listed.
    pub closed spec fn listed(self) -> Seq<Annotation> {
        self.items@
    }

    /// The id that the next annotation gets.
    pub closed spec fn coming_id(self) -> u64 {
        self.next_id
    }

    /// A store without annotations.
    pub fn new() -> (r: Self)
        ensures
            r.listed().len() == 0,
            r.coming_id() == 0,
    {
        AnnotationStore { items: Vec::new(), next_id: 0 }
    }

    /// The annotations in the order in which they are listed.
    pub fn ordered(&self) -> (r: &[Annotation])
        ensures
            r@ == self.listed(),
            in_order(r@),
            distinct(r@),
    {
        proof {
            use_type_invariant(self);
        }
        self.items.as_slice()
    }

    /// The number of annotations.
    pub fn len(&self) -> (r: usize)
        ensures
            r == self.listed().len(),
    {
        self.items.len()
    }

    /// Whether there are none.
    pub fn is_empty(&self) -> (r: bool)
        ensures
            r == (self.listed().len() == 0),
    {
        self.items.len() == 0
    }

    /// Adds an annotation. A blank text is refused, and so is one more than ids can number.
    pub fn add_note(&mut self, target: AnnotationTarget, text: &str) -> (r: Result<u64, AnnotationError>)
        ensures
            r is Ok <==> !blank(text@) && old(self).coming_id() < u64::MAX,
            r matches Ok(id) ==> {
                &&& id == old(self).coming_id()
                &&& final(self).coming_id() == id + 1
                &&& exists|at: int|
                    {
                        &&& 0 <= at <= old(self).listed().len()
                        &&& #[trigger] added_at(
                            old(self).listed(),
                            final(self).listed(),
                            at,
                            id,
                            target,
                            text@,
                        )
                    }
            },
            r matches Err(e) ==> {
                &&& *final(self) == *old(self)
                &&& e == if blank(text@) {
                    AnnotationError::EmptyText
                } else {
                    AnnotationError::UnknownAnnotation
                }
            },
    {
        proof {
            use_type_invariant(&*self);
        }
        if trimmed(text).is_empty() {
            return Err(AnnotationError::EmptyText);
        }
        if self.next_id == u64::MAX {
            return Err(AnnotationError::UnknownAnnotation);
        }
        let id: u64 = self.next_id;
        let note = Annotation { id, target, text: text.to_owned() };
        let ghost before = self.items@;
        let mut store = AnnotationStore::new();
        std::mem::swap(self, &mut store);
        let AnnotationStore { items: mut items, .. } = store;
        let mut at: usize = items.len();
        while at > 0 && precedes(&note, &items[at - 1])
            invariant
                at <= items@.len(),
                items@ == before,
                forall|k: int| at <= k < before.len() ==> listed_before(note, #[trigger] before[k]),
            decreases at,
        {
            at -= 1;
        }
        let ghost added = note;
        proof {
            if at > 0 {
                lemma_total(added, before[at - 1]);
                assert forall|k: int| 0 <= k < at implies listed_before(#[trigger] before[k], added) by {
                    if k < at - 1 {
                        lemma_transitive(before[k], before[at - 1], added);
                    }
                }
            }
        }
        items.insert(at, note);
        proof {
            let after = items@;
            assert forall|i: int, j: int| 0 <= i < j < after.len() implies listed_before(
                #[trigger] after[i],
                #[trigger] after[j],
            ) by {
                let (bi, bj) = (if i < at { i } else { i - 1 }, if j < at { j } else { j - 1 });
                if i == at {
                    assert(listed_before(added, before[bj]));
                } else if j == at {
                    assert(listed_before(before[bi], added));
                } else {
                    assert(listed_before(before[bi], before[bj]));
                }
            }
            assert forall|i: int, j: int| 0 <= i < j < after.len() implies (#[trigger] after[i]).id
                != (#[trigger] after[j]).id by {
                let (bi, bj) = (if i < at { i } else { i - 1 }, if j < at { j } else { j - 1 });
                if i != at && j != at {
                    assert(before[bi].id != before[bj].id);
                }
            }
            assert(after.remove(at as int) =~= before);
            assert(added_at(before, after, at as int, id, target, text@));
        }
        *self = AnnotationStore { items, next_id: id + 1 };
        assert(added_at(old(self).listed(), self.listed(), at as int, id, target, text@));
        Ok(id)
    }

    /// Replaces the text of an annotation. A blank text is refused, and so is an unknown id.
    pub fn edit(&mut self, id: u64, text: &str) -> (r: Result<(), AnnotationError>)
        ensures
            r is Ok <==> !blank(text@) && has_id(old(self).listed(), id),
            r is Ok ==> edited(old(self).listed(), final(self).listed(), id, text@),
            r matches Err(e) ==> {
                &&& *final(self) == *old(self)
                &&& e == if blank(text@) {
                    AnnotationError::EmptyText
                } else {
                    AnnotationError::UnknownAnnotation
                }
            },
            final(self).coming_id() == old(self).coming_id(),
    {
        proof {
            use_type_invariant(&*self);
        }
        if trimmed(text).is_empty() {
            return Err(AnnotationError::EmptyText);
        }
        let ghost before = self.items@;
        let mut i: usize = 0;
        while i < self.items.len() && self.items[i].id != id
            invariant
                i <= self.items@.len(),
                self.items@ == before,
                forall|k: int| 0 <= k < i ==> (#[trigger] before[k]).id != id,
            decreases self.items.len() - i,
        {
            i += 1;
        }
        if i == self.items.len() {
            return Err(AnnotationError::UnknownAnnotation);
        }
        assert(before[i as int].id == id);
        let note = Annotation { id, target: self.items[i].target.clone(), text: text.to_owned() };
        let next_id: u64 = self.next_id;
        let mut store = AnnotationStore::new();
        std::mem::swap(self, &mut store);
        let AnnotationStore { items: mut items, .. } = store;
        items.set(i, note);
        proof {
            let after = items@;
            assert forall|a: int, b: int| 0 <= a < b < after.len() implies listed_before(
                #[trigger] after[a],
                #[trigger] after[b],
            ) && after[a].id != after[b].id by {
                assert(listed_before(before[a], before[b]));
                assert(before[a].id != before[b].id);
            }
            assert(edited(before, after, id, text@));
        }
        *self = AnnotationStore { items, next_id };
        Ok(())
    }

    /// Removes the annotation at a position of the list, if there is one there.
    pub fn remove_at(&mut self, at: usize)
        ensures
            final(self).listed() == if at < old(self).listed().len() {
                old(self).listed().remove(at as int)
            } else {
                old(self).listed()
            },
            final(self).coming_id() == old(self).coming_id(),
    {
        proof {
            use_type_invariant(&*self);
        }
        if at < self.items.len() {
            let ghost before = self.items@;
            let next_id: u64 = self.next_id;
            let mut store = AnnotationStore::new();
            std::mem::swap(self, &mut store);
            let AnnotationStore { items: mut items, .. } = store;
            let _ = items.remove(at);
            proof {
                let after = items@;
                assert forall|a: int, b: int| 0 <= a < b < after.len() implies listed_before(
                    #[trigger] after[a],
                    #[trigger] after[b],
                ) && after[a].id != after[b].id by {
                    let (pa, pb) = (if a < at { a } else { a + 1 }, if b < at { b } else { b + 1 });
                    assert(listed_before(before[pa], before[pb]));
                    assert(before[pa].id != before[pb].id);
                }
            }
            *self = AnnotationStore { items, next_id };
        }
    }

    /// Removes all annotations and tells how many there were.
    pub fn clear(&mut self) -> (r: usize)
        ensures
            r == old(self).listed().len(),
            final(self).listed().len() == 0,
            final(self).coming_id() == old(self).coming_id(),
    {
        let count: usize = self.items.len();
        let next_id: u64 = self.next_id;
        *self = AnnotationStore { items: Vec::new(), next_id };
        count
    }

    /// The text that stands for all annotations on the clipboard: one line each, the place and the
    /// note.
    pub fn canonical_text(&self) -> (r: String)
        ensures
            r@ == export(self.listed()),
    {
        let mut out = String::new();
        for i in 0..self.items.len()
            invariant
                out@ == export(self.items@.take(i as int)),
        {
            assert(self.items@.take(i + 1).drop_last() =~= self.items@.take(i as int));
            if i > 0 {
                out.push('\n');
            }
            let note = &self.items[i];
            let ghost head = out@;
            out.append(note.target.path.text().as_str());
            match note.target.lines {
                Some(lines) => {
                    out.push(':');
                    out.append(decimal_text(lines.start()).as_str());
                    if lines.start() != lines.end() {
                        out.push('-');
                        out.append(decimal_text(lines.end()).as_str());
                    }
                },
                None => {},
            }
            out.append(": ");
            out.append(note.text.as_str());
            assert(out@ =~= head + export_line(*note));
            assert(out@ =~= export(self.items@.take(i + 1)));
        }
        assert(self.items@.take(self.items@.len() as int) =~= self.items@);
        out
    }
}

/// `after` is `before` with one more annotation at `at`.
pub open spec fn added_at(
    before: Seq<Annotation>,
    after: Seq<Annotation>,
    at: int,
    id: u64,
    target: AnnotationTarget,
    text: Seq<char>,
) -> bool {
    &&& after.len() == before.len() + 1
    &&& after[at].id == id
    &&& after[at].target == target
    &&& after[at].text@ == text
    &&& after.remove(at) == before
}

/// Whether an annotation has the id.
pub open spec fn has_id(items: Seq<Annotation>, id: u64) -> bool {
    exists|i: int| 0 <= i < items.len() && (#[trigger] items[i]).id == id
}

/// `after` is `before` with the text of one annotation replaced.
pub open spec fn edited(
    before: Seq<Annotation>,
    after: Seq<Annotation>,
    id: u64,
    text: Seq<char>,
) -> bool {
    &&& after.len() == before.len()
    &&& forall|i: int|
        0 <= i < before.len() ==> {
            &&& (#[trigger] after[i]).id == before[i].id
            &&& after[i].target == before[i].target
            &&& after[i].text@ == if before[i].id == id {
                text
            } else {
                before[i].text@
            }
        }
}

/// The line that stands for an annotation on the clipboard.
pub open spec fn export_line(note: Annotation) -> Seq<char> {
    crate::paths::lossy_text(note.target.file()) + match note.target.range() {
        None => Seq::empty(),
        Some(lines) => if lines.from_line() == lines.to_line() {
            seq![':'] + decimal(lines.from_line() as nat)
        } else {
            seq![':'] + decimal(lines.from_line() as nat) + seq!['-'] + decimal(
                lines.to_line() as nat,
            )
        },
    } + ": "@ + note.text@
}

/// The text that stands for annotations on the clipboard.
pub open spec fn export(items: Seq<Annotation>) -> Seq<char>
    decreases items.len(),
{
    if items.len() == 0 {
        Seq::empty()
    } else if items.len() == 1 {
        export_line(items[0])
    } else {
        export(items.drop_last()).push('\n') + export_line(items.last())
    }
}

/// Compares two annotations by the order in which they are listed.
fn precedes(a: &Annotation, b: &Annotation) -> (r: bool)
    ensures
        r == listed_before(*a, *b),
{
    match order(a.target.path.as_bytes(), b.target.path.as_bytes()) {
        Order::Less => {
            proof {
                crate::paths::path_order_is_irreflexive(a.target.file());
            }
            true
        },
        Order::Greater => {
            proof {
                crate::paths::path_order_is_irreflexive(a.target.file());
                if path_less(a.target.file(), b.target.file()) {
                    crate::paths::path_order_is_transitive(
                        a.target.file(),
                        b.target.file(),
                        a.target.file(),
                    );
                }
            }
            false
        },
        Order::Same => {
            let (sa, ea): (usize, usize) = match a.target.lines {
                Some(lines) => (lines.start(), lines.end()),
                None => (0, 0),
            };
            let (sb, eb): (usize, usize) = match b.target.lines {
                Some(lines) => (lines.start(), lines.end()),
                None => (0, 0),
            };
            if sa != sb {
                sa < sb
            } else if ea != eb {
                ea < eb
            } else {
                a.id < b.id
            }
        },
    }
}

/// Of two annotations with different ids one is listed before the other.
proof fn lemma_total(a: Annotation, b: Annotation)
    requires
        a.id != b.id,
    ensures
        listed_before(a, b) || listed_before(b, a),
{
    crate::paths::path_order_is_total(a.target.file(), b.target.file());
}

/// The order of annotations is transitive.
proof fn lemma_transitive(a: Annotation, b: Annotation, c: Annotation)
    requires
        listed_before(a, b),
        listed_before(b, c),
    ensures
        listed_before(a, c),
{
    let (fa, fb, fc) = (a.target.file(), b.target.file(), c.target.file());
    if fa != fb && fb != fc {
        crate::paths::path_order_is_transitive(fa, fb, fc);
        crate::paths::path_order_is_irreflexive(fa);
    }
}

} // verus!
