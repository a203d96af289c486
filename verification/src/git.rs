//! What the viewer asks git, and what it makes of the answers.
//!
//! Every query is read-only. The functions here build the queries and interpret their output;
//! running them is left to the caller. Output that is missing, because git failed or is not
//! there, degrades to an empty answer.

use crate::paths::{
    absolute, climbs, lossy_text, order, path_less, path_order_is_irreflexive,
    path_order_is_transitive, relative, text_lossy, tidied, FilePath, Order,
};
use crate::text::{chars_of, has_char, same_text, strings, texts, trim, trimmed, utf8_text};
use vstd::prelude::*;
use vstd::slice::*;
use vstd::string::*;
use vstd::utf8::*;

verus! {

/// The object that stands for an empty tree in every repository.
pub const EMPTY_TREE: &'static str = "4b825dc642cb6eb9a060e54bf8d69288fbee4904";

/// The file that discards what is written to it.
pub const NULL_DEVICE: &'static str = "/dev/null";

/// The context window that makes a diff show the whole file.
pub const FULL_CONTEXT: &'static str = "-U1000000";

/// The most bytes a directory diff collects.
pub const MAX_DIFF_BYTES: usize = 4194304;

/// The most untracked files a directory diff shows.
pub const MAX_UNTRACKED_DIFF_FILES: usize = 512;

/// A file's state in the working tree.
#[derive(Debug, Clone, Copy, PartialEq, Eq, Structural)]
pub enum Status {
    Modified,
    Added,
    Deleted,
    Untracked,
}

/// What a diff and the meaning of "changed" compare against.
#[derive(Debug, Clone, Copy, PartialEq, Eq, Structural)]
pub enum Baseline {
    /// Uncommitted changes only.
    Head,
    /// The full body of work since forking from the base branch.
    Base,
}

/// One path and its status.
#[derive(Debug)]
pub struct StatusEntry {
    pub path: FilePath,
    pub status: Status,
}

/// The entries are sorted by path, so no path occurs twice.
pub open spec fn sorted(entries: Seq<StatusEntry>) -> bool {
    forall|i: int, j: int|
        0 <= i < j < entries.len() ==> path_less(
            #[trigger] entries[i].path@,
            #[trigger] entries[j].path@,
        )
}

/// `path` is the path of entry `i`.
pub open spec fn entry_at(entries: Seq<StatusEntry>, path: Seq<u8>, i: int) -> bool {
    0 <= i < entries.len() && entries[i].path@ == path
}

/// The entries as a map from paths to states.
pub open spec fn map_of(entries: Seq<StatusEntry>) -> Map<Seq<u8>, Status> {
    Map::new(
        |p: Seq<u8>| exists|i: int| entry_at(entries, p, i),
        |p: Seq<u8>| entries[choose|i: int| entry_at(entries, p, i)].status,
    )
}

/// Sorted entries map each of their paths to its own status.
proof fn lemma_map_of(entries: Seq<StatusEntry>, i: int)
    requires
        sorted(entries),
        0 <= i < entries.len(),
    ensures
        map_of(entries).contains_key(entries[i].path@),
        map_of(entries)[entries[i].path@] == entries[i].status,
{
    let p = entries[i].path@;
    assert(entry_at(entries, p, i));
    let k = choose|k: int| entry_at(entries, p, k);
    assert(k == i) by {
        path_order_is_irreflexive(p);
        if k < i {
            assert(path_less(entries[k].path@, entries[i].path@));
        } else if i < k {
            assert(path_less(entries[i].path@, entries[k].path@));
        }
    }
}

/// The status of each path of a tree, sorted by path.
#[derive(Debug)]
pub struct StatusMap {
    entries: Vec<StatusEntry>,
}

impl View for StatusMap {
    type V = Map<Seq<u8>, Status>;

    open spec fn view(&self) -> Map<Seq<u8>, Status> {
        map_of(self.listed())
    }
}

impl StatusMap {
    #[verifier::type_invariant]
    spec fn in_order(self) -> bool {
        sorted(self.entries@)
    }

    /// The entries in their order.
    pub closed spec fn listed(self) -> Seq<StatusEntry> {
        self.entries@
    }

    /// A map without entries.
    pub fn new() -> (r: Self)
        ensures
            r.listed().len() == 0,
            r@ == Map::<Seq<u8>, Status>::empty(),
    {
        let r = StatusMap { entries: Vec::new() };
        assert(r@ =~= Map::<Seq<u8>, Status>::empty());
        r
    }

    /// The entries, sorted by path.
    pub fn entries(&self) -> (r: &[StatusEntry])
        ensures
            r@ == self.listed(),
            sorted(r@),
    {
        proof {
            use_type_invariant(self);
        }
        self.entries.as_slice()
    }

    /// The number of paths.
    pub fn len(&self) -> (r: usize)
        ensures
            r == self.listed().len(),
    {
        self.entries.len()
    }

    /// The status of a path.
    pub fn get(&self, path: &FilePath) -> (r: Option<Status>)
        ensures
            r is Some <==> self@.contains_key(path@),
            r matches Some(s) ==> s == self@[path@],
    {
        proof {
            use_type_invariant(self);
        }
        for i in 0..self.entries.len()
            invariant
                sorted(self.entries@),
                forall|k: int| 0 <= k < i ==> #[trigger] self.entries@[k].path@ != path@,
        {
            if self.entries[i].path.same(path) {
                proof {
                    lemma_map_of(self.entries@, i as int);
                }
                return Some(self.entries[i].status);
            }
        }
        assert(!(exists|i: int| entry_at(self.entries@, path@, i)));
        None
    }

    /// Whether the path has a status.
    pub fn contains_key(&self, path: &FilePath) -> (r: bool)
        ensures
            r == self@.contains_key(path@),
    {
        self.get(path).is_some()
    }

    /// Sets the status of a path, whatever it was.
    pub fn insert(&mut self, path: FilePath, status: Status)
        ensures
            final(self)@ == old(self)@.insert(path@, status),
    {
        proof {
            use_type_invariant(&*self);
        }
        let ghost before = self.entries@;
        let mut entries: Vec<StatusEntry> = Vec::new();
        std::mem::swap(&mut entries, &mut self.entries);
        let mut at: usize = entries.len();
        let ghost p = path@;
        while at > 0 && order(path.as_bytes(), entries[at - 1].path.as_bytes()) == Order::Less
            invariant
                at <= entries@.len(),
                entries@ == before,
                p == path@,
                forall|k: int| at <= k < before.len() ==> path_less(p, #[trigger] before[k].path@),
            decreases at,
        {
            at -= 1;
        }
        if at > 0 && path.same(&entries[at - 1].path) {
            entries.set(at - 1, StatusEntry { path, status });
            proof {
                let after = entries@;
                assert(forall|k: int|
                    0 <= k < after.len() ==> #[trigger] after[k].path@ == before[k].path@);
                assert(sorted(after));
                lemma_replaced(before, after, at - 1, p, status);
            }
            self.entries = entries;
            return ;
        }
        proof {
            if at > 0 {
                crate::paths::path_order_is_total(p, before[at - 1].path@);
                lemma_below(before, at as int, p);
            }
        }
        entries.insert(at, StatusEntry { path, status });
        proof {
            lemma_inserted(before, entries@, at as int, p, status);
        }
        self.entries = entries;
    }
}

/// What sorts after entry `at - 1` sorts after all entries before it.
proof fn lemma_below(entries: Seq<StatusEntry>, at: int, p: Seq<u8>)
    requires
        sorted(entries),
        0 < at <= entries.len(),
        path_less(entries[at - 1].path@, p),
    ensures
        forall|k: int| 0 <= k < at ==> path_less(#[trigger] entries[k].path@, p),
{
    assert forall|k: int| 0 <= k < at implies path_less(#[trigger] entries[k].path@, p) by {
        if k < at - 1 {
            path_order_is_transitive(entries[k].path@, entries[at - 1].path@, p);
        }
    }
}

/// Replacing the status of a path's entry sets that path in the map.
proof fn lemma_replaced(
    before: Seq<StatusEntry>,
    after: Seq<StatusEntry>,
    at: int,
    p: Seq<u8>,
    status: Status,
)
    requires
        sorted(before),
        sorted(after),
        0 <= at < before.len(),
        before[at].path@ == p,
        after.len() == before.len(),
        after[at].path@ == p,
        after[at].status == status,
        forall|k: int| 0 <= k < before.len() && k != at ==> #[trigger] after[k] == before[k],
    ensures
        map_of(after) == map_of(before).insert(p, status),
{
    let (m, n) = (map_of(before).insert(p, status), map_of(after));
    assert forall|q: Seq<u8>|
        (#[trigger] m.dom().contains(q) == n.dom().contains(q)) && (m.dom().contains(q) ==> m[q]
            == n[q]) by {
        if exists|i: int| entry_at(before, q, i) {
            let i = choose|i: int| entry_at(before, q, i);
            assert(entry_at(after, q, i));
            lemma_map_of(before, i);
            lemma_map_of(after, i);
        }
        if exists|i: int| entry_at(after, q, i) {
            let i = choose|i: int| entry_at(after, q, i);
            assert(entry_at(before, q, i));
        }
        lemma_map_of(after, at);
    }
    assert(m =~= n);
}

/// Inserting a new path between smaller and larger ones keeps the order and sets that path.
proof fn lemma_inserted(
    before: Seq<StatusEntry>,
    after: Seq<StatusEntry>,
    at: int,
    p: Seq<u8>,
    status: Status,
)
    requires
        sorted(before),
        0 <= at <= before.len(),
        forall|k: int| 0 <= k < at ==> path_less(#[trigger] before[k].path@, p),
        forall|k: int| at <= k < before.len() ==> path_less(p, #[trigger] before[k].path@),
        after.len() == before.len() + 1,
        after[at].path@ == p,
        after[at].status == status,
        forall|k: int| 0 <= k < at ==> #[trigger] after[k] == before[k],
        forall|k: int| at < k < after.len() ==> #[trigger] after[k] == before[k - 1],
    ensures
        sorted(after),
        map_of(after) == map_of(before).insert(p, status),
{
    assert forall|i: int, j: int| 0 <= i < j < after.len() implies path_less(
        #[trigger] after[i].path@,
        #[trigger] after[j].path@,
    ) by {
        let (bi, bj) = (if i < at { i } else { i - 1 }, if j < at { j } else { j - 1 });
        if i == at {
            assert(path_less(p, before[bj].path@));
        } else if j == at {
            assert(path_less(before[bi].path@, p));
        } else {
            assert(path_less(before[bi].path@, before[bj].path@));
        }
    }
    let (m, n) = (map_of(before).insert(p, status), map_of(after));
    assert forall|q: Seq<u8>|
        (#[trigger] m.dom().contains(q) == n.dom().contains(q)) && (m.dom().contains(q) ==> m[q]
            == n[q]) by {
        lemma_map_of(after, at);
        if exists|i: int| entry_at(before, q, i) {
            let i = choose|i: int| entry_at(before, q, i);
            let j = if i < at { i } else { i + 1 };
            assert(after[j] == before[i]);
            assert(entry_at(after, q, j));
            lemma_map_of(before, i);
            lemma_map_of(after, j);
            path_order_is_irreflexive(p);
        }
        if exists|j: int| entry_at(after, q, j) {
            let j = choose|j: int| entry_at(after, q, j);
            if j != at {
                let i = if j < at { j } else { j - 1 };
                assert(entry_at(before, q, i));
            }
        }
    }
    assert(m =~= n);
}

/// The state that a two-letter porcelain code stands for. Untracked first, then deleted, then
/// added; any other code that is not blank is a modification.
pub open spec fn code_status(code: Seq<char>) -> Option<Status> {
    if code == seq!['?', '?'] {
        Some(Status::Untracked)
    } else if code.contains('D') {
        Some(Status::Deleted)
    } else if code.contains('A') {
        Some(Status::Added)
    } else if trim(code).len() == 0 {
        None
    } else {
        Some(Status::Modified)
    }
}

/// Maps a porcelain code to a state.
pub fn classify(code: &str) -> (r: Option<Status>)
    ensures
        r == code_status(code@),
{
    proof {
        reveal_strlit("??");
        assert("??"@ =~= seq!['?', '?']);
    }
    if same_text(code, "??") {
        Some(Status::Untracked)
    } else if has_char(code, 'D') {
        Some(Status::Deleted)
    } else if has_char(code, 'A') {
        Some(Status::Added)
    } else if trimmed(code).is_empty() {
        None
    } else {
        Some(Status::Modified)
    }
}

/// The state that a `--name-status` code stands for, told by its first letter.
pub open spec fn letter_status(code: Seq<char>) -> Option<Status> {
    if code.len() == 0 {
        None
    } else if code[0] == 'A' {
        Some(Status::Added)
    } else if code[0] == 'D' {
        Some(Status::Deleted)
    } else if code[0] == 'M' || code[0] == 'T' || code[0] == 'R' || code[0] == 'C' {
        Some(Status::Modified)
    } else {
        None
    }
}

/// Maps a `--name-status` code to a state.
pub fn classify_name_status(code: &str) -> (r: Option<Status>)
    ensures
        r == letter_status(code@),
{
    if code.is_empty() {
        return None;
    }
    match code.get_char(0) {
        'A' => Some(Status::Added),
        'D' => Some(Status::Deleted),
        'M' | 'T' | 'R' | 'C' => Some(Status::Modified),
        _ => None,
    }
}

/// The path that git names with the given bytes: those bytes, whatever they are, without the slash
/// that marks a directory.
pub fn path_from_git_bytes(bytes: &[u8]) -> (r: Option<FilePath>)
    ensures
        r matches Some(path) && path@ == tidied(bytes@),
{
    Some(FilePath::new(slice_to_vec(bytes)))
}

/// The index of the first NUL byte, the length without one.
pub open spec fn first_nul(bytes: Seq<u8>) -> int
    decreases bytes.len(),
{
    if bytes.len() == 0 || bytes[0] == 0 {
        0
    } else {
        1 + first_nul(bytes.skip(1))
    }
}

/// The fields between NUL bytes, without the empty ones.
pub open spec fn fields_of(bytes: Seq<u8>) -> Seq<Seq<u8>>
    decreases bytes.len(),
    via fields_of_decreases
{
    if bytes.len() == 0 {
        Seq::empty()
    } else {
        let n = first_nul(bytes);
        let head = if n == 0 {
            Seq::empty()
        } else {
            seq![bytes.take(n)]
        };
        if n >= bytes.len() {
            head
        } else {
            head + fields_of(bytes.skip(n + 1))
        }
    }
}

#[via_fn]
proof fn fields_of_decreases(bytes: Seq<u8>) {
    lemma_first_nul(bytes, 0);
}

/// The first NUL byte of a string that starts with `from` other bytes.
proof fn lemma_first_nul(bytes: Seq<u8>, from: int)
    requires
        0 <= from <= bytes.len(),
        forall|k: int| 0 <= k < from ==> bytes[k] != 0,
    ensures
        from <= first_nul(bytes) <= bytes.len(),
        from < bytes.len() && bytes[from] == 0 ==> first_nul(bytes) == from,
        from == bytes.len() ==> first_nul(bytes) == from,
    decreases bytes.len(),
{
    if bytes.len() > 0 && bytes[0] != 0 {
        let rest = bytes.skip(1);
        if from > 0 {
            assert forall|k: int| 0 <= k < from - 1 implies rest[k] != 0 by {
                assert(rest[k] == bytes[k + 1]);
            }
            lemma_first_nul(rest, from - 1);
        } else {
            lemma_first_nul(rest, 0);
        }
    }
}

/// The contents of a list of byte slices.
pub open spec fn contents(list: Seq<&[u8]>) -> Seq<Seq<u8>> {
    list.map_values(|s: &[u8]| s@)
}

/// Splits NUL-separated output into its non-empty fields.
fn split_fields(bytes: &[u8]) -> (r: Vec<&[u8]>)
    ensures
        contents(r@) == fields_of(bytes@),
{
    let mut out: Vec<&[u8]> = Vec::new();
    let mut from: usize = 0;
    let mut at: usize = 0;
    assert(bytes@.skip(0) =~= bytes@);
    assert(contents(out@) + fields_of(bytes@) =~= fields_of(bytes@));
    while at < bytes.len()
        invariant
            from <= at <= bytes@.len(),
            forall|k: int| from <= k < at ==> bytes@[k] != 0,
            contents(out@) + fields_of(bytes@.skip(from as int)) == fields_of(bytes@),
        decreases bytes.len() - at,
    {
        if bytes[at] == 0 {
            let ghost rest = bytes@.skip(from as int);
            proof {
                lemma_first_nul(rest, at - from);
                assert(rest.take(at - from) =~= bytes@.subrange(from as int, at as int));
                assert(rest.skip(at - from + 1) =~= bytes@.skip(at + 1));
            }
            let ghost before = out@;
            if at > from {
                let field = slice_subrange(bytes, from, at);
                out.push(field);
                assert(contents(out@) =~= contents(before).push(field@));
            }
            assert(contents(out@) + fields_of(bytes@.skip(at + 1)) =~= contents(before) + fields_of(
                rest,
            ));
            from = at + 1;
        }
        at += 1;
    }
    let ghost rest = bytes@.skip(from as int);
    proof {
        lemma_first_nul(rest, at - from);
        assert(rest.take(at - from) =~= bytes@.subrange(from as int, at as int));
    }
    let ghost before = out@;
    if at > from {
        let field = slice_subrange(bytes, from, at);
        out.push(field);
        assert(contents(out@) =~= contents(before).push(field@));
    }
    assert(contents(out@) =~= contents(before) + fields_of(rest));
    out
}

/// The text of a status code, empty for bytes that are not UTF-8.
pub open spec fn code_text(bytes: Seq<u8>) -> Seq<char> {
    if valid_utf8(bytes) {
        decode_utf8(bytes)
    } else {
        Seq::empty()
    }
}

/// Decodes a status code.
fn decode_code(bytes: &[u8]) -> (r: String)
    ensures
        r@ == code_text(bytes@),
{
    match utf8_text(bytes) {
        Some(text) => text,
        None => String::new(),
    }
}

/// Whether a porcelain code announces that the path it had before follows in a field of its own.
pub open spec fn has_origin(code: Seq<char>) -> bool {
    code.contains('R') || code.contains('C')
}

/// The map after one more path, where its state is known.
pub open spec fn with_status(
    map: Map<Seq<u8>, Status>,
    path: Seq<u8>,
    status: Option<Status>,
) -> Map<Seq<u8>, Status> {
    match status {
        Some(s) => map.insert(path, s),
        None => map,
    }
}

/// The states that the porcelain records from field `i` on add to `map`. A record is two code
/// characters, a space and the path; shorter ones are skipped.
pub open spec fn porcelain_from(
    fields: Seq<Seq<u8>>,
    i: int,
    map: Map<Seq<u8>, Status>,
) -> Map<Seq<u8>, Status>
    decreases fields.len() - i,
{
    if i < 0 || i >= fields.len() {
        map
    } else if fields[i].len() < 3 {
        porcelain_from(fields, i + 1, map)
    } else {
        let code = code_text(fields[i].take(2));
        porcelain_from(
            fields,
            if has_origin(code) && i + 1 < fields.len() {
                i + 2
            } else {
                i + 1
            },
            with_status(map, tidied(fields[i].skip(3)), code_status(code)),
        )
    }
}

/// The states that porcelain output gives to paths.
pub open spec fn porcelain_map(out: Seq<u8>) -> Map<Seq<u8>, Status> {
    porcelain_from(fields_of(out), 0, Map::empty())
}

/// Reads the output of `git status --porcelain=v1 -z -uall`.
pub fn parse_porcelain_status(out: &[u8]) -> (r: StatusMap)
    ensures
        r@ == porcelain_map(out@),
{
    let mut map = StatusMap::new();
    let fields = split_fields(out);
    let ghost all = fields_of(out@);
    let mut i: usize = 0;
    while i < fields.len()
        invariant
            contents(fields@) == all,
            porcelain_from(all, i as int, map@) == porcelain_map(out@),
        decreases fields.len() - i,
    {
        let rec = fields[i];
        assert(all[i as int] == rec@);
        i += 1;
        if rec.len() < 3 {
            continue ;
        }
        let code_bytes = slice_subrange(rec, 0, 2);
        assert(code_bytes@ =~= rec@.take(2));
        let code = decode_code(code_bytes);
        let path_bytes = slice_subrange(rec, 3, rec.len());
        assert(path_bytes@ =~= rec@.skip(3));
        if (has_char(code.as_str(), 'R') || has_char(code.as_str(), 'C')) && i < fields.len() {
            i += 1;
        }
        match (classify(code.as_str()), path_from_git_bytes(path_bytes)) {
            (Some(status), Some(path)) => {
                map.insert(path, status);
            },
            _ => {},
        }
    }
    map
}

/// The states that the name-status records from field `i` on add to `map`. A record is a code and
/// a path; a rename or a copy has the path it had before in between. A record without its path
/// ends the list.
pub open spec fn name_status_from(
    fields: Seq<Seq<u8>>,
    i: int,
    map: Map<Seq<u8>, Status>,
) -> Map<Seq<u8>, Status>
    decreases fields.len() - i,
{
    if i < 0 || i >= fields.len() {
        map
    } else {
        let code = code_text(fields[i]);
        let at = if code.len() > 0 && (code[0] == 'R' || code[0] == 'C') {
            i + 2
        } else {
            i + 1
        };
        if at >= fields.len() {
            map
        } else {
            name_status_from(
                fields,
                at + 1,
                with_status(map, tidied(fields[at]), letter_status(code)),
            )
        }
    }
}

/// The states that name-status output gives to paths.
pub open spec fn name_status_map(out: Seq<u8>) -> Map<Seq<u8>, Status> {
    name_status_from(fields_of(out), 0, Map::empty())
}

/// Reads the output of `git diff --name-status -z`.
pub fn parse_name_status(out: &[u8]) -> (r: StatusMap)
    ensures
        r@ == name_status_map(out@),
{
    let mut map = StatusMap::new();
    let fields = split_fields(out);
    let ghost all = fields_of(out@);
    let mut i: usize = 0;
    while i < fields.len()
        invariant
            contents(fields@) == all,
            name_status_from(all, i as int, map@) == name_status_map(out@),
        decreases fields.len() - i,
    {
        let code = decode_code(fields[i]);
        assert(all[i as int] == fields@[i as int]@);
        let mut skip: usize = 1;
        if !code.as_str().is_empty() {
            let first = code.as_str().get_char(0);
            if first == 'R' || first == 'C' {
                skip = 2;
            }
        }
        if skip >= fields.len() - i {
            return map;
        }
        let at: usize = i + skip;
        assert(all[at as int] == fields@[at as int]@);
        match (classify_name_status(code.as_str()), path_from_git_bytes(fields[at])) {
            (Some(status), Some(path)) => {
                map.insert(path, status);
            },
            _ => {},
        }
        i = at + 1;
    }
    map
}

/// Every porcelain record from field `i` on that announces an earlier path has the field for it.
pub open spec fn whole_porcelain(fields: Seq<Seq<u8>>, i: int) -> bool
    decreases fields.len() - i,
{
    if i < 0 || i >= fields.len() {
        true
    } else if fields[i].len() >= 3 && has_origin(code_text(fields[i].take(2))) {
        i + 1 < fields.len() && whole_porcelain(fields, i + 2)
    } else {
        whole_porcelain(fields, i + 1)
    }
}

/// Every name-status record from field `i` on has its paths.
pub open spec fn whole_name_status(fields: Seq<Seq<u8>>, i: int) -> bool
    decreases fields.len() - i,
{
    if i < 0 || i >= fields.len() {
        true
    } else {
        let code = code_text(fields[i]);
        let at = if code.len() > 0 && (code[0] == 'R' || code[0] == 'C') {
            i + 2
        } else {
            i + 1
        };
        at < fields.len() && whole_name_status(fields, at + 1)
    }
}

/// Output that ends behind a field.
pub open spec fn ends_a_field(out: Seq<u8>) -> bool {
    out.len() == 0 || out.last() == 0
}

/// Output that is cut behind a field has the fields of both parts.
proof fn lemma_fields_of_parts(a: Seq<u8>, b: Seq<u8>)
    requires
        ends_a_field(a),
    ensures
        fields_of(a + b) == fields_of(a) + fields_of(b),
    decreases a.len(),
{
    if a.len() == 0 {
        assert(a + b =~= b);
        assert(fields_of(a) + fields_of(b) =~= fields_of(b));
    } else {
        let n = first_nul(a);
        lemma_first_nul(a, 0);
        lemma_nul_found(a, a.len() - 1);
        lemma_nul_is_first(a);
        assert forall|k: int| 0 <= k < n implies (a + b)[k] != 0 by {
            assert((a + b)[k] == a[k]);
        }
        lemma_first_nul(a + b, n);
        let rest = a.skip(n + 1);
        assert((a + b).take(n) =~= a.take(n));
        assert((a + b).skip(n + 1) =~= rest + b);
        assert(rest.len() > 0 ==> rest.last() == a.last());
        lemma_fields_of_parts(rest, b);
        let head = if n == 0 {
            Seq::empty()
        } else {
            seq![a.take(n)]
        };
        assert(rest.len() == 0 ==> fields_of(rest) =~= Seq::empty());
        assert(head + (fields_of(rest) + fields_of(b)) =~= (head + fields_of(rest)) + fields_of(b));
    }
}

/// The first NUL byte does not come after another one.
proof fn lemma_nul_found(bytes: Seq<u8>, at: int)
    requires
        0 <= at < bytes.len(),
        bytes[at] == 0,
    ensures
        first_nul(bytes) <= at,
    decreases bytes.len(),
{
    if bytes[0] != 0 {
        lemma_nul_found(bytes.skip(1), at - 1);
    }
}

/// The first NUL byte is one, and the bytes before it are none.
proof fn lemma_nul_is_first(bytes: Seq<u8>)
    ensures
        0 <= first_nul(bytes) <= bytes.len(),
        first_nul(bytes) < bytes.len() ==> bytes[first_nul(bytes)] == 0,
        forall|k: int| 0 <= k < first_nul(bytes) ==> bytes[k] != 0,
    decreases bytes.len(),
{
    if bytes.len() > 0 && bytes[0] != 0 {
        let rest = bytes.skip(1);
        lemma_nul_is_first(rest);
        assert forall|k: int| 0 <= k < first_nul(bytes) implies bytes[k] != 0 by {
            if k > 0 {
                assert(rest[k - 1] == bytes[k]);
            }
        }
    }
}

/// Porcelain records add to the map that they start with.
proof fn lemma_porcelain_adds(fields: Seq<Seq<u8>>, i: int, map: Map<Seq<u8>, Status>)
    ensures
        porcelain_from(fields, i, map) == map.union_prefer_right(
            porcelain_from(fields, i, Map::empty()),
        ),
    decreases fields.len() - i,
{
    let none = Map::<Seq<u8>, Status>::empty();
    if i < 0 || i >= fields.len() {
        assert(map.union_prefer_right(none) =~= map);
    } else if fields[i].len() < 3 {
        lemma_porcelain_adds(fields, i + 1, map);
    } else {
        let code = code_text(fields[i].take(2));
        let next = if has_origin(code) && i + 1 < fields.len() {
            i + 2
        } else {
            i + 1
        };
        let (path, status) = (tidied(fields[i].skip(3)), code_status(code));
        lemma_porcelain_adds(fields, next, with_status(map, path, status));
        lemma_porcelain_adds(fields, next, with_status(none, path, status));
        let rest = porcelain_from(fields, next, none);
        assert(with_status(map, path, status).union_prefer_right(rest) =~= map.union_prefer_right(
            with_status(none, path, status).union_prefer_right(rest),
        ));
    }
}

/// Records behind other fields are read as they are alone.
proof fn lemma_porcelain_shift(
    first: Seq<Seq<u8>>,
    second: Seq<Seq<u8>>,
    i: int,
    map: Map<Seq<u8>, Status>,
)
    requires
        0 <= i,
    ensures
        porcelain_from(first + second, first.len() + i, map) == porcelain_from(second, i, map),
    decreases second.len() - i,
{
    let all = first + second;
    if i < second.len() {
        assert(all[first.len() + i] == second[i]);
        if second[i].len() < 3 {
            lemma_porcelain_shift(first, second, i + 1, map);
        } else {
            let code = code_text(second[i].take(2));
            let next = if has_origin(code) && i + 1 < second.len() {
                i + 2
            } else {
                i + 1
            };
            lemma_porcelain_shift(
                first,
                second,
                next,
                with_status(map, tidied(second[i].skip(3)), code_status(code)),
            );
        }
    }
}

/// Whole records are read first, then those behind them.
proof fn lemma_porcelain_parts(
    first: Seq<Seq<u8>>,
    second: Seq<Seq<u8>>,
    i: int,
    map: Map<Seq<u8>, Status>,
)
    requires
        0 <= i <= first.len(),
        whole_porcelain(first, i),
    ensures
        porcelain_from(first + second, i, map) == porcelain_from(
            second,
            0,
            porcelain_from(first, i, map),
        ),
    decreases first.len() - i,
{
    let all = first + second;
    if i == first.len() {
        lemma_porcelain_shift(first, second, 0, map);
    } else {
        assert(all[i] == first[i]);
        if first[i].len() < 3 {
            lemma_porcelain_parts(first, second, i + 1, map);
        } else {
            let code = code_text(first[i].take(2));
            let next = if has_origin(code) {
                i + 2
            } else {
                i + 1
            };
            lemma_porcelain_parts(
                first,
                second,
                next,
                with_status(map, tidied(first[i].skip(3)), code_status(code)),
            );
        }
    }
}

/// Porcelain output can be read in pieces: cut behind a whole record, the second part adds its
/// states to those of the first, and wins on equal paths.
pub proof fn porcelain_reads_in_pieces(a: Seq<u8>, b: Seq<u8>)
    requires
        ends_a_field(a),
        whole_porcelain(fields_of(a), 0),
    ensures
        porcelain_map(a + b) == porcelain_map(a).union_prefer_right(porcelain_map(b)),
{
    lemma_fields_of_parts(a, b);
    lemma_porcelain_parts(fields_of(a), fields_of(b), 0, Map::empty());
    lemma_porcelain_adds(fields_of(b), 0, porcelain_map(a));
}

/// Name-status records add to the map that they start with.
proof fn lemma_name_status_adds(fields: Seq<Seq<u8>>, i: int, map: Map<Seq<u8>, Status>)
    ensures
        name_status_from(fields, i, map) == map.union_prefer_right(
            name_status_from(fields, i, Map::empty()),
        ),
    decreases fields.len() - i,
{
    let none = Map::<Seq<u8>, Status>::empty();
    assert(map.union_prefer_right(none) =~= map);
    if 0 <= i && i < fields.len() {
        let code = code_text(fields[i]);
        let at = if code.len() > 0 && (code[0] == 'R' || code[0] == 'C') {
            i + 2
        } else {
            i + 1
        };
        if at < fields.len() {
            let (path, status) = (tidied(fields[at]), letter_status(code));
            lemma_name_status_adds(fields, at + 1, with_status(map, path, status));
            lemma_name_status_adds(fields, at + 1, with_status(none, path, status));
            let rest = name_status_from(fields, at + 1, none);
            assert(with_status(map, path, status).union_prefer_right(rest)
                =~= map.union_prefer_right(
                with_status(none, path, status).union_prefer_right(rest),
            ));
        }
    }
}

/// Records behind other fields are read as they are alone.
proof fn lemma_name_status_shift(
    first: Seq<Seq<u8>>,
    second: Seq<Seq<u8>>,
    i: int,
    map: Map<Seq<u8>, Status>,
)
    requires
        0 <= i,
    ensures
        name_status_from(first + second, first.len() + i, map) == name_status_from(second, i, map),
    decreases second.len() - i,
{
    let all = first + second;
    if i < second.len() {
        assert(all[first.len() + i] == second[i]);
        let code = code_text(second[i]);
        let at = if code.len() > 0 && (code[0] == 'R' || code[0] == 'C') {
            i + 2
        } else {
            i + 1
        };
        if at < second.len() {
            assert(all[first.len() + at] == second[at]);
            lemma_name_status_shift(
                first,
                second,
                at + 1,
                with_status(map, tidied(second[at]), letter_status(code)),
            );
        }
    }
}

/// Whole records are read first, then those behind them.
proof fn lemma_name_status_parts(
    first: Seq<Seq<u8>>,
    second: Seq<Seq<u8>>,
    i: int,
    map: Map<Seq<u8>, Status>,
)
    requires
        0 <= i <= first.len(),
        whole_name_status(first, i),
    ensures
        name_status_from(first + second, i, map) == name_status_from(
            second,
            0,
            name_status_from(first, i, map),
        ),
    decreases first.len() - i,
{
    let all = first + second;
    if i == first.len() {
        lemma_name_status_shift(first, second, 0, map);
    } else {
        assert(all[i] == first[i]);
        let code = code_text(first[i]);
        let at = if code.len() > 0 && (code[0] == 'R' || code[0] == 'C') {
            i + 2
        } else {
            i + 1
        };
        assert(all[at] == first[at]);
        lemma_name_status_parts(
            first,
            second,
            at + 1,
            with_status(map, tidied(first[at]), letter_status(code)),
        );
    }
}

/// Name-status output can be read in pieces: cut behind a whole record, the second part adds its
/// states to those of the first, and wins on equal paths.
pub proof fn name_status_reads_in_pieces(a: Seq<u8>, b: Seq<u8>)
    requires
        ends_a_field(a),
        whole_name_status(fields_of(a), 0),
    ensures
        name_status_map(a + b) == name_status_map(a).union_prefer_right(name_status_map(b)),
{
    lemma_fields_of_parts(a, b);
    lemma_name_status_parts(fields_of(a), fields_of(b), 0, Map::empty());
    lemma_name_status_adds(fields_of(b), 0, name_status_map(a));
}

/// The states that `git status` reports: none where it gave no output.
pub open spec fn status_map(output: Option<Seq<u8>>) -> Map<Seq<u8>, Status> {
    match output {
        Some(out) => porcelain_map(out),
        None => Map::empty(),
    }
}

/// The content of optional output.
pub open spec fn content(output: Option<&[u8]>) -> Option<Seq<u8>> {
    match output {
        Some(out) => Some(out@),
        None => None,
    }
}

/// The status of each path in the working tree, from what the query of [`status_query`] printed.
pub fn status(output: Option<&[u8]>) -> (r: StatusMap)
    ensures
        r@ == status_map(content(output)),
{
    match output {
        None => StatusMap::new(),
        Some(out) => parse_porcelain_status(out),
    }
}

/// A map with the untracked paths of `status` that it does not hold yet.
pub open spec fn with_untracked(
    map: Map<Seq<u8>, Status>,
    status: Map<Seq<u8>, Status>,
) -> Map<Seq<u8>, Status> {
    Map::new(
        |p: Seq<u8>|
            map.contains_key(p) || (status.contains_key(p) && status[p] == Status::Untracked),
        |p: Seq<u8>|
            if map.contains_key(p) {
                map[p]
            } else {
                Status::Untracked
            },
    )
}

/// What has changed against a baseline: the working tree's status for `Head`, and where no fork
/// point is known; else what differs from the fork point, and the untracked files.
pub open spec fn changes(
    baseline: Baseline,
    fork_known: bool,
    name_status: Option<Seq<u8>>,
    porcelain: Option<Seq<u8>>,
) -> Map<Seq<u8>, Status> {
    match baseline {
        Baseline::Base if fork_known => with_untracked(
            match name_status {
                Some(out) => name_status_map(out),
                None => Map::empty(),
            },
            status_map(porcelain),
        ),
        _ => status_map(porcelain),
    }
}

/// The files changed against `baseline`. `fork_known` says whether a fork point was found,
/// `name_status` is what the query of [`changed_query`] printed, `porcelain` what that of
/// [`status_query`] did.
pub fn changed_set(
    baseline: Baseline,
    fork_known: bool,
    name_status: Option<&[u8]>,
    porcelain: Option<&[u8]>,
) -> (r: StatusMap)
    ensures
        r@ == changes(baseline, fork_known, content(name_status), content(porcelain)),
{
    match baseline {
        Baseline::Base if fork_known => {
            let mut map = match name_status {
                Some(out) => parse_name_status(out),
                None => StatusMap::new(),
            };
            let ghost tracked_map = map@;
            let known = status(porcelain);
            let entries = known.entries();
            assert(map@ =~= with_untracked(tracked_map, map_of(entries@.take(0))));
            for i in 0..entries.len()
                invariant
                    sorted(entries@),
                    map@ == with_untracked(tracked_map, map_of(entries@.take(i as int))),
            {
                proof {
                    lemma_take(entries@, i as int);
                }
                let ghost before = map@;
                if entries[i].status == Status::Untracked && !map.contains_key(&entries[i].path) {
                    map.insert(entries[i].path.clone(), Status::Untracked);
                }
                assert(map@ =~= with_untracked(tracked_map, map_of(entries@.take(i + 1))));
            }
            assert(entries@.take(entries@.len() as int) =~= entries@);
            map
        },
        _ => status(porcelain),
    }
}

/// One more sorted entry sets one more path.
proof fn lemma_take(entries: Seq<StatusEntry>, i: int)
    requires
        sorted(entries),
        0 <= i < entries.len(),
    ensures
        map_of(entries.take(i + 1)) == map_of(entries.take(i)).insert(
            entries[i].path@,
            entries[i].status,
        ),
        !map_of(entries.take(i)).contains_key(entries[i].path@),
{
    let (a, b) = (entries.take(i), entries.take(i + 1));
    assert(sorted(a) && sorted(b));
    lemma_inserted(a, b, i, entries[i].path@, entries[i].status);
    if exists|k: int| entry_at(a, entries[i].path@, k) {
        let k = choose|k: int| entry_at(a, entries[i].path@, k);
        path_order_is_irreflexive(entries[i].path@);
        assert(path_less(entries[k].path@, entries[i].path@));
    }
}

/// A baseline of `Head` shows the working tree's status, and so does a baseline of `Base` without
/// a fork point.
pub proof fn changed_without_fork_is_status(
    name_status: Option<Seq<u8>>,
    porcelain: Option<Seq<u8>>,
    known: bool,
)
    ensures
        changes(Baseline::Head, known, name_status, porcelain) == status_map(porcelain),
        changes(Baseline::Base, false, name_status, porcelain) == status_map(porcelain),
{
}

/// Every untracked file belongs to the work since the fork point.
pub proof fn untracked_files_are_changes(
    baseline: Baseline,
    known: bool,
    name_status: Option<Seq<u8>>,
    porcelain: Option<Seq<u8>>,
    path: Seq<u8>,
)
    requires
        status_map(porcelain).contains_key(path),
        status_map(porcelain)[path] == Status::Untracked,
    ensures
        changes(baseline, known, name_status, porcelain).contains_key(path),
{
}

/// Whether a path stays below the tree's root: relative, free of `..`, and, where both the path
/// and the root exist, resolved to a place below the resolved root.
pub open spec fn confined(path: Seq<u8>, resolved: Option<(Seq<u8>, Seq<u8>)>) -> bool {
    &&& !absolute(path)
    &&& !climbs(path)
    &&& resolved matches Some((full, root)) ==> relative(full, root) is Some
}

/// The paths of a pair of resolved paths.
pub open spec fn resolved_pair(resolved: Option<(FilePath, FilePath)>) -> Option<
    (Seq<u8>, Seq<u8>),
> {
    match resolved {
        Some((full, root)) => Some((full@, root@)),
        None => None,
    }
}

/// Tests whether a path stays below the tree's root. `resolved` holds the resolved path and the
/// resolved root, where both exist.
pub fn is_within_root(path: &FilePath, resolved: &Option<(FilePath, FilePath)>) -> (r: bool)
    ensures
        r == confined(path@, resolved_pair(*resolved)),
{
    if path.is_absolute() || path.has_parent_component() {
        return false;
    }
    match resolved {
        Some((full, root)) => full.strip_prefix(root).is_some(),
        None => true,
    }
}

/// Whether a branch name from outside may be handed to git: not empty, and not an option.
pub open spec fn safe_ref(name: Seq<char>) -> bool {
    name.len() > 0 && name[0] != '-'
}

/// Tests whether a branch name may be handed to git.
pub fn is_safe_ref(name: &str) -> (r: bool)
    ensures
        r == safe_ref(name@),
{
    !name.is_empty() && name.get_char(0) != '-'
}

/// The branches that can be the base, in the order in which they are tried: the hint, where it is
/// safe, and the conventional names.
pub open spec fn base_names(hint: Option<Seq<char>>) -> Seq<Seq<char>> {
    let usual = seq!["main"@, "master"@, "origin/main"@, "origin/master"@];
    match hint {
        Some(h) if safe_ref(h) => seq![h] + usual,
        _ => usual,
    }
}

/// The text of an optional string.
pub open spec fn opt_text(s: Option<&str>) -> Option<Seq<char>> {
    match s {
        Some(t) => Some(t@),
        None => None,
    }
}

/// Lists the branches that can be the base, in the order in which they are tried.
pub fn base_candidates(hint: Option<&str>) -> (r: Vec<String>)
    ensures
        texts(r@) == base_names(opt_text(hint)),
        r@.len() >= 4,
{
    let mut names: Vec<String> = Vec::new();
    match hint {
        Some(h) => {
            if is_safe_ref(h) {
                names.push(h.to_owned());
            }
        },
        None => {},
    }
    names.push("main".to_owned());
    names.push("master".to_owned());
    names.push("origin/main".to_owned());
    names.push("origin/master".to_owned());
    assert(texts(names@) =~= base_names(opt_text(hint)));
    names
}

/// The first of `names` whose entry in `exists_list` is true.
pub open spec fn first_existing(names: Seq<Seq<char>>, existing: Seq<bool>) -> Option<Seq<char>>
    decreases names.len(),
{
    if names.len() == 0 || existing.len() == 0 {
        None
    } else if existing[0] {
        Some(names[0])
    } else {
        first_existing(names.skip(1), existing.skip(1))
    }
}

/// The base branch: the first candidate that exists. `existing` answers, in the order of
/// [`base_candidates`], whether each candidate resolves to a commit; a missing answer counts as
/// no.
pub fn resolve_base_branch(hint: Option<&str>, existing: &Vec<bool>) -> (r: Option<String>)
    ensures
        r is Some <==> first_existing(base_names(opt_text(hint)), existing@) is Some,
        r matches Some(name) ==> Some(name@) == first_existing(
            base_names(opt_text(hint)),
            existing@,
        ),
{
    let names = base_candidates(hint);
    let ghost all = base_names(opt_text(hint));
    let mut i: usize = 0;
    assert(all.skip(0) =~= all && existing@.skip(0) =~= existing@);
    while i < names.len() && i < existing.len()
        invariant
            i <= names@.len() && i <= existing@.len(),
            texts(names@) == all,
            all == base_names(opt_text(hint)),
            first_existing(all, existing@) == first_existing(
                all.skip(i as int),
                existing@.skip(i as int),
            ),
        decreases names.len() - i,
    {
        assert(all.skip(i as int)[0] == names@[i as int]@);
        assert(existing@.skip(i as int)[0] == existing@[i as int]);
        if existing[i] {
            return Some(names[i].clone());
        }
        assert(all.skip(i as int).skip(1) =~= all.skip(i + 1));
        assert(existing@.skip(i as int).skip(1) =~= existing@.skip(i + 1));
        i += 1;
    }
    None
}

/// What is known of a repository when its default baseline is chosen.
#[derive(Debug)]
pub struct RepoFacts {
    /// The base branch, where one was found.
    pub base: Option<String>,
    /// The branch that is checked out, `None` when detached.
    pub current: Option<String>,
    /// Whether the tree is a linked worktree.
    pub is_worktree: bool,
}

/// Whether the work on a tree is reviewed against the base branch: on another branch than the
/// base, and in a detached worktree with a base.
pub open spec fn reviews_base(repo: Option<RepoFacts>) -> bool {
    match repo {
        Some(facts) => match (facts.base, facts.current) {
            (Some(base), Some(current)) => base@ != current@,
            (Some(_), None) => facts.is_worktree,
            (None, _) => false,
        },
        None => false,
    }
}

/// The baseline that a session starts with; `repo` is `None` outside a repository.
pub fn default_baseline(repo: &Option<RepoFacts>) -> (r: Baseline)
    ensures
        r == if reviews_base(*repo) {
            Baseline::Base
        } else {
            Baseline::Head
        },
{
    match repo {
        Some(facts) => match (&facts.base, &facts.current) {
            (Some(base), Some(current)) => {
                if same_text(base.as_str(), current.as_str()) {
                    Baseline::Head
                } else {
                    Baseline::Base
                }
            },
            (Some(_), None) => {
                if facts.is_worktree {
                    Baseline::Base
                } else {
                    Baseline::Head
                }
            },
            (None, _) => Baseline::Head,
        },
        None => Baseline::Head,
    }
}

/// The trimmed text of a query's output.
pub open spec fn output_text(output: Seq<u8>) -> Seq<char> {
    trim(lossy_text(output))
}

/// The trimmed text of a query's output, where it has one.
pub fn trimmed_output(output: Option<&[u8]>) -> (r: Option<String>)
    ensures
        r is Some <==> output is Some,
        r matches Some(text) ==> text@ == output_text(output.unwrap()@),
{
    match output {
        Some(out) => {
            let text = text_lossy(out);
            Some(trimmed(text.as_str()).to_owned())
        },
        None => None,
    }
}

/// The branch that is checked out, from what the query of [`branch_query`] printed; `None` when
/// detached and when the query failed.
pub fn current_branch(output: Option<&[u8]>) -> (r: Option<String>)
    ensures
        r is Some <==> output is Some && output_text(output.unwrap()@) != "HEAD"@,
        r matches Some(name) ==> name@ == output_text(output.unwrap()@),
{
    match trimmed_output(output) {
        Some(name) => {
            if same_text(name.as_str(), "HEAD") {
                None
            } else {
                Some(name)
            }
        },
        None => None,
    }
}

/// The commit that the work forks from, from what the query of [`fork_query`] printed.
pub fn base_fork_point(output: Option<&[u8]>) -> (r: Option<String>)
    ensures
        r is Some <==> output is Some,
        r matches Some(text) ==> text@ == output_text(output.unwrap()@),
{
    trimmed_output(output)
}

/// `HEAD` where it resolves, else the empty tree, so that the first files of a repository without
/// commits show as additions.
pub fn head_or_empty_tree(head_resolves: bool) -> (r: &'static str)
    ensures
        r@ == if head_resolves {
            "HEAD"@
        } else {
            EMPTY_TREE@
        },
{
    if head_resolves {
        "HEAD"
    } else {
        EMPTY_TREE
    }
}

/// The commit that a baseline is compared with.
pub open spec fn compared_with(
    baseline: Baseline,
    fork: Option<Seq<char>>,
    head_resolves: bool,
) -> Seq<char> {
    let head = if head_resolves {
        "HEAD"@
    } else {
        EMPTY_TREE@
    };
    match (baseline, fork) {
        (Baseline::Base, Some(commit)) => commit,
        _ => head,
    }
}

/// The commit that a baseline is compared with: the fork point for `Base`, where it is known, else
/// the head.
fn against(baseline: Baseline, fork: Option<&str>, head_resolves: bool) -> (r: String)
    ensures
        r@ == compared_with(baseline, opt_text(fork), head_resolves),
{
    match (baseline, fork) {
        (Baseline::Base, Some(commit)) => commit.to_owned(),
        _ => head_or_empty_tree(head_resolves).to_owned(),
    }
}

/// A query for git: its arguments, and the path it is about.
#[derive(Debug)]
pub struct GitQuery {
    pub args: Vec<String>,
    pub path: Option<FilePath>,
}

impl GitQuery {
    /// The query has these arguments and this path.
    pub open spec fn asks(self, args: Seq<Seq<char>>, path: Option<Seq<u8>>) -> bool {
        &&& texts(self.args@) == args
        &&& match (self.path, path) {
            (Some(p), Some(q)) => p@ == q,
            (None, None) => true,
            _ => false,
        }
    }
}

/// The query for the working tree's status.
pub fn status_query() -> (r: GitQuery)
    ensures
        r.asks(seq!["status"@, "--porcelain=v1"@, "-z"@, "-uall"@], None),
{
    let r = GitQuery {
        args: strings(vec!["status", "--porcelain=v1", "-z", "-uall"].as_slice()),
        path: None,
    };
    assert(texts(r.args@) =~= seq!["status"@, "--porcelain=v1"@, "-z"@, "-uall"@]);
    r
}

/// The query for the names and states of what differs from `fork`.
pub fn changed_query(fork: &str) -> (r: GitQuery)
    ensures
        r.asks(
            seq![
                "diff"@,
                "--no-ext-diff"@,
                "--no-textconv"@,
                "--name-status"@,
                "-z"@,
                fork@,
            ],
            None,
        ),
{
    let r = GitQuery {
        args: strings(
            vec![
                "diff",
                "--no-ext-diff",
                "--no-textconv",
                "--name-status",
                "-z",
                fork,
            ].as_slice(),
        ),
        path: None,
    };
    assert(texts(r.args@) =~= seq![
        "diff"@,
        "--no-ext-diff"@,
        "--no-textconv"@,
        "--name-status"@,
        "-z"@,
        fork@,
    ]);
    r
}

/// The query for the branch that is checked out.
pub fn branch_query() -> (r: GitQuery)
    ensures
        r.asks(seq!["rev-parse"@, "--abbrev-ref"@, "HEAD"@], None),
{
    let r = GitQuery {
        args: strings(vec!["rev-parse", "--abbrev-ref", "HEAD"].as_slice()),
        path: None,
    };
    assert(texts(r.args@) =~= seq!["rev-parse"@, "--abbrev-ref"@, "HEAD"@]);
    r
}

/// The query that succeeds where the head resolves.
pub fn head_query() -> (r: GitQuery)
    ensures
        r.asks(seq!["rev-parse"@, "--verify"@, "--quiet"@, "HEAD"@], None),
{
    let r = GitQuery {
        args: strings(vec!["rev-parse", "--verify", "--quiet", "HEAD"].as_slice()),
        path: None,
    };
    assert(texts(r.args@) =~= seq!["rev-parse"@, "--verify"@, "--quiet"@, "HEAD"@]);
    r
}

/// The query that succeeds where `name` resolves to a commit.
pub fn ref_exists(name: &str) -> (r: GitQuery)
    ensures
        r.asks(
            seq![
                "rev-parse"@,
                "--verify"@,
                "--quiet"@,
                "--end-of-options"@,
                name@ + "^{commit}"@,
            ],
            None,
        ),
{
    let commit = name.to_owned().concat("^{commit}");
    let r = GitQuery {
        args: strings(
            vec![
                "rev-parse",
                "--verify",
                "--quiet",
                "--end-of-options",
                commit.as_str(),
            ].as_slice(),
        ),
        path: None,
    };
    assert(texts(r.args@) =~= seq![
        "rev-parse"@,
        "--verify"@,
        "--quiet"@,
        "--end-of-options"@,
        name@ + "^{commit}"@,
    ]);
    r
}

/// The query for the commit that the work forks from the base branch at.
pub fn fork_query(base: &str) -> (r: GitQuery)
    ensures
        r.asks(seq!["merge-base"@, base@, "HEAD"@], None),
{
    let r = GitQuery { args: strings(vec!["merge-base", base, "HEAD"].as_slice()), path: None };
    assert(texts(r.args@) =~= seq!["merge-base"@, base@, "HEAD"@]);
    r
}

/// The query that succeeds where git tracks the path.
pub fn tracked_query(path: &FilePath) -> (r: GitQuery)
    ensures
        r.asks(seq!["ls-files"@, "--error-unmatch"@, "--"@], Some(path@)),
{
    let r = GitQuery {
        args: strings(vec!["ls-files", "--error-unmatch", "--"].as_slice()),
        path: Some(path.clone()),
    };
    assert(texts(r.args@) =~= seq!["ls-files"@, "--error-unmatch"@, "--"@]);
    r
}

/// Whether a path is untracked: git does not track it, and it is there.
pub fn is_untracked(tracked_by_git: bool, exists_on_disk: bool) -> (r: bool)
    ensures
        r == (!tracked_by_git && exists_on_disk),
{
    !tracked_by_git && exists_on_disk
}

/// The arguments that show a whole file as additions.
pub open spec fn untracked_args(full_context: bool) -> Seq<Seq<char>> {
    seq!["diff"@, "--no-ext-diff"@, "--no-textconv"@, "--no-index"@, "--no-color"@] + (
    if full_context {
        seq![FULL_CONTEXT@]
    } else {
        Seq::empty()
    }) + seq!["--"@, NULL_DEVICE@]
}

/// The arguments that compare with a commit.
pub open spec fn compare_args(commit: Seq<char>, full_context: bool) -> Seq<Seq<char>> {
    seq!["diff"@, "--no-ext-diff"@, "--no-textconv"@, "--no-color"@] + (if full_context {
        seq![FULL_CONTEXT@]
    } else {
        Seq::empty()
    }) + seq![commit, "--"@]
}

/// Builds the arguments that compare with a commit.
fn compare(commit: &str, full_context: bool) -> (r: Vec<String>)
    ensures
        texts(r@) == compare_args(commit@, full_context),
{
    let mut list = vec!["diff", "--no-ext-diff", "--no-textconv", "--no-color"];
    if full_context {
        list.push(FULL_CONTEXT);
    }
    list.push(commit);
    list.push("--");
    let r = strings(list.as_slice());
    assert(texts(r@) =~= compare_args(commit@, full_context));
    r
}

/// The query for the patch that adds an untracked file, `None` for a path that leaves the root.
pub fn diff_untracked(
    path: &FilePath,
    resolved: &Option<(FilePath, FilePath)>,
    full_context: bool,
) -> (r: Option<GitQuery>)
    ensures
        r is Some <==> confined(path@, resolved_pair(*resolved)),
        r matches Some(query) ==> query.asks(untracked_args(full_context), Some(path@)),
{
    if !is_within_root(path, resolved) {
        return None;
    }
    let mut list = vec!["diff", "--no-ext-diff", "--no-textconv", "--no-index", "--no-color"];
    if full_context {
        list.push(FULL_CONTEXT);
    }
    list.push("--");
    list.push(NULL_DEVICE);
    let args = strings(list.as_slice());
    assert(texts(args@) =~= untracked_args(full_context));
    Some(GitQuery { args, path: Some(path.clone()) })
}

/// The query for the diff of one file against a baseline, `None` for a path that leaves the root.
/// An untracked file shows as an addition; any other is compared with the baseline's commit.
pub fn diff(
    path: &FilePath,
    resolved: &Option<(FilePath, FilePath)>,
    untracked: bool,
    baseline: Baseline,
    fork: Option<&str>,
    head_resolves: bool,
    full_context: bool,
) -> (r: Option<GitQuery>)
    ensures
        r is Some <==> confined(path@, resolved_pair(*resolved)),
        r matches Some(query) ==> query.asks(
            if untracked {
                untracked_args(full_context)
            } else {
                compare_args(compared_with(baseline, opt_text(fork), head_resolves), full_context)
            },
            Some(path@),
        ),
{
    if !is_within_root(path, resolved) {
        return None;
    }
    if untracked {
        return diff_untracked(path, resolved, full_context);
    }
    let commit = against(baseline, fork, head_resolves);
    Some(GitQuery { args: compare(commit.as_str(), full_context), path: Some(path.clone()) })
}

/// The query for the tracked changes below a directory, `None` for one that leaves the root. The
/// empty path stands for the whole tree.
pub fn directory_query(
    dir: &FilePath,
    resolved: &Option<(FilePath, FilePath)>,
    baseline: Baseline,
    fork: Option<&str>,
    head_resolves: bool,
) -> (r: Option<GitQuery>)
    ensures
        r is Some <==> dir@.len() == 0 || confined(dir@, resolved_pair(*resolved)),
        r matches Some(query) ==> query.asks(
            compare_args(compared_with(baseline, opt_text(fork), head_resolves), false),
            if dir@.len() == 0 {
                None
            } else {
                Some(dir@)
            },
        ),
{
    if !dir.is_empty() && !is_within_root(dir, resolved) {
        return None;
    }
    let commit = against(baseline, fork, head_resolves);
    let path = if dir.is_empty() {
        None
    } else {
        Some(dir.clone())
    };
    Some(GitQuery { args: compare(commit.as_str(), false), path })
}

/// Whether a path lies below a directory of the tree.
pub open spec fn in_directory(path: Seq<u8>, dir: Seq<u8>) -> bool {
    dir.len() == 0 || relative(path, dir) is Some
}

/// The untracked entries below a directory, in their order.
pub open spec fn untracked_below(entries: Seq<StatusEntry>, dir: Seq<u8>) -> Seq<Seq<u8>>
    decreases entries.len(),
{
    if entries.len() == 0 {
        Seq::empty()
    } else {
        let before = untracked_below(entries.drop_last(), dir);
        let last = entries.last();
        if last.status == Status::Untracked && in_directory(last.path@, dir) {
            before.push(last.path@)
        } else {
            before
        }
    }
}

/// The paths of a list.
pub open spec fn path_views(list: Seq<FilePath>) -> Seq<Seq<u8>> {
    list.map_values(|p: FilePath| p@)
}

/// The first elements of a list.
pub open spec fn at_most<A>(list: Seq<A>, n: int) -> Seq<A> {
    if list.len() <= n {
        list
    } else {
        list.take(n)
    }
}

/// The untracked files that a directory diff shows: the first ones below the directory, in the
/// order of paths.
pub fn directory_untracked(map: &StatusMap, dir: &FilePath) -> (r: Vec<FilePath>)
    ensures
        path_views(r@) == at_most(
            untracked_below(map.listed(), dir@),
            MAX_UNTRACKED_DIFF_FILES as int,
        ),
{
    let entries = map.entries();
    let mut out: Vec<FilePath> = Vec::new();
    for i in 0..entries.len()
        invariant
            entries@ == map.listed(),
            path_views(out@) == at_most(
                untracked_below(entries@.take(i as int), dir@),
                MAX_UNTRACKED_DIFF_FILES as int,
            ),
    {
        let ghost all = untracked_below(entries@.take(i as int), dir@);
        assert(entries@.take(i + 1).drop_last() =~= entries@.take(i as int));
        let below = dir.is_empty() || entries[i].path.strip_prefix(dir).is_some();
        let ghost before = out@;
        if entries[i].status == Status::Untracked && below {
            if out.len() < MAX_UNTRACKED_DIFF_FILES {
                assert(all.len() < MAX_UNTRACKED_DIFF_FILES) by {
                    assert(path_views(before).len() == before.len());
                }
                out.push(entries[i].path.clone());
                assert(path_views(out@) =~= path_views(before).push(entries@[i as int].path@));
            } else {
                assert(path_views(before).len() == before.len());
                assert(all.push(entries@[i as int].path@).take(MAX_UNTRACKED_DIFF_FILES as int)
                    =~= all.take(MAX_UNTRACKED_DIFF_FILES as int));
            }
        }
    }
    assert(entries@.take(entries@.len() as int) =~= entries@);
    out
}

/// The longest prefix of a text whose UTF-8 form has at most `budget` bytes.
pub open spec fn prefix_within(text: Seq<char>, budget: int) -> Seq<char>
    decreases text.len(),
{
    if text.len() == 0 || encode_utf8(text).len() <= budget {
        text
    } else {
        prefix_within(text.drop_last(), budget)
    }
}

/// A text that ends its last line, where it has one.
pub open spec fn line_ended(text: Seq<char>) -> Seq<char> {
    if text.len() > 0 && text.last() != '\n' {
        text.push('\n')
    } else {
        text
    }
}

/// A directory diff with the patch of one more file, as far as it fits. An empty patch adds
/// nothing, and nothing is added to a full diff.
pub open spec fn with_patch(output: Seq<char>, patch: Seq<char>) -> Seq<char> {
    if encode_utf8(output).len() >= MAX_DIFF_BYTES || patch.len() == 0 {
        output
    } else {
        let lines = line_ended(output);
        lines + prefix_within(patch, MAX_DIFF_BYTES - encode_utf8(lines).len())
    }
}

/// A directory diff with the patches of several files.
pub open spec fn with_patches(output: Seq<char>, patches: Seq<Seq<char>>) -> Seq<char>
    decreases patches.len(),
{
    if patches.len() == 0 {
        output
    } else {
        with_patch(with_patches(output, patches.drop_last()), patches.last())
    }
}

/// The number of bytes of one character in UTF-8.
pub open spec fn char_width(c: char) -> nat {
    if (c as u32) < 0x80 {
        1
    } else if (c as u32) < 0x800 {
        2
    } else if (c as u32) < 0x10000 {
        3
    } else {
        4
    }
}

/// The UTF-8 form of a text with one more character has that character's bytes more.
proof fn lemma_encoded_push(text: Seq<char>, c: char)
    ensures
        encode_utf8(text.push(c)).len() == encode_utf8(text).len() + char_width(c),
    decreases text.len(),
{
    reveal_with_fuel(encode_utf8, 2);
    broadcast use char_is_scalar;

    if text.len() == 0 {
        assert(text.push(c).drop_first() =~= Seq::empty());
    } else {
        lemma_encoded_push(text.drop_first(), c);
        assert(text.push(c).drop_first() =~= text.drop_first().push(c));
    }
}

/// The longest prefix that fits is the one after which the next character does not fit.
proof fn lemma_prefix_within(text: Seq<char>, budget: int, n: int)
    requires
        0 <= n <= text.len(),
        encode_utf8(text.take(n)).len() <= budget,
        n == text.len() || encode_utf8(text.take(n + 1)).len() > budget,
    ensures
        prefix_within(text, budget) == text.take(n),
    decreases text.len(),
{
    if n == text.len() {
        assert(text.take(n) =~= text);
    } else {
        lemma_encoded_grows(text, n + 1);
        assert(text.drop_last().take(n) =~= text.take(n));
        if n + 1 < text.len() {
            assert(text.drop_last().take(n + 1) =~= text.take(n + 1));
        } else {
            assert(text.drop_last() =~= text.take(n));
        }
        lemma_prefix_within(text.drop_last(), budget, n);
    }
}

/// A prefix has at most as many bytes as the whole.
proof fn lemma_encoded_grows(text: Seq<char>, n: int)
    requires
        0 <= n <= text.len(),
    ensures
        encode_utf8(text.take(n)).len() <= encode_utf8(text).len(),
    decreases text.len() - n,
{
    if n < text.len() {
        lemma_encoded_push(text.take(n), text[n]);
        assert(text.take(n).push(text[n]) =~= text.take(n + 1));
        lemma_encoded_grows(text, n + 1);
    } else {
        assert(text.take(n) =~= text);
    }
}

/// The number of bytes of a character in UTF-8.
fn width_of(c: char) -> (r: usize)
    ensures
        r == char_width(c),
{
    let v: u32 = c as u32;
    if v < 0x80 {
        1
    } else if v < 0x800 {
        2
    } else if v < 0x10000 {
        3
    } else {
        4
    }
}

/// Appends the patch of one more file to a directory diff, as far as it fits.
pub fn append_patch(output: &mut String, patch: &str)
    ensures
        final(output)@ == with_patch(old(output)@, patch@),
{
    let used: usize = output.as_str().as_bytes().len();
    if used >= MAX_DIFF_BYTES || patch.is_empty() {
        return ;
    }
    let count: usize = output.as_str().unicode_len();
    if count > 0 && output.as_str().get_char(count - 1) != '\n' {
        output.push('\n');
    }
    let ghost lines = output@;
    let held: usize = output.as_str().as_bytes().len();
    proof {
        lemma_encoded_push(old(output)@, '\n');
        assert(held <= MAX_DIFF_BYTES);
    }
    let budget: usize = MAX_DIFF_BYTES - held;
    let chars = chars_of(patch);
    let mut n: usize = 0;
    let mut size: usize = 0;
    let mut open: bool = true;
    proof {
        reveal_with_fuel(encode_utf8, 1);
        assert(chars@.take(0) =~= Seq::empty());
    }
    while open && n < chars.len()
        invariant
            n <= chars@.len(),
            chars@ == patch@,
            size == encode_utf8(chars@.take(n as int)).len(),
            size <= budget <= MAX_DIFF_BYTES,
            output@ == lines + chars@.take(n as int),
            !open ==> n < chars@.len() && encode_utf8(chars@.take(n + 1)).len() > budget,
        decreases (chars.len() - n) + (if open { 1int } else { 0int }),
    {
        let width: usize = width_of(chars[n]);
        proof {
            lemma_encoded_push(chars@.take(n as int), chars@[n as int]);
            assert(chars@.take(n as int).push(chars@[n as int]) =~= chars@.take(n + 1));
        }
        if size + width <= budget {
            output.push(chars[n]);
            assert(output@ =~= lines + chars@.take(n + 1));
            size = size + width;
            n += 1;
        } else {
            open = false;
        }
    }
    proof {
        lemma_prefix_within(patch@, budget as int, n as int);
    }
}

/// The text of a directory diff: the tracked changes below the directory, then the patches of the
/// untracked files there, as far as they fit. Empty for a directory that leaves the root. The
/// patches come in the order of [`directory_untracked`].
pub fn diff_directory(
    dir: &FilePath,
    resolved: &Option<(FilePath, FilePath)>,
    tracked_changes: &str,
    patches: &Vec<String>,
) -> (r: String)
    ensures
        r@ == if dir@.len() == 0 || confined(dir@, resolved_pair(*resolved)) {
            with_patches(tracked_changes@, texts(patches@))
        } else {
            Seq::empty()
        },
{
    if !dir.is_empty() && !is_within_root(dir, resolved) {
        return String::new();
    }
    let mut output = tracked_changes.to_owned();
    let ghost all = texts(patches@);
    assert(all.take(0) =~= Seq::empty());
    for i in 0..patches.len()
        invariant
            all == texts(patches@),
            output@ == with_patches(tracked_changes@, all.take(i as int)),
    {
        append_patch(&mut output, patches[i].as_str());
        assert(all.take(i + 1).drop_last() =~= all.take(i as int));
    }
    assert(all.take(all.len() as int) =~= all);
    output
}

/// A prefix cut to a budget that is not negative fits it.
proof fn lemma_prefix_fits(text: Seq<char>, budget: int)
    requires
        budget >= 0,
    ensures
        encode_utf8(prefix_within(text, budget)).len() <= budget,
    decreases text.len(),
{
    reveal_with_fuel(encode_utf8, 1);
    if text.len() > 0 && encode_utf8(text).len() > budget {
        lemma_prefix_fits(text.drop_last(), budget);
    }
}

/// The UTF-8 form of two texts is as long as both together.
proof fn lemma_encoded_concat(a: Seq<char>, b: Seq<char>)
    ensures
        encode_utf8(a + b).len() == encode_utf8(a).len() + encode_utf8(b).len(),
    decreases b.len(),
{
    reveal_with_fuel(encode_utf8, 1);
    if b.len() == 0 {
        assert(a + b =~= a);
    } else {
        lemma_encoded_concat(a, b.drop_last());
        lemma_encoded_push(a + b.drop_last(), b.last());
        lemma_encoded_push(b.drop_last(), b.last());
        assert((a + b.drop_last()).push(b.last()) =~= a + b);
        assert(b.drop_last().push(b.last()) =~= b);
    }
}

/// Patches never take a directory diff past its limit: one that starts within it ends within it.
pub proof fn directory_diff_is_bounded(tracked_changes: Seq<char>, patches: Seq<Seq<char>>)
    requires
        encode_utf8(tracked_changes).len() <= MAX_DIFF_BYTES,
    ensures
        encode_utf8(with_patches(tracked_changes, patches)).len() <= MAX_DIFF_BYTES,
    decreases patches.len(),
{
    if patches.len() > 0 {
        directory_diff_is_bounded(tracked_changes, patches.drop_last());
        let output = with_patches(tracked_changes, patches.drop_last());
        let patch = patches.last();
        if encode_utf8(output).len() < MAX_DIFF_BYTES && patch.len() > 0 {
            let lines = line_ended(output);
            lemma_encoded_push(output, '\n');
            let budget = MAX_DIFF_BYTES - encode_utf8(lines).len();
            lemma_prefix_fits(patch, budget);
            lemma_encoded_concat(lines, prefix_within(patch, budget));
        }
    }
}

/// How git is started: with which arguments, as byte strings, and with which changes to the
/// environment.
#[derive(Debug)]
pub struct GitCommand {
    pub args: Vec<Vec<u8>>,
    pub set_env: Vec<(String, String)>,
    pub remove_env: Vec<String>,
}

/// The options that keep a repository from having its own programs run: attributes from the
/// empty tree, no file system monitor and no hooks.
pub open spec fn guards() -> Seq<Seq<char>> {
    seq![
        "--attr-source="@ + EMPTY_TREE@,
        "-c"@,
        "core.fsmonitor=false"@,
        "-c"@,
        "core.hooksPath="@ + NULL_DEVICE@,
    ]
}

/// The contents of byte strings.
pub open spec fn byte_strings(list: Seq<Vec<u8>>) -> Seq<Seq<u8>> {
    list.map_values(|v: Vec<u8>| v@)
}

/// Texts in UTF-8.
pub open spec fn encoded(list: Seq<Seq<char>>) -> Seq<Seq<u8>> {
    list.map_values(|text: Seq<char>| encode_utf8(text))
}

/// The arguments of a query in a directory: the directory, the guards, and what the query asks.
pub open spec fn command_line(dir: Seq<u8>, query: GitQuery) -> Seq<Seq<u8>> {
    seq![encode_utf8("-C"@), dir] + encoded(guards()) + encoded(texts(query.args@))
        + match query.path {
        Some(path) => seq![path@],
        None => Seq::empty(),
    }
}

/// The variables that point git at another repository.
pub open spec fn redirecting() -> Seq<Seq<char>> {
    seq![
        "GIT_DIR"@,
        "GIT_WORK_TREE"@,
        "GIT_COMMON_DIR"@,
        "GIT_INDEX_FILE"@,
        "GIT_OBJECT_DIRECTORY"@,
    ]
}

/// The command that runs a query in `dir`, with every guard against what an
/// untrusted repository holds: no program of the repository runs, the index is not written, and
/// the environment points at no other repository.
pub fn git_command(dir: &FilePath, query: GitQuery) -> (r: GitCommand)
    ensures
        byte_strings(r.args@) == command_line(dir@, query),
        r.set_env@.len() == 1,
        r.set_env@[0].0@ == "GIT_OPTIONAL_LOCKS"@,
        r.set_env@[0].1@ == "0"@,
        texts(r.remove_env@) == redirecting(),
{
    let attributes = "--attr-source=".to_owned().concat(EMPTY_TREE);
    let hooks = "core.hooksPath=".to_owned().concat(NULL_DEVICE);
    let guarding = strings(
        vec![
            attributes.as_str(),
            "-c",
            "core.fsmonitor=false",
            "-c",
            hooks.as_str(),
        ].as_slice(),
    );
    assert(texts(guarding@) =~= guards());
    let mut args: Vec<Vec<u8>> = Vec::new();
    args.push(slice_to_vec("-C".as_bytes()));
    args.push(slice_to_vec(dir.as_bytes()));
    assert(byte_strings(args@) =~= seq![encode_utf8("-C"@), dir@]);
    append_encoded(&mut args, &guarding);
    append_encoded(&mut args, &query.args);
    let ghost before = args@;
    if let Some(path) = &query.path {
        args.push(slice_to_vec(path.as_bytes()));
        assert(byte_strings(args@) =~= byte_strings(before).push(path@));
    }
    assert(byte_strings(args@) =~= command_line(dir@, query));
    let remove_env = strings(
        vec![
            "GIT_DIR",
            "GIT_WORK_TREE",
            "GIT_COMMON_DIR",
            "GIT_INDEX_FILE",
            "GIT_OBJECT_DIRECTORY",
        ].as_slice(),
    );
    assert(texts(remove_env@) =~= redirecting());
    let mut set_env: Vec<(String, String)> = Vec::new();
    set_env.push(("GIT_OPTIONAL_LOCKS".to_owned(), "0".to_owned()));
    GitCommand { args, set_env, remove_env }
}

/// Appends texts in UTF-8.
fn append_encoded(args: &mut Vec<Vec<u8>>, list: &Vec<String>)
    ensures
        byte_strings(final(args)@) == byte_strings(old(args)@) + encoded(texts(list@)),
{
    let ghost given = args@;
    let ghost all = encoded(texts(list@));
    assert(byte_strings(args@) + all.take(0) =~= byte_strings(args@));
    for i in 0..list.len()
        invariant
            all == encoded(texts(list@)),
            byte_strings(args@) == byte_strings(given) + all.take(i as int),
    {
        let ghost before = args@;
        args.push(slice_to_vec(list[i].as_str().as_bytes()));
        assert(all[i as int] == encode_utf8(list@[i as int]@));
        assert(byte_strings(args@) =~= byte_strings(before).push(all[i as int]));
        assert(all.take(i + 1) =~= all.take(i as int).push(all[i as int]));
    }
    assert(all.take(all.len() as int) =~= all);
}

} // verus!
