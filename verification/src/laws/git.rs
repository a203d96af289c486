//! What asking git and reading its answers promises.

use crate::git::{
    base_names, changes, confined, diff, directory_query, fields_of, first_existing, first_nul,
    name_status_from, name_status_map, porcelain_from, porcelain_map, prefix_within, resolved_pair,
    status_map, untracked_below, with_patch, with_patches, Baseline, GitQuery, RepoFacts, Status,
    StatusEntry, EMPTY_TREE, MAX_DIFF_BYTES,
};
use crate::paths::{climbs, neat, FilePath};
use crate::text::{texts, trim, trim_end, trim_start, white_space};
use vstd::prelude::*;
use vstd::utf8::*;

verus! {

/// Bytes without a NUL in front of one are one field.
proof fn lemma_one_field(field: Seq<u8>, rest: Seq<u8>)
    requires
        field.len() > 0,
        forall|k: int| 0 <= k < field.len() ==> (#[trigger] field[k]) != 0,
    ensures
        fields_of(field.push(0) + rest) == seq![field] + fields_of(rest),
{
    let all = field.push(0) + rest;
    lemma_nul_at(all, field.len() as int);
    assert(all.take(field.len() as int) =~= field);
    assert(all.skip(field.len() as int + 1) =~= rest);
    if rest.len() == 0 {
        assert(rest =~= Seq::<u8>::empty());
    }
    assert(fields_of(all) =~= seq![field] + fields_of(rest));
}

/// The first NUL byte of bytes that start with others.
proof fn lemma_nul_at(bytes: Seq<u8>, n: int)
    requires
        0 <= n < bytes.len(),
        bytes[n] == 0,
        forall|k: int| 0 <= k < n ==> (#[trigger] bytes[k]) != 0,
    ensures
        first_nul(bytes) == n,
    decreases n,
{
    if n > 0 {
        assert(bytes[0] != 0);
        assert forall|k: int| 0 <= k < n - 1 implies (#[trigger] bytes.skip(1)[k]) != 0 by {
            assert(bytes.skip(1)[k] == bytes[k + 1]);
        }
        lemma_nul_at(bytes.skip(1), n - 1);
    }
}

/// A code with a letter in it is not blank.
proof fn lemma_letters_are_not_blank(code: Seq<char>)
    requires
        code.len() == 2,
        !white_space(code[0]) || !white_space(code[1]),
    ensures
        trim(code).len() > 0,
{
    reveal_with_fuel(trim_start, 3);
    reveal_with_fuel(trim_end, 3);
    if white_space(code[0]) {
        assert(code.skip(1)[0] == code[1]);
        assert(code.skip(1).last() == code[1]);
    } else if white_space(code.last()) {
        assert(code.drop_last().last() == code[0]);
    }
}

/// One record of the status names one path with one state: untracked for `??`, deleted where
/// either letter says so, else added, else modified.
pub proof fn each_record_gives_its_path_a_state(xy: Seq<u8>, path: Seq<u8>)
    requires
        xy.len() == 2,
        valid_utf8(xy),
        decode_utf8(xy).len() == 2,
        xy[0] != 0 && xy[1] != 0,
        neat(path),
        path.len() > 0,
        forall|k: int| 0 <= k < path.len() ==> (#[trigger] path[k]) != 0,
        !decode_utf8(xy).contains('R') && !decode_utf8(xy).contains('C'),
    ensures
        ({
            let code = decode_utf8(xy);
            let map = porcelain_map((xy.push(0x20) + path).push(0));
            let deleted = code[0] == 'D' || code[1] == 'D';
            let added = code[0] == 'A' || code[1] == 'A';
            &&& code[0] == '?' && code[1] == '?' ==> map == map![path => Status::Untracked]
            &&& deleted ==> map == map![path => Status::Deleted]
            &&& added && !deleted ==> map == map![path => Status::Added]
            &&& (code[0] == 'M' || code[1] == 'M') && !added && !deleted ==> map
                == map![path => Status::Modified]
        }),
{
    let code = decode_utf8(xy);
    let record = xy.push(0x20) + path;
    assert forall|k: int| 0 <= k < record.len() implies (#[trigger] record[k]) != 0 by {
        if k >= 3 {
            assert(record[k] == path[k - 3]);
        }
    }
    lemma_one_field(record, Seq::empty());
    assert(record.push(0) + Seq::<u8>::empty() =~= record.push(0));
    let none = Seq::<Seq<u8>>::empty();
    assert(fields_of(Seq::<u8>::empty()) == none);
    assert(seq![record] + none =~= seq![record]);
    assert(record.take(2) =~= xy);
    assert(record.skip(3) =~= path);
    reveal_with_fuel(porcelain_from, 2);
    lemma_has(code, 'D');
    lemma_has(code, 'A');
    if code[0] == '?' && code[1] == '?' {
        assert(code =~= seq!['?', '?']);
    }
    if code[0] == 'M' || code[1] == 'M' {
        assert(!white_space('M'));
        lemma_letters_are_not_blank(code);
    }
    assert(Map::<Seq<u8>, Status>::empty().insert(path, Status::Modified)
        =~= map![path => Status::Modified]);
    assert(Map::<Seq<u8>, Status>::empty().insert(path, Status::Added)
        =~= map![path => Status::Added]);
    assert(Map::<Seq<u8>, Status>::empty().insert(path, Status::Deleted)
        =~= map![path => Status::Deleted]);
    assert(Map::<Seq<u8>, Status>::empty().insert(path, Status::Untracked)
        =~= map![path => Status::Untracked]);
}

/// A code of two letters has a letter where one of them is it.
proof fn lemma_has(code: Seq<char>, c: char)
    requires
        code.len() == 2,
    ensures
        code.contains(c) <==> code[0] == c || code[1] == c,
{
    if code[0] == c {
        assert(code.contains(code[0]));
    }
    if code[1] == c {
        assert(code.contains(code[1]));
    }
    if code.contains(c) {
        let i = choose|i: int| 0 <= i < code.len() && code[i] == c;
        assert(i == 0 || i == 1);
    }
}

/// A renamed file is listed under its new path alone, as a modification.
pub proof fn renamed_files_are_listed_once(xy: Seq<u8>, path: Seq<u8>, origin: Seq<u8>)
    requires
        xy.len() == 2,
        valid_utf8(xy),
        decode_utf8(xy).len() == 2,
        decode_utf8(xy)[0] == 'R',
        decode_utf8(xy)[1] == ' ',
        xy[0] != 0 && xy[1] != 0,
        neat(path),
        path.len() > 0,
        forall|k: int| 0 <= k < path.len() ==> (#[trigger] path[k]) != 0,
        origin.len() > 0,
        forall|k: int| 0 <= k < origin.len() ==> (#[trigger] origin[k]) != 0,
    ensures
        porcelain_map((xy.push(0x20) + path).push(0) + origin.push(0))
            == map![path => Status::Modified],
{
    let code = decode_utf8(xy);
    let record = xy.push(0x20) + path;
    assert forall|k: int| 0 <= k < record.len() implies (#[trigger] record[k]) != 0 by {
        if k >= 3 {
            assert(record[k] == path[k - 3]);
        }
    }
    lemma_one_field(record, origin.push(0));
    lemma_one_field(origin, Seq::empty());
    assert(origin.push(0) + Seq::<u8>::empty() =~= origin.push(0));
    assert(fields_of(Seq::<u8>::empty()) == Seq::<Seq<u8>>::empty());
    let fields = seq![record] + seq![origin];
    assert(fields_of(record.push(0) + origin.push(0)) =~= fields);
    assert(record.take(2) =~= xy);
    assert(record.skip(3) =~= path);
    reveal_with_fuel(porcelain_from, 3);
    lemma_has(code, 'D');
    lemma_has(code, 'A');
    lemma_has(code, 'R');
    assert(!white_space('R'));
    lemma_letters_are_not_blank(code);
    assert(code != seq!['?', '?']);
    assert(Map::<Seq<u8>, Status>::empty().insert(path, Status::Modified)
        =~= map![path => Status::Modified]);
}

/// A change since the fork point is a code and a path: added, deleted or modified by its letter.
pub proof fn each_change_gives_its_path_a_state(letter: Seq<u8>, path: Seq<u8>)
    requires
        letter.len() > 0,
        valid_utf8(letter),
        decode_utf8(letter).len() > 0,
        decode_utf8(letter)[0] != 'R' && decode_utf8(letter)[0] != 'C',
        forall|k: int| 0 <= k < letter.len() ==> (#[trigger] letter[k]) != 0,
        neat(path),
        path.len() > 0,
        forall|k: int| 0 <= k < path.len() ==> (#[trigger] path[k]) != 0,
    ensures
        ({
            let c = decode_utf8(letter)[0];
            let map = name_status_map(letter.push(0) + path.push(0));
            &&& c == 'A' ==> map == map![path => Status::Added]
            &&& c == 'D' ==> map == map![path => Status::Deleted]
            &&& c == 'M' || c == 'T' ==> map == map![path => Status::Modified]
        }),
{
    lemma_one_field(letter, path.push(0));
    lemma_one_field(path, Seq::empty());
    assert(path.push(0) + Seq::<u8>::empty() =~= path.push(0));
    assert(fields_of(Seq::<u8>::empty()) == Seq::<Seq<u8>>::empty());
    let fields = seq![letter] + seq![path];
    assert(fields_of(letter.push(0) + path.push(0)) =~= fields);
    reveal_with_fuel(name_status_from, 3);
    assert(Map::<Seq<u8>, Status>::empty().insert(path, Status::Modified)
        =~= map![path => Status::Modified]);
    assert(Map::<Seq<u8>, Status>::empty().insert(path, Status::Added)
        =~= map![path => Status::Added]);
    assert(Map::<Seq<u8>, Status>::empty().insert(path, Status::Deleted)
        =~= map![path => Status::Deleted]);
}

/// Since the fork point, files have the state that git gives them against it; of the working tree's
/// status only the untracked files are added.
pub proof fn changes_since_the_fork_keep_their_state(
    listing: Seq<u8>,
    porcelain: Option<Seq<u8>>,
    path: Seq<u8>,
)
    ensures
        ({
            let since = changes(Baseline::Base, true, Some(listing), porcelain);
            let status = status_map(porcelain);
            &&& name_status_map(listing).contains_key(path) ==> since.contains_key(path)
                && since[path] == name_status_map(listing)[path]
            &&& !name_status_map(listing).contains_key(path) && status.contains_key(path)
                && status[path] == Status::Untracked ==> since.contains_key(path) && since[path]
                == Status::Untracked
            &&& !name_status_map(listing).contains_key(path) && !(status.contains_key(path)
                && status[path] == Status::Untracked) ==> !since.contains_key(path)
        }),
{
}

/// A file is compared with the fork point where one is known and asked for, else with the last
/// commit, else with nothing; with the whole file around the changes where that is asked for.
pub proof fn files_are_compared_as_asked(
    path: FilePath,
    resolved: Option<(FilePath, FilePath)>,
    baseline: Baseline,
    fork: Option<&str>,
    head_resolves: bool,
    full_context: bool,
    query: Option<GitQuery>,
)
    requires
        call_ensures(
            diff,
            (&path, &resolved, false, baseline, fork, head_resolves, full_context),
            query,
        ),
        confined(path@, resolved_pair(resolved)),
    ensures
        query is Some,
        query->0.path matches Some(p) && p@ == path@,
        ({
            let args = texts(query->0.args@);
            let commit = args[args.len() - 2];
            &&& args.last() == "--"@ && args[0] == "diff"@
            &&& full_context ==> args.len() == 7 && args[4] == "-U1000000"@
            &&& !full_context ==> args.len() == 6
            &&& (baseline == Baseline::Base && fork is Some) ==> commit == fork->0@
            &&& (baseline == Baseline::Head || fork is None) && head_resolves ==> commit == "HEAD"@
            &&& (baseline == Baseline::Head || fork is None) && !head_resolves ==> commit
                == EMPTY_TREE@
        }),
{
}

/// An untracked file is shown as if it had been added as a whole.
pub proof fn untracked_files_are_additions(
    path: FilePath,
    resolved: Option<(FilePath, FilePath)>,
    baseline: Baseline,
    fork: Option<&str>,
    head_resolves: bool,
    full_context: bool,
    query: Option<GitQuery>,
)
    requires
        call_ensures(
            diff,
            (&path, &resolved, true, baseline, fork, head_resolves, full_context),
            query,
        ),
        confined(path@, resolved_pair(resolved)),
    ensures
        query is Some,
        query->0.path matches Some(p) && p@ == path@,
        ({
            let args = texts(query->0.args@);
            &&& args.last() == "/dev/null"@ && args[args.len() - 2] == "--"@ && args[3]
                == "--no-index"@
            &&& full_context ==> args.len() == 8 && args[5] == "-U1000000"@
            &&& !full_context ==> args.len() == 7
        }),
{
}

/// No path that leaves the tree is handed to git.
pub proof fn paths_outside_are_not_asked_about(
    path: FilePath,
    resolved: Option<(FilePath, FilePath)>,
    untracked: bool,
    baseline: Baseline,
    fork: Option<&str>,
    head_resolves: bool,
    full_context: bool,
    query: Option<GitQuery>,
    below: Option<GitQuery>,
)
    requires
        call_ensures(
            diff,
            (&path, &resolved, untracked, baseline, fork, head_resolves, full_context),
            query,
        ),
        call_ensures(directory_query, (&path, &resolved, baseline, fork, head_resolves), below),
        path@.len() > 0,
        path@[0] == 0x2f || climbs(path@),
    ensures
        query is None,
        below is None,
{
}

/// The diff of a directory asks for everything below it, and for everything where it is the root.
pub proof fn directories_are_compared_as_a_whole(
    dir: FilePath,
    resolved: Option<(FilePath, FilePath)>,
    baseline: Baseline,
    fork: Option<&str>,
    head_resolves: bool,
    query: Option<GitQuery>,
)
    requires
        call_ensures(directory_query, (&dir, &resolved, baseline, fork, head_resolves), query),
        dir@.len() == 0 || confined(dir@, resolved_pair(resolved)),
    ensures
        query is Some,
        dir@.len() == 0 ==> query->0.path is None,
        dir@.len() > 0 ==> (query->0.path matches Some(p) && p@ == dir@),
        texts(query->0.args@).len() == 6,
        (baseline == Baseline::Base && fork is Some) ==> texts(query->0.args@)[4] == fork->0@,
        (baseline == Baseline::Head && head_resolves) ==> texts(query->0.args@)[4] == "HEAD"@,
{
}

/// The base branch is the first of the candidates that exists: the hint before the usual names.
pub proof fn the_first_existing_branch_is_the_base(
    names: Seq<Seq<char>>,
    existing: Seq<bool>,
    k: int,
)
    requires
        0 <= k < names.len(),
        k < existing.len(),
        existing[k],
        forall|i: int| 0 <= i < k ==> !(#[trigger] existing[i]),
    ensures
        first_existing(names, existing) == Some(names[k]),
    decreases k,
{
    if k > 0 {
        assert(!existing[0]);
        assert forall|i: int| 0 <= i < k - 1 implies !(#[trigger] existing.skip(1)[i]) by {
            assert(existing.skip(1)[i] == existing[i + 1]);
        }
        the_first_existing_branch_is_the_base(names.skip(1), existing.skip(1), k - 1);
    }
}

/// Where no candidate exists there is no base branch.
pub proof fn without_a_branch_there_is_no_base(names: Seq<Seq<char>>, existing: Seq<bool>)
    requires
        forall|i: int| 0 <= i < existing.len() ==> !(#[trigger] existing[i]),
    ensures
        first_existing(names, existing) is None,
    decreases names.len(),
{
    if names.len() > 0 && existing.len() > 0 {
        assert(!existing[0]);
        assert forall|i: int| 0 <= i < existing.skip(1).len() implies !(
        #[trigger] existing.skip(1)[i]) by {
            assert(existing.skip(1)[i] == existing[i + 1]);
        }
        without_a_branch_there_is_no_base(names.skip(1), existing.skip(1));
    }
}

/// A hint comes before the usual names, unless it could pass for an option.
pub proof fn hints_come_first(hint: Seq<char>)
    ensures
        hint.len() > 0 && hint[0] != '-' ==> base_names(Some(hint)).len() == 5 && base_names(
            Some(hint),
        )[0] == hint && base_names(Some(hint))[1] == "main"@,
        hint.len() == 0 || hint[0] == '-' ==> base_names(Some(hint)) == base_names(None),
        base_names(None)[0] == "main"@ && base_names(None)[1] == "master"@,
{
}

/// Work is reviewed against the base on any other branch, and in a detached worktree; on the base
/// itself, and without one, it is compared with the last commit.
pub proof fn other_branches_are_reviewed_against_the_base(
    repo: Option<RepoFacts>,
    baseline: Baseline,
)
    requires
        call_ensures(crate::git::default_baseline, (&repo,), baseline),
    ensures
        repo is None ==> baseline == Baseline::Head,
        repo matches Some(facts) ==> {
            &&& facts.base is None ==> baseline == Baseline::Head
            &&& (facts.base is Some && facts.current is Some) ==> (baseline == Baseline::Base
                <==> facts.base->0@ != facts.current->0@)
            &&& (facts.base is Some && facts.current is None) ==> (baseline == Baseline::Base
                <==> facts.is_worktree)
        },
{
}

/// The untracked files of a directory are listed in order: another entry adds itself at the end
/// exactly where it is untracked and lies below the directory.
pub proof fn untracked_entries_are_listed_in_order(
    entries: Seq<StatusEntry>,
    entry: StatusEntry,
    dir: Seq<u8>,
)
    ensures
        ({
            let before = untracked_below(entries, dir);
            let after = untracked_below(entries.push(entry), dir);
            let below = dir.len() == 0 || crate::paths::relative(entry.path@, dir) is Some;
            &&& entry.status == Status::Untracked && below ==> after == before.push(entry.path@)
            &&& entry.status != Status::Untracked || !below ==> after == before
        }),
{
    assert(entries.push(entry).drop_last() =~= entries);
    assert(entries.push(entry).last() == entry);
}

/// A patch that fits is added as a whole, behind what is there and on a line of its own; an empty
/// one adds nothing.
pub proof fn patches_start_on_their_own_line(output: Seq<char>, patch: Seq<char>)
    requires
        encode_utf8(output).len() < MAX_DIFF_BYTES,
    ensures
        patch.len() == 0 ==> with_patch(output, patch) == output,
        patch.len() > 0 && (output.len() == 0 || output.last() == '\n') && encode_utf8(output).len()
            + encode_utf8(patch).len() <= MAX_DIFF_BYTES ==> with_patch(output, patch) == output
            + patch,
        patch.len() > 0 && output.len() > 0 && output.last() != '\n' && encode_utf8(
            output.push('\n'),
        ).len() + encode_utf8(patch).len() <= MAX_DIFF_BYTES ==> with_patch(output, patch)
            == output.push('\n') + patch,
{
}

/// Patches are added one after another.
pub proof fn patches_are_added_in_order(output: Seq<char>, patches: Seq<Seq<char>>, patch: Seq<char>)
    ensures
        with_patches(output, Seq::empty()) == output,
        with_patches(output, patches.push(patch)) == with_patch(
            with_patches(output, patches),
            patch,
        ),
{
    assert(patches.push(patch).drop_last() =~= patches);
}

/// What is cut to fit is a prefix.
pub proof fn cut_patches_are_prefixes(text: Seq<char>, budget: int)
    ensures
        prefix_within(text, budget).is_prefix_of(text),
        encode_utf8(text).len() <= budget ==> prefix_within(text, budget) == text,
    decreases text.len(),
{
    if text.len() > 0 && encode_utf8(text).len() > budget {
        cut_patches_are_prefixes(text.drop_last(), budget);
        let part = prefix_within(text.drop_last(), budget);
        assert(part =~= text.subrange(0, part.len() as int));
    } else {
        assert(text =~= text.subrange(0, text.len() as int));
    }
}

} // verus!
