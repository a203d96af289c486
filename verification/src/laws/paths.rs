//! What paths, lines and commands promise.

use crate::controller::help::help_renderers;
use crate::finder::below;
use crate::herdr::{reply_text, resolve_program};
use crate::paths::{
    joined, lossy_text, name_of, named, neat, parent_of, path_less, tidied, DOT, SLASH,
};
use crate::renderers::{
    first_present, line_length, lines_of, runs_delta, side_by_side, with_width, Renderers,
};
use crate::text::texts;
use vstd::prelude::*;

verus! {

/// The directory of an entry is the one it was named below, and its name is the one it was given.
pub proof fn entries_lie_in_their_directory(dir: Seq<u8>, name: Seq<u8>)
    requires
        neat(dir),
        dir.len() > 0,
        dir.last() != SLASH,
        name.len() > 0,
        forall|k: int| 0 <= k < name.len() ==> (#[trigger] name[k]) != SLASH,
    ensures
        parent_of(dir.push(SLASH) + name) == Some(dir),
        name_of(dir.push(SLASH) + name) == name,
{
    let path = dir.push(SLASH) + name;
    let at = dir.len() + 1;
    crate::paths::lemma_name_start(path);
    assert(path[at - 1] == SLASH);
    assert forall|k: int| at <= k < path.len() implies path[k] != SLASH by {
        assert(path[k] == name[k - at]);
    }
    let start = crate::paths::name_start(path);
    if start < at {
        assert(path[at - 1] != SLASH);
    } else if start > at {
        assert(path[start - 1] == SLASH);
    }
    assert(name_of(path) =~= name);
    let head = path.take(at as int);
    assert(head =~= dir.push(SLASH));
    assert(crate::paths::name_start(head) == head.len());
    assert(name_of(head).len() == 0);
    assert(head.take(at - 1) =~= dir);
    assert(tidied(head) == dir);
}

/// What lies in a directory sorts directly behind it: before every name that only starts with the
/// directory's.
pub proof fn entries_sort_behind_their_directory(dir: Seq<u8>, entry: Seq<u8>, b: u8, rest: Seq<u8>)
    requires
        b != SLASH,
    ensures
        path_less(dir, dir.push(SLASH) + entry),
        path_less(dir.push(SLASH) + entry, dir.push(b) + rest),
        !path_less(dir.push(b) + rest, dir.push(SLASH) + entry),
    decreases dir.len(),
{
    let (x, y) = (dir.push(SLASH) + entry, dir.push(b) + rest);
    if dir.len() > 0 {
        let less = dir.skip(1);
        entries_sort_behind_their_directory(less, entry, b, rest);
        assert(x[0] == dir[0] && y[0] == dir[0]);
        assert(x.skip(1) =~= less.push(SLASH) + entry);
        assert(y.skip(1) =~= less.push(b) + rest);
    } else {
        assert(x[0] == SLASH && y[0] == b);
    }
}

/// Of two names the one with the smaller byte where they first differ comes first.
pub proof fn names_sort_by_their_bytes(head: Seq<u8>, a: u8, b: u8, x: Seq<u8>, y: Seq<u8>)
    requires
        a < b,
        a != SLASH && b != SLASH,
    ensures
        path_less(head.push(a) + x, head.push(b) + y),
    decreases head.len(),
{
    let (p, q) = (head.push(a) + x, head.push(b) + y);
    if head.len() > 0 {
        names_sort_by_their_bytes(head.skip(1), a, b, x, y);
        assert(p[0] == head[0] && q[0] == head[0]);
        assert(p.skip(1) =~= head.skip(1).push(a) + x);
        assert(q.skip(1) =~= head.skip(1).push(b) + y);
    } else {
        assert(p[0] == a && q[0] == b);
    }
}

/// Names are written with a slash between each two.
pub proof fn names_are_joined_by_slashes(names: Seq<Seq<u8>>, name: Seq<u8>)
    ensures
        named(seq![name]) == lossy_text(name),
        names.len() > 0 ==> named(names.push(name)) == named(names).push('/') + lossy_text(name),
{
    assert(names.push(name).drop_last() =~= names);
    assert(seq![name][0] == name);
}

/// A file lies below a scope where its path continues the scope's behind a slash, not where it only
/// starts with the same letters; everything lies below the empty scope.
pub proof fn scopes_end_at_a_slash(scope: Seq<char>, rest: Seq<char>, c: char)
    requires
        scope.len() > 0,
        c != '/',
    ensures
        below(scope, scope.push('/') + rest),
        !below(scope, scope.push(c) + rest),
        !below(scope, scope),
        below(Seq::empty(), rest),
{
    assert((scope.push('/') + rest).subrange(0, scope.len() as int + 1) =~= scope.push('/'));
    let other = scope.push(c) + rest;
    if below(scope, other) {
        assert(other.subrange(0, scope.len() as int + 1)[scope.len() as int] == c);
        assert(scope.push('/')[scope.len() as int] == '/');
    }
}

/// A text is read line by line: what stands before the first line end is its first line, and the
/// rest has the others. A line end of two characters is taken off as a whole.
pub proof fn texts_are_read_line_by_line(line: Seq<char>, rest: Seq<char>)
    requires
        forall|k: int| 0 <= k < line.len() ==> (#[trigger] line[k]) != '\n' && line[k] != '\r',
    ensures
        lines_of(line.push('\n') + rest) == seq![line] + lines_of(rest),
        lines_of(line.push('\r').push('\n') + rest) == seq![line] + lines_of(rest),
        line.len() > 0 ==> lines_of(line) == seq![line],
{
    let n = line.len() as int;
    let one = line.push('\n') + rest;
    assert forall|k: int| 0 <= k < n implies (#[trigger] one[k]) != '\n' by {
        assert(one[k] == line[k]);
    }
    lemma_line_ends(one, n);
    assert(one.take(n) =~= line);
    assert(one.skip(n + 1) =~= rest);
    let two = line.push('\r').push('\n') + rest;
    assert forall|k: int| 0 <= k < n + 1 implies (#[trigger] two[k]) != '\n' by {
        if k < n {
            assert(two[k] == line[k]);
        }
    }
    lemma_line_ends(two, n + 1);
    assert(two.take(n + 1) =~= line.push('\r'));
    assert(line.push('\r').drop_last() =~= line);
    assert(two.skip(n + 2) =~= rest);
    lemma_no_line_end(line);
}

/// Where the first line ends.
proof fn lemma_line_ends(text: Seq<char>, n: int)
    requires
        0 <= n < text.len(),
        text[n] == '\n',
        forall|k: int| 0 <= k < n ==> (#[trigger] text[k]) != '\n',
    ensures
        line_length(text) == n,
    decreases n,
{
    if n > 0 {
        assert(text[0] != '\n');
        assert forall|k: int| 0 <= k < n - 1 implies (#[trigger] text.skip(1)[k]) != '\n' by {
            assert(text.skip(1)[k] == text[k + 1]);
        }
        lemma_line_ends(text.skip(1), n - 1);
    }
}

/// A text without a line end is one line.
proof fn lemma_no_line_end(text: Seq<char>)
    requires
        forall|k: int| 0 <= k < text.len() ==> (#[trigger] text[k]) != '\n',
    ensures
        line_length(text) == text.len(),
    decreases text.len(),
{
    if text.len() > 0 {
        assert(text[0] != '\n');
        assert forall|k: int| 0 <= k < text.skip(1).len() implies (#[trigger] text.skip(1)[k])
            != '\n' by {
            assert(text.skip(1)[k] == text[k + 1]);
        }
        lemma_no_line_end(text.skip(1));
    }
}

/// The style is taken from the nearest place that has one.
pub proof fn the_nearest_place_is_taken(places: Seq<Seq<u8>>, present: Seq<bool>, k: int)
    requires
        0 <= k < places.len(),
        k < present.len(),
        present[k],
        forall|i: int| 0 <= i < k ==> !(#[trigger] present[i]),
    ensures
        first_present(places, present) == Some(places[k]),
    decreases k,
{
    if k > 0 {
        assert(!present[0]);
        assert forall|i: int| 0 <= i < k - 1 implies !(#[trigger] present.skip(1)[i]) by {
            assert(present.skip(1)[i] == present[i + 1]);
        }
        the_nearest_place_is_taken(places.skip(1), present.skip(1), k - 1);
    }
}

/// Delta by itself is asked for two columns by its options for that; another tool is left alone.
pub proof fn two_columns_are_asked_of_delta(program: Seq<char>)
    requires
        runs_delta(seq![program]),
        program != "--side-by-side"@ && program != "-s"@ && program != "--wrap-right-percent"@
            && program != "-"@,
    ensures
        side_by_side(seq![program]) == seq![
            program,
            "--side-by-side"@,
            "--wrap-right-percent"@,
            "1"@,
        ],
{
    reveal_strlit("--side-by-side");
    reveal_strlit("--wrap-right-percent");
    reveal_strlit("-s");
    reveal_strlit("-");
    reveal_strlit("1");
    let alone = seq![program];
    assert(!alone.contains("--side-by-side"@)) by {
        assert(alone[0] == program);
    }
    assert(!alone.contains("-s"@)) by {
        assert(alone[0] == program);
    }
    reveal_with_fuel(crate::renderers::last_before, 3);
    assert(crate::renderers::last_index(alone, "-"@) == 1);
    let wide = seq![program, "--side-by-side"@];
    assert(alone.take(1) + seq!["--side-by-side"@] + alone.skip(1) =~= wide);
    assert("--side-by-side"@.len() == 14 && "--wrap-right-percent"@.len() == 20 && "-"@.len() == 1);
    assert(!wide.contains("--wrap-right-percent"@)) by {
        assert(wide[0] == program && wide[1] == "--side-by-side"@);
    }
    assert(crate::renderers::last_index(wide, "-"@) == 2);
    assert(wide.take(2) + seq!["--wrap-right-percent"@, "1"@] + wide.skip(2) =~= seq![
        program,
        "--side-by-side"@,
        "--wrap-right-percent"@,
        "1"@,
    ]);
}

/// The change log is rendered by the same commands, laid out to the overlay's width, and given up
/// after a quarter of a second.
pub proof fn the_help_is_rendered_alike(renderers: Renderers, width: u16, chosen: Renderers)
    requires
        call_ensures(help_renderers, (&renderers, width), chosen),
    ensures
        texts(chosen.markdown@) == with_width(texts(renderers.markdown@), width as int),
        texts(chosen.diff@) == texts(renderers.diff@),
        texts(chosen.syntax@) == texts(renderers.syntax@),
        chosen.timeout_ms == 250,
{
}

/// The host's program is the configured one, or the one of its name.
pub proof fn the_configured_host_is_called(configured: Option<String>, program: String)
    requires
        call_ensures(resolve_program, (configured,), program),
    ensures
        (configured matches Some(name) && name@.len() > 0) ==> program == configured->0,
        configured is None ==> program@ == "herdr"@,
{
}

/// What the host printed counts where it succeeded.
pub proof fn failed_hosts_say_nothing(succeeded: bool, printed: &[u8], reply: Result<String, String>)
    requires
        call_ensures(reply_text, (succeeded, printed), reply),
    ensures
        reply is Ok <==> succeeded,
        reply matches Ok(text) ==> text@ == lossy_text(printed@),
{
}

/// A path below the empty directory is itself, and the empty path stands for the directory.
pub proof fn empty_paths_change_nothing(path: Seq<u8>)
    ensures
        joined(path, Seq::empty()) == path,
        joined(Seq::empty(), path) == path,
        path.len() > 0 && path[0] == SLASH ==> joined(seq![DOT], path) == path,
{
}

} // verus!
