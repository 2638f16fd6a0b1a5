//! File paths, as texts with `/` between their parts.
use vstd::prelude::*;
use vstd::string::*;
use crate::text::{ends_with, labelled, maybe_owned, same, split, split_text, starts_with, texts};

verus! {

/// The path of `name` under `base`; `name` itself where it is absolute.
pub open spec fn joined(base: Seq<char>, name: Seq<char>) -> Seq<char> {
    if "/"@.is_prefix_of(name) {
        name
    } else if base.len() == 0 || "/"@.is_suffix_of(base) {
        base + name
    } else {
        base + "/"@ + name
    }
}

/// The path of `name` under `base`.
pub fn join_path(base: &str, name: &str) -> (r: String)
    ensures
        r@ == joined(base@, name@),
{
    if starts_with(name, "/") {
        return name.to_owned();
    }
    let mut s: String = base.to_owned();
    if !(base.is_empty() || ends_with(base, "/")) {
        s.append("/");
    }
    s.append(name);
    s
}

/// The directory of checkpoints: the configured one, or the default.
pub open spec fn checkpoint_dir_text(configured: Option<Seq<char>>) -> Seq<char> {
    match configured {
        Some(d) => d,
        None => "/tmp/greed-compute/checkpoints"@,
    }
}

/// The directory of checkpoints: the configured one, or the default.
pub fn checkpoint_dir(configured: Option<String>) -> (r: String)
    ensures
        r@ == checkpoint_dir_text(maybe_owned(configured)),
{
    match configured {
        Some(d) => d,
        None => "/tmp/greed-compute/checkpoints".to_owned(),
    }
}

/// The file of a checkpoint.
pub fn checkpoint_path(dir: &str, checkpoint_id: &str) -> (r: String)
    ensures
        r@ == joined(dir@, checkpoint_id@ + ".dill"@),
{
    let name: String = labelled(checkpoint_id, ".dill");
    join_path(dir, name.as_str())
}

/// Whether a part of a path names nothing beyond what precedes it.
pub open spec fn idle_part(part: Seq<char>) -> bool {
    part.len() == 0 || part == "."@
}

/// The last part of a path that names something; nothing where that is `..` or
/// there is none.
pub open spec fn last_part(parts: Seq<Seq<char>>) -> Option<Seq<char>>
    decreases parts.len(),
{
    if parts.len() == 0 {
        None
    } else if idle_part(parts.last()) {
        last_part(parts.drop_last())
    } else if parts.last() == ".."@ {
        None
    } else {
        Some(parts.last())
    }
}

/// The name of the file that a path leads to.
pub open spec fn file_name_of(path: Seq<char>) -> Option<Seq<char>> {
    last_part(split(path, '/'))
}

/// The name of the file that a path leads to.
pub fn file_name(path: &str) -> (r: Option<String>)
    ensures
        maybe_owned(r) == file_name_of(path@),
{
    let parts: Vec<String> = split_text(path, '/');
    let ghost all = texts(parts@);
    let mut n: usize = parts.len();
    assert(all.take(n as int) =~= all);
    while n > 0
        invariant
            n <= parts@.len(),
            all == texts(parts@),
            all == split(path@, '/'),
            last_part(all) == last_part(all.take(n as int)),
        decreases n,
    {
        proof {
            assert(all.take(n as int).drop_last() =~= all.take(n - 1));
            assert(all.take(n as int).last() == parts@[n - 1]@);
        }
        let part: &str = parts[n - 1].as_str();
        if !(part.is_empty() || same(part, ".")) {
            if same(part, "..") {
                return None;
            }
            return Some(part.to_owned());
        }
        n -= 1;
    }
    None
}

proof fn lemma_pieces_have_no_separator(s: Seq<char>, c: char, i: int)
    requires
        0 <= i < split(s, c).len(),
    ensures
        !split(s, c)[i].contains(c),
    decreases s.len(),
{
    if s.len() > 0 {
        let init = split(s.drop_last(), c);
        if s.last() == c {
            if i < init.len() {
                lemma_pieces_have_no_separator(s.drop_last(), c, i);
            }
        } else {
            lemma_split_is_not_empty(s.drop_last(), c);
            if i < init.len() - 1 {
                lemma_pieces_have_no_separator(s.drop_last(), c, i);
            } else {
                lemma_pieces_have_no_separator(s.drop_last(), c, init.len() - 1);
                let piece = split(s, c)[i];
                assert(piece == init.last().push(s.last()));
                assert forall|k: int| 0 <= k < piece.len() implies piece[k] != c by {
                    if k < init.last().len() {
                        assert(init.last().contains(init.last()[k]));
                    }
                }
            }
        }
    }
}

proof fn lemma_split_is_not_empty(s: Seq<char>, c: char)
    ensures
        split(s, c).len() >= 1,
    decreases s.len(),
{
    if s.len() > 0 {
        lemma_split_is_not_empty(s.drop_last(), c);
    }
}

proof fn lemma_last_part_is_a_part(parts: Seq<Seq<char>>)
    requires
        last_part(parts) is Some,
    ensures
        parts.contains(last_part(parts)->Some_0),
        !idle_part(last_part(parts)->Some_0),
        last_part(parts)->Some_0 != ".."@,
    decreases parts.len(),
{
    if idle_part(parts.last()) {
        lemma_last_part_is_a_part(parts.drop_last());
        let k = choose|k: int| 0 <= k < parts.drop_last().len() && parts.drop_last()[k] == last_part(parts)->Some_0;
        assert(parts[k] == last_part(parts)->Some_0);
    } else {
        assert(parts[parts.len() - 1] == last_part(parts)->Some_0);
    }
}

/// Law: a file name taken from a path leads nowhere but to an entry of the
/// directory that it is put under: it is not empty, holds no `/`, and is neither
/// `.` nor `..`.
pub proof fn law_file_name_stays_inside(path: Seq<char>)
    requires
        file_name_of(path) is Some,
    ensures
        file_name_of(path)->Some_0.len() > 0,
        !file_name_of(path)->Some_0.contains('/'),
        file_name_of(path)->Some_0 != "."@,
        file_name_of(path)->Some_0 != ".."@,
{
    let parts = split(path, '/');
    lemma_last_part_is_a_part(parts);
    let k = choose|k: int| 0 <= k < parts.len() && parts[k] == last_part(parts)->Some_0;
    lemma_pieces_have_no_separator(path, '/', k);
}

/// Law: such a name is put under a directory with nothing but a `/` between
/// them.
pub proof fn law_joined_file_name(base: Seq<char>, path: Seq<char>)
    requires
        file_name_of(path) is Some,
        base.len() > 0,
        base.last() != '/',
    ensures
        joined(base, file_name_of(path)->Some_0) == base + "/"@ + file_name_of(path)->Some_0,
{
    reveal_strlit("/");
    let name = file_name_of(path)->Some_0;
    law_file_name_stays_inside(path);
    if "/"@.is_prefix_of(name) {
        assert(name[0] == "/"@[0]);
        assert(name.contains(name[0]));
    }
    if "/"@.is_suffix_of(base) {
        assert(base.last() == "/"@[0]);
    }
}

} // verus!
