//! Laws on texts, names and what is kept: how they are written and read.
use vstd::prelude::*;
use vstd::string::*;
use crate::billing::{limits_of, plan_of, result_view, Plan};
use crate::codec::hex_text;
use crate::ident::{bare, key_text, short_name_text};
use crate::maintenance::{doomed, saves, ExpiredCheckpoint};
use crate::path::{checkpoint_dir_text, file_name_of, joined, last_part};
use crate::sandbox::SessionV;
use crate::text::{
    dec, dec_int, join, lemma_split_after, lemma_split_plain, lines, maybe, maybe_owned, occurs, split, texts, trim,
    trim_end, trim_start, white_space,
};

verus! {

/// Whether every character of a text is white space.
pub open spec fn blank(s: Seq<char>) -> bool {
    forall|i: int| 0 <= i < s.len() ==> white_space(#[trigger] s[i])
}

/// The number that decimal digits stand for.
pub open spec fn number_of(s: Seq<char>) -> int
    decreases s.len(),
{
    if s.len() == 0 {
        0
    } else {
        10 * number_of(s.drop_last()) + (s.last() as int - 48)
    }
}

/// Law: the space at the start of a text is taken off, and nothing else is.
pub proof fn law_leading_space_is_taken_off(space: Seq<char>, rest: Seq<char>)
    requires
        blank(space),
        rest.len() > 0 ==> !white_space(rest[0]),
    ensures
        trim_start(space + rest) == rest,
    decreases space.len(),
{
    if space.len() == 0 {
        assert(space + rest =~= rest);
    } else {
        let tail = space.drop_first();
        assert forall|i: int| 0 <= i < tail.len() implies white_space(#[trigger] tail[i]) by {
            assert(tail[i] == space[i + 1]);
        }
        law_leading_space_is_taken_off(tail, rest);
        assert((space + rest).drop_first() =~= tail + rest);
        assert(white_space(space[0]));
    }
}

/// Law: the space at the end of a text is taken off, and nothing else is.
pub proof fn law_trailing_space_is_taken_off(rest: Seq<char>, space: Seq<char>)
    requires
        blank(space),
        rest.len() > 0 ==> !white_space(rest.last()),
    ensures
        trim_end(rest + space) == rest,
    decreases space.len(),
{
    if space.len() == 0 {
        assert(rest + space =~= rest);
    } else {
        law_trailing_space_is_taken_off(rest, space.drop_last());
        assert((rest + space).drop_last() =~= rest + space.drop_last());
        assert(white_space(space[space.len() - 1]));
    }
}

/// Law: a text between space, which itself neither starts nor ends with any, is
/// what is left when the space round it is taken off; of nothing but space
/// nothing is left.
pub proof fn law_space_around_is_taken_off(before: Seq<char>, core: Seq<char>, after: Seq<char>)
    requires
        blank(before),
        blank(after),
        core.len() > 0 ==> !white_space(core[0]) && !white_space(core.last()),
    ensures
        trim(before + core + after) == core,
{
    if core.len() == 0 {
        let all = before + core + after;
        assert forall|i: int| 0 <= i < all.len() implies white_space(#[trigger] all[i]) by {
            if i < before.len() {
                assert(all[i] == before[i]);
            } else {
                assert(all[i] == after[i - before.len()]);
            }
        }
        law_leading_space_is_taken_off(all, core);
        assert(all + core =~= all);
    } else {
        assert((core + after)[0] == core[0]);
        law_leading_space_is_taken_off(before, core + after);
        assert(before + core + after =~= before + (core + after));
        law_trailing_space_is_taken_off(core, after);
    }
}

/// Law: white space is what Unicode says it is.
pub proof fn law_white_space_is_that_of_unicode(c: char)
    ensures
        (c as int) < 128 ==> (white_space(c) <==> 9 <= c as int <= 13 || c as int == 32),
        (c as int) >= 128 ==> (white_space(c) <==> c as int == 0x85 || c as int == 0xa0 || c as int == 0x1680 || 0x2000
            <= c as int <= 0x200a || c as int == 0x2028 || c as int == 0x2029 || c as int == 0x202f || c as int == 0x205f
            || c as int == 0x3000),
{
}

/// Law: a number is written in decimal digits that stand for it, without a zero
/// in front.
pub proof fn law_numbers_are_written_in_decimal(n: nat)
    ensures
        number_of(dec(n)) == n,
        forall|i: int| 0 <= i < dec(n).len() ==> '0' <= #[trigger] dec(n)[i] <= '9',
        n > 0 ==> dec(n)[0] != '0',
        dec(n).len() > 0,
    decreases n,
{
    let s = dec(n);
    if n >= 10 {
        law_numbers_are_written_in_decimal(n / 10);
        assert(s.drop_last() =~= dec(n / 10));
        assert(s.last() as int == 48 + n % 10);
        assert(s[0] == dec(n / 10)[0]);
    } else {
        assert(s.drop_last() =~= Seq::empty());
        assert(number_of(s.drop_last()) == 0);
        assert(s[0] as int == 48 + n);
    }
}

/// Law: a number below zero is written with a sign in front.
pub proof fn law_signs_are_written(i: int)
    ensures
        i >= 0 ==> dec_int(i) == dec(i as nat),
        i < 0 ==> dec_int(i) == seq!['-'] + dec((-i) as nat),
{
}

/// Law: texts are joined in order, with the separator between them.
pub proof fn law_texts_are_joined_in_order(parts: Seq<Seq<char>>, last: Seq<char>, sep: Seq<char>)
    ensures
        join(Seq::empty(), sep).len() == 0,
        join(seq![last], sep) == last,
        parts.len() > 0 ==> join(parts.push(last), sep) == join(parts, sep) + sep + last,
{
    assert(parts.push(last).drop_last() =~= parts);
}

/// Law: the pieces of a text between the separators hold none, and joined by
/// the separator they are the text.
pub proof fn law_pieces_make_up_the_text(s: Seq<char>, c: char)
    ensures
        split(s, c).len() > 0,
        join(split(s, c), seq![c]) == s,
        forall|i: int| 0 <= i < split(s, c).len() ==> !(#[trigger] split(s, c)[i]).contains(c),
    decreases s.len(),
{
    if s.len() > 0 {
        let init = split(s.drop_last(), c);
        law_pieces_make_up_the_text(s.drop_last(), c);
        if s.last() == c {
            assert(init.push(Seq::empty()).drop_last() =~= init);
            assert(join(init.push(Seq::empty()), seq![c]) =~= s);
        } else {
            let all = init.update(init.len() - 1, init.last().push(s.last()));
            assert forall|i: int| 0 <= i < all.len() implies !(#[trigger] all[i]).contains(c) by {
                if i == init.len() - 1 {
                    assert(!init[i].contains(c));
                    if all[i].contains(c) {
                        let k = choose|k: int| 0 <= k < all[i].len() && all[i][k] == c;
                        assert(init[i][k] == c);
                    }
                } else {
                    assert(all[i] == init[i]);
                }
            }
            assert(s =~= s.drop_last().push(s.last()));
            assert(all.last() == init.last().push(s.last()));
            if init.len() == 1 {
                assert(join(init, seq![c]) =~= init[0]);
                assert(join(all, seq![c]) =~= s);
            } else {
                assert(all.drop_last() =~= init.drop_last());
                let front = join(init.drop_last(), seq![c]) + seq![c];
                assert(front + init.last() == s.drop_last());
                assert(front + all.last() =~= (front + init.last()).push(s.last()));
                assert(join(all, seq![c]) =~= s);
            }
        }
    } else {
        assert(join(split(s, c), seq![c]) =~= s);
    }
}

/// Law: the lines of a text are its pieces between the line breaks, each without
/// a carriage return at its end; a break at the end of the text starts no line.
pub proof fn law_lines_are_between_breaks(s: Seq<char>, line: Seq<char>)
    requires
        !line.contains('\n'),
    ensures
        lines(Seq::empty()).len() == 0,
        line.len() > 0 ==> lines(line) == seq![line],
        lines(line + seq!['\n']) == seq![if line.len() > 0 && line.last() == '\r' {
            line.drop_last()
        } else {
            line
        }],
        line.len() > 0 ==> lines(s + seq!['\n'] + line) == lines(s + seq!['\n']).push(line),
{
    let none = Seq::<char>::empty();
    lemma_split_plain(line, '\n');
    lemma_split_plain(none, '\n');
    lemma_split_after(line, '\n', none);
    assert(line + seq!['\n'] + none =~= line + seq!['\n']);
    lemma_split_after(s, '\n', none);
    assert(s + seq!['\n'] + none =~= s + seq!['\n']);
    lemma_split_after(s, '\n', line);
    assert(lines(none) =~= Seq::empty());
    if line.len() > 0 {
        assert(lines(line) =~= seq![line]);
        let a = split(s, '\n').push(none);
        let b = split(s, '\n').push(line);
        assert(a.last() == none && b.last() == line);
        assert forall|i: int| 0 <= i < a.len() - 1 implies a[i] == b[i] by {}
        assert(lines(s + seq!['\n'] + line) =~= lines(s + seq!['\n']).push(line));
    }
    assert(lines(line + seq!['\n']) =~= seq![if line.len() > 0 && line.last() == '\r' {
        line.drop_last()
    } else {
        line
    }]);
}

/// Law: the name of a file is what stands behind the last slash; a path that
/// ends with the parent directory has none.
pub proof fn law_file_name_is_behind_the_last_slash(dir: Seq<char>, name: Seq<char>)
    requires
        name.len() > 0,
        !name.contains('/'),
        name != "."@,
    ensures
        name != ".."@ ==> file_name_of(name) == Some(name),
        name != ".."@ ==> file_name_of(dir + seq!['/'] + name) == Some(name),
        name == ".."@ ==> file_name_of(dir + seq!['/'] + name) is None,
        name == ".."@ ==> file_name_of(name) is None,
        file_name_of(Seq::empty()) is None,
{
    lemma_split_plain(name, '/');
    lemma_split_plain(Seq::<char>::empty(), '/');
    lemma_split_after(dir, '/', name);
    assert(seq![Seq::<char>::empty()].drop_last() =~= Seq::empty());
    reveal_with_fuel(last_part, 2);
}

/// Law: a name is put below a directory with one slash between them; an absolute
/// name stays as it is.
pub proof fn law_names_go_below_their_directory(base: Seq<char>, name: Seq<char>)
    ensures
        name.len() > 0 && name[0] == '/' ==> joined(base, name) == name,
        (name.len() == 0 || name[0] != '/') && base.len() > 0 && base.last() != '/' ==> joined(base, name) == base + seq!['/']
            + name,
        (name.len() == 0 || name[0] != '/') && (base.len() == 0 || base.last() == '/')
            ==> joined(base, name) == base + name,
{
    reveal_strlit("/");
    assert("/"@ =~= seq!['/']);
    if name.len() > 0 && name[0] == '/' {
        assert(name.subrange(0, 1) =~= "/"@);
    }
    if base.len() > 0 && base.last() == '/' {
        assert(base.subrange(base.len() - 1, base.len() as int) =~= "/"@);
    }
    if base.len() > 0 && "/"@.is_suffix_of(base) {
        assert(base.subrange(base.len() - 1, base.len() as int)[0] == '/');
    }
}

/// Law: checkpoints lie in the configured directory, or else in the temporary one.
pub proof fn law_checkpoints_have_their_directory(dir: Seq<char>)
    ensures
        checkpoint_dir_text(Some(dir)) == dir,
        checkpoint_dir_text(None) == "/tmp/greed-compute/checkpoints"@,
{
}

/// Law: each byte is written as two hexadecimal digits, the higher one first.
pub proof fn law_bytes_are_written_in_hex(bytes: Seq<u8>, i: int)
    requires
        0 <= i < bytes.len(),
    ensures
        hex_text(bytes).len() == 2 * bytes.len(),
        bytes[i] as int / 16 < 10 ==> hex_text(bytes)[2 * i] as int == 48 + bytes[i] as int / 16,
        bytes[i] as int / 16 >= 10 ==> hex_text(bytes)[2 * i] as int == 97 + (bytes[i] as int / 16 - 10),
        bytes[i] as int % 16 < 10 ==> hex_text(bytes)[2 * i + 1] as int == 48 + bytes[i] as int % 16,
        bytes[i] as int % 16 >= 10 ==> hex_text(bytes)[2 * i + 1] as int == 97 + (bytes[i] as int % 16 - 10),
{
    assert((2 * i) / 2 == i && (2 * i + 1) / 2 == i);
}

/// A text without hyphens stays as it is.
proof fn lemma_plain_stays(s: Seq<char>)
    requires
        !s.contains('-'),
    ensures
        bare(s) == s,
    decreases s.len(),
{
    reveal(Seq::filter);
    if s.len() > 0 {
        assert forall|i: int| 0 <= i < s.drop_last().len() implies s.drop_last()[i] != '-' by {
            assert(s[i] == s.drop_last()[i]);
        }
        lemma_plain_stays(s.drop_last());
        assert(s.last() != '-') by {
            assert(s[s.len() - 1] == s.last());
        }
        assert(bare(s) =~= s);
    }
}

/// A hyphen goes, and what stands around it stays.
proof fn lemma_hyphen_goes(a: Seq<char>, b: Seq<char>)
    requires
        !a.contains('-'),
        !b.contains('-'),
    ensures
        bare(a + seq!['-'] + b) == a + b,
    decreases b.len(),
{
    reveal(Seq::filter);
    let all = a + seq!['-'] + b;
    if b.len() == 0 {
        assert(all.drop_last() =~= a);
        assert(all.last() == '-');
        lemma_plain_stays(a);
        assert(a + b =~= a);
    } else {
        let front = b.drop_last();
        assert forall|i: int| 0 <= i < front.len() implies front[i] != '-' by {
            assert(b[i] == front[i]);
        }
        assert(b[b.len() - 1] != '-');
        lemma_hyphen_goes(a, front);
        assert(all.drop_last() =~= a + seq!['-'] + front);
        assert(all.last() == b.last());
        assert((a + front).push(b.last()) =~= a + b);
    }
}

/// Law: a key is its prefix and its id without the hyphens; a short name is its prefix
/// and the first eight characters of the id.
pub proof fn law_keys_are_their_id_without_hyphens(
    prefix: Seq<char>,
    a: Seq<char>,
    b: Seq<char>,
    id: Seq<char>,
)
    requires
        !a.contains('-'),
        !b.contains('-'),
    ensures
        key_text(prefix, a + seq!['-'] + b) == prefix + a + b,
        key_text(prefix, a) == prefix + a,
        short_name_text(prefix, id) == prefix + id.take(8),
{
    lemma_hyphen_goes(a, b);
    lemma_plain_stays(a);
    assert(prefix + (a + b) =~= prefix + a + b);
}

/// Law: a text that may be missing is told as it is, and so is each of a list.
pub proof fn law_what_may_be_missing_is_told_as_it_is(
    a: Option<&str>,
    b: Option<String>,
    v: Seq<String>,
    r: Result<String, String>,
)
    ensures
        a matches Some(s) ==> maybe(a) == Some(s@),
        a is None ==> maybe(a) is None,
        b matches Some(s) ==> maybe_owned(b) == Some(s@),
        b is None ==> maybe_owned(b) is None,
        texts(v).len() == v.len(),
        forall|i: int| 0 <= i < v.len() ==> #[trigger] texts(v)[i] == v[i]@,
        r matches Ok(s) ==> result_view(r) == Ok::<Seq<char>, Seq<char>>(s@),
        r matches Err(s) ==> result_view(r) == Err::<Seq<char>, Seq<char>>(s@),
{
}

/// Law: a part occurs in a text if and only if the text is made of something, the part
/// and something.
pub proof fn law_parts_occur_where_they_stand(a: Seq<char>, part: Seq<char>, c: Seq<char>, s: Seq<char>)
    ensures
        occurs(a + part + c, part),
        occurs(s, part)
            ==> exists|i: int|
                0 <= i <= s.len() - part.len() && s == s.take(i) + part + #[trigger] s.skip(i + part.len()),
{
    let all = a + part + c;
    assert(all.subrange(a.len() as int, (a.len() + part.len()) as int) =~= part);
    if occurs(s, part) {
        let i = choose|i: int|
            0 <= i && i + part.len() <= s.len() && #[trigger] s.subrange(i, i + part.len()) == part;
        assert(s =~= s.take(i) + s.subrange(i, i + part.len()) + s.skip(i + part.len()));
    }
}

/// Law: a session that ends is saved if and only if it was used, has a key, and the key
/// has storage left.
pub proof fn law_idle_sessions_are_saved_within_the_storage(
    s: SessionV,
    tier: Option<Seq<char>>,
    t: Seq<char>,
    used: u64,
)
    ensures
        s.calls_used > 0 && s.api_key is Some && tier == Some(t) ==> (
            saves(s, tier, used) <==> used < limits_of(plan_of(t)).checkpoint_storage_bytes
        ),
        s.calls_used > 0 && s.api_key is Some && tier is None ==> (
            saves(s, tier, used) <==> used < 200 * 1024 * 1024
        ),
        s.calls_used == 0 || s.api_key is None ==> !saves(s, tier, used),
{
    reveal_strlit("free");
    reveal_strlit("pro");
    reveal_strlit("builder");
    reveal_strlit("enterprise");
    reveal_strlit("scale");
    assert("free"@.len() == 4);
    assert("pro"@.len() == 3);
    assert("builder"@.len() == 7);
    assert("enterprise"@.len() == 10);
    assert("scale"@.len() == 5);
}

/// Law: a checkpoint that is too old goes by the plan of its key: by each of its two
/// names, and one without a key by the hobby plan.
pub proof fn law_old_checkpoints_go_by_plan(c: ExpiredCheckpoint, t: String)
    ensures
        c.tier == Some(t) ==> (doomed(Plan::Hobby, c) <==> t@ == "free"@ || t@ == "hobby"@),
        c.tier == Some(t) ==> (doomed(Plan::Builder, c) <==> t@ == "pro"@ || t@ == "builder"@),
        c.tier == Some(t) ==> (doomed(Plan::Scale, c) <==> t@ == "enterprise"@ || t@ == "scale"@),
        c.tier is None ==> doomed(Plan::Hobby, c) && !doomed(Plan::Builder, c) && !doomed(Plan::Scale, c),
{
    reveal_strlit("free");
    reveal_strlit("hobby");
    reveal_strlit("pro");
    reveal_strlit("builder");
    reveal_strlit("enterprise");
    reveal_strlit("scale");
    assert("free"@.len() == 4);
    assert("hobby"@.len() == 5);
    assert("pro"@.len() == 3);
    assert("builder"@.len() == 7);
    assert("enterprise"@.len() == 10);
    assert("scale"@.len() == 5);
    assert("hobby"@[0] != "scale"@[0]);
}

} // verus!
