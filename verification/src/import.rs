//! The plain-text flashcard import: a line-oriented format whose comment
//! lines may switch the field separator, and whose remaining lines each
//! carry one card's front and back at two fixed field positions.
//!
//! The result keeps one pair per distinct front, a later line replacing an
//! earlier one in place.

use vstd::prelude::*;

use crate::text::{
    split_lines, split_lines_str, split_on, split_on_char, starts_with, starts_with_str, str_eq,
    strip_prefix_all, strip_prefix_all_str, trim_spec, trim_str,
};

verus! {

/// The separator a comment line selects: a named one, a quoted character, or
/// the current one when the line says nothing usable.
pub open spec fn directive_separator(line: Seq<char>, current: char) -> char {
    if starts_with(line, "#separator:"@) {
        let t = strip_prefix_all(line, "#separator:"@);
        if starts_with(t, "tab"@) {
            '\t'
        } else if starts_with(t, "comma"@) {
            ','
        } else if starts_with(t, "semicolon"@) {
            ';'
        } else if starts_with(t, "space"@) {
            ' '
        } else if starts_with(t, "pipe"@) {
            '|'
        } else if starts_with(t, "colon"@) {
            ':'
        } else if t.len() >= 1 && t[0] == '\'' {
            if t.len() >= 2 {
                t[1]
            } else {
                '\t'
            }
        } else {
            current
        }
    } else {
        current
    }
}

/// The front and back a card line yields: both field positions must exist
/// and differ.
pub open spec fn line_pair(line: Seq<char>, sep: char, front_idx: int, back_idx: int) -> Option<
    (Seq<char>, Seq<char>),
> {
    let parts = split_on(line, sep);
    if front_idx < parts.len() && back_idx < parts.len() && front_idx != back_idx {
        Some((trim_spec(parts[front_idx]), trim_spec(parts[back_idx])))
    } else {
        None
    }
}

/// Bind `k` to `v`: an existing pair for `k` is replaced in place, a new one
/// appended.
pub open spec fn upsert(
    ps: Seq<(Seq<char>, Seq<char>)>,
    k: Seq<char>,
    v: Seq<char>,
) -> Seq<(Seq<char>, Seq<char>)>
    decreases ps.len(),
{
    if ps.len() == 0 {
        seq![(k, v)]
    } else if ps[0].0 == k {
        seq![(k, v)] + ps.drop_first()
    } else {
        seq![ps[0]] + upsert(ps.drop_first(), k, v)
    }
}

/// Walk the lines: comments may switch the separator, blank lines pass, and
/// every card line lands in the accumulator.
pub open spec fn import_lines(
    lines: Seq<Seq<char>>,
    sep: char,
    front_idx: int,
    back_idx: int,
    acc: Seq<(Seq<char>, Seq<char>)>,
) -> Seq<(Seq<char>, Seq<char>)>
    decreases lines.len(),
{
    if lines.len() == 0 {
        acc
    } else {
        let line = lines[0];
        let rest = lines.drop_first();
        if line.len() > 0 && line[0] == '#' {
            import_lines(rest, directive_separator(line, sep), front_idx, back_idx, acc)
        } else if trim_spec(line).len() == 0 {
            import_lines(rest, sep, front_idx, back_idx, acc)
        } else {
            match line_pair(line, sep, front_idx, back_idx) {
                Some(p) => import_lines(rest, sep, front_idx, back_idx, upsert(acc, p.0, p.1)),
                None => import_lines(rest, sep, front_idx, back_idx, acc),
            }
        }
    }
}

/// The cards a whole file yields, starting from a tab separator.
pub open spec fn spec_import(front_idx: int, back_idx: int, file: Seq<char>) -> Seq<
    (Seq<char>, Seq<char>),
> {
    import_lines(split_lines(file), '\t', front_idx, back_idx, Seq::empty())
}

/// The ghost image of an owned pair list.
pub open spec fn pairs_view(ps: Seq<(String, String)>) -> Seq<(Seq<char>, Seq<char>)> {
    ps.map_values(|p: (String, String)| (p.0@, p.1@))
}

/// Replacing at the first position holding `k` is what `upsert` does when
/// everything before that position holds other keys.
proof fn lemma_upsert_found(ps: Seq<(Seq<char>, Seq<char>)>, k: Seq<char>, v: Seq<char>, j: int)
    requires
        0 <= j < ps.len(),
        ps[j].0 == k,
        forall|i: int| 0 <= i < j ==> ps[i].0 != k,
    ensures
        upsert(ps, k, v) == ps.update(j, (k, v)),
    decreases j,
{
    if j == 0 {
        assert(upsert(ps, k, v) =~= ps.update(0, (k, v)));
    } else {
        assert(ps.drop_first()[j - 1].0 == k);
        assert forall|i: int| 0 <= i < j - 1 implies ps.drop_first()[i].0 != k by {
            assert(ps.drop_first()[i] == ps[i + 1]);
        }
        lemma_upsert_found(ps.drop_first(), k, v, j - 1);
        assert(upsert(ps, k, v) =~= ps.update(j, (k, v)));
    }
}

/// Appending is what `upsert` does when no position holds `k`.
proof fn lemma_upsert_absent(ps: Seq<(Seq<char>, Seq<char>)>, k: Seq<char>, v: Seq<char>)
    requires
        forall|i: int| 0 <= i < ps.len() ==> ps[i].0 != k,
    ensures
        upsert(ps, k, v) == ps.push((k, v)),
    decreases ps.len(),
{
    if ps.len() == 0 {
        assert(upsert(ps, k, v) =~= ps.push((k, v)));
    } else {
        assert forall|i: int| 0 <= i < ps.drop_first().len() implies ps.drop_first()[i].0 != k by {
            assert(ps.drop_first()[i] == ps[i + 1]);
        }
        lemma_upsert_absent(ps.drop_first(), k, v);
        assert(upsert(ps, k, v) =~= ps.push((k, v)));
    }
}

/// Bind one card, replacing an earlier pair with the same front in place.
fn upsert_pair(out: &mut Vec<(String, String)>, front: String, back: String)
    ensures
        pairs_view(final(out)@) == upsert(pairs_view(old(out)@), front@, back@),
{
    let mut j: usize = 0;
    while j < out.len()
        invariant
            0 <= j <= out@.len(),
            forall|i: int| 0 <= i < j ==> pairs_view(out@)[i].0 != front@,
            out == old(out),
        decreases out@.len() - j,
    {
        if str_eq(out[j].0.as_str(), front.as_str()) {
            proof {
                lemma_upsert_found(pairs_view(out@), front@, back@, j as int);
            }
            out[j] = (front, back);
            proof {
                assert(pairs_view(out@) =~= pairs_view(old(out)@).update(
                    j as int,
                    (front@, back@),
                ));
            }
            return ;
        }
        j = j + 1;
    }
    proof {
        lemma_upsert_absent(pairs_view(out@), front@, back@);
    }
    out.push((front, back));
    proof {
        assert(pairs_view(out@) =~= pairs_view(old(out)@).push((front@, back@)));
    }
}

/// Read the separator a comment line selects.
fn directive_separator_of(line: &str, current: char) -> (r: char)
    ensures
        r == directive_separator(line@, current),
{
    if !starts_with_str(line, "#separator:") {
        return current;
    }
    let t = strip_prefix_all_str(line, "#separator:");
    let ts = t.as_str();
    if starts_with_str(ts, "tab") {
        '\t'
    } else if starts_with_str(ts, "comma") {
        ','
    } else if starts_with_str(ts, "semicolon") {
        ';'
    } else if starts_with_str(ts, "space") {
        ' '
    } else if starts_with_str(ts, "pipe") {
        '|'
    } else if starts_with_str(ts, "colon") {
        proof {
            reveal_strlit("colon");
        }
        ':'
    } else if ts.unicode_len() >= 1 && ts.get_char(0) == '\'' {
        if ts.unicode_len() >= 2 {
            ts.get_char(1)
        } else {
            '\t'
        }
    } else {
        current
    }
}

/// Parse a whole import file into front/back pairs, one per distinct front.
pub fn import_anki_text(front_idx: usize, back_idx: usize, file: String) -> (r: Vec<
    (String, String),
>)
    ensures
        pairs_view(r@) == spec_import(front_idx as int, back_idx as int, file@),
{
    let lines = split_lines_str(file.as_str());
    let ghost line_views = lines@.map_values(|t: String| t@);
    let mut sep: char = '\t';
    let mut out: Vec<(String, String)> = Vec::new();
    let mut i: usize = 0;
    proof {
        assert(line_views =~= split_lines(file@));
        assert(pairs_view(out@) =~= Seq::empty());
        assert(line_views.skip(0) =~= line_views);
    }
    while i < lines.len()
        invariant
            line_views == lines@.map_values(|t: String| t@),
            0 <= i <= lines@.len(),
            import_lines(
                line_views.skip(i as int),
                sep,
                front_idx as int,
                back_idx as int,
                pairs_view(out@),
            ) == spec_import(front_idx as int, back_idx as int, file@),
        decreases lines@.len() - i,
    {
        let line = &lines[i];
        proof {
            assert(line_views.skip(i as int)[0] == line_views[i as int]);
            assert(line_views.skip(i as int).drop_first() =~= line_views.skip(i + 1));
        }
        let ln = line.as_str().unicode_len();
        if ln > 0 && line.as_str().get_char(0) == '#' {
            sep = directive_separator_of(line.as_str(), sep);
        } else if trim_str(line.as_str()).unicode_len() == 0 {
        } else {
            let parts = split_on_char(line.as_str(), sep);
            let ghost part_views = parts@.map_values(|t: String| t@);
            if front_idx < parts.len() && back_idx < parts.len() && front_idx != back_idx {
                let front = trim_str(parts[front_idx].as_str()).to_owned();
                let back = trim_str(parts[back_idx].as_str()).to_owned();
                proof {
                    assert(part_views[front_idx as int] == split_on(line_views[i as int], sep)[
                    front_idx as int]);
                    assert(part_views[back_idx as int] == split_on(line_views[i as int], sep)[
                    back_idx as int]);
                }
                upsert_pair(&mut out, front, back);
            }
        }
        i = i + 1;
    }
    proof {
        assert(line_views.skip(lines@.len() as int).len() == 0);
    }
    out
}

} // verus!
