//! Byte-text primitives for the template engine: substring search,
//! global replacement, and removal of marker-delimited blocks.

use vstd::prelude::*;

verus! {

/// Newline byte, used when a removed block swallows its trailing line break.
pub const NEWLINE: u8 = 10;

/// True when `pat` occurs in `text` starting at index `i`.
pub open spec fn is_match_at(text: Seq<u8>, pat: Seq<u8>, i: int) -> bool {
    &&& 0 <= i
    &&& i + pat.len() <= text.len()
    &&& text.subrange(i, i + pat.len() as int) == pat
}

/// Index of the first occurrence of `pat` in `text` at or after `from`;
/// -1 when there is none or `pat` is empty.
pub open spec fn first_match(text: Seq<u8>, pat: Seq<u8>, from: int) -> int
    decreases text.len() - from,
{
    if from < 0 || pat.len() == 0 || from + pat.len() > text.len() {
        -1
    } else if is_match_at(text, pat, from) {
        from
    } else {
        first_match(text, pat, from + 1)
    }
}

pub proof fn lemma_first_match_props(text: Seq<u8>, pat: Seq<u8>, from: int)
    requires
        0 <= from,
        pat.len() > 0,
    ensures
        first_match(text, pat, from) == -1 ==> (forall|j: int|
            from <= j ==> !is_match_at(text, pat, j)),
        first_match(text, pat, from) != -1 ==> {
            let i = first_match(text, pat, from);
            &&& from <= i
            &&& is_match_at(text, pat, i)
            &&& forall|j: int| from <= j < i ==> !is_match_at(text, pat, j)
        },
    decreases text.len() - from,
{
    if from + pat.len() > text.len() {
        assert forall|j: int| from <= j implies !is_match_at(text, pat, j) by {}
    } else if is_match_at(text, pat, from) {
    } else {
        lemma_first_match_props(text, pat, from + 1);
    }
}

/// Locating a match at `i` with none before it pins `first_match` down.
pub proof fn lemma_first_match_found(text: Seq<u8>, pat: Seq<u8>, from: int, i: int)
    requires
        0 <= from <= i,
        pat.len() > 0,
        is_match_at(text, pat, i),
        forall|j: int| from <= j < i ==> !is_match_at(text, pat, j),
    ensures
        first_match(text, pat, from) == i,
    decreases i - from,
{
    if from < i {
        lemma_first_match_found(text, pat, from + 1, i);
    }
}

pub proof fn lemma_first_match_none(text: Seq<u8>, pat: Seq<u8>, from: int)
    requires
        0 <= from,
        pat.len() > 0,
        forall|j: int| from <= j ==> !is_match_at(text, pat, j),
    ensures
        first_match(text, pat, from) == -1,
    decreases text.len() - from,
{
    if from + pat.len() <= text.len() {
        lemma_first_match_none(text, pat, from + 1);
    }
}

/// `text` with every occurrence of `pat` at or after `from` replaced by
/// `rep`, scanning left to right over non-overlapping occurrences; the
/// prefix before `from` is dropped.
pub open spec fn replace_from(text: Seq<u8>, pat: Seq<u8>, rep: Seq<u8>, from: int) -> Seq<u8>
    recommends
        0 <= from <= text.len(),
        pat.len() > 0,
    decreases text.len() - from,
    when 0 <= from <= text.len()
    via replace_from_decreases
{
    let i = first_match(text, pat, from);
    if pat.len() == 0 || i == -1 {
        text.subrange(from, text.len() as int)
    } else {
        text.subrange(from, i) + rep + replace_from(text, pat, rep, i + pat.len())
    }
}

#[via_fn]
proof fn replace_from_decreases(text: Seq<u8>, pat: Seq<u8>, rep: Seq<u8>, from: int) {
    if 0 <= from && pat.len() > 0 {
        lemma_first_match_props(text, pat, from);
    }
}

/// `text` with every occurrence of `pat` replaced by `rep`.
pub open spec fn replace_all(text: Seq<u8>, pat: Seq<u8>, rep: Seq<u8>) -> Seq<u8> {
    replace_from(text, pat, rep, 0)
}

/// `text` with marker-delimited blocks removed: repeatedly, the first
/// occurrence of `st` up to the first occurrence of `et` at or after it
/// is deleted, together with a trailing newline when one follows, until
/// no start marker with a matching end marker remains.
pub open spec fn remove_blocks(text: Seq<u8>, st: Seq<u8>, et: Seq<u8>) -> Seq<u8>
    recommends
        st.len() > 0,
        et.len() > 0,
    decreases text.len(),
    when st.len() > 0 && et.len() > 0
    via remove_blocks_decreases
{
    let i = first_match(text, st, 0);
    if i == -1 {
        text
    } else {
        let j = first_match(text, et, i);
        if j == -1 {
            text
        } else {
            let end = j + et.len();
            let end2 = if end < text.len() && text[end] == NEWLINE {
                end + 1
            } else {
                end
            };
            remove_blocks(text.subrange(0, i) + text.subrange(end2, text.len() as int), st, et)
        }
    }
}

#[via_fn]
proof fn remove_blocks_decreases(text: Seq<u8>, st: Seq<u8>, et: Seq<u8>) {
    lemma_first_match_props(text, st, 0);
    let i = first_match(text, st, 0);
    if i != -1 {
        lemma_first_match_props(text, et, i);
    }
}

/// After block removal, any start marker still present has no end marker
/// at or after it: only unterminated markers survive.
pub proof fn lemma_remove_blocks_unterminated(text: Seq<u8>, st: Seq<u8>, et: Seq<u8>)
    requires
        st.len() > 0,
        et.len() > 0,
    ensures
        ({
            let r = remove_blocks(text, st, et);
            first_match(r, st, 0) == -1 || first_match(r, et, first_match(r, st, 0)) == -1
        }),
    decreases text.len(),
{
    let i = first_match(text, st, 0);
    if i != -1 {
        let j = first_match(text, et, i);
        if j != -1 {
            lemma_first_match_props(text, st, 0);
            lemma_first_match_props(text, et, i);
            let end = j + et.len();
            let end2 = if end < text.len() && text[end] == NEWLINE {
                end + 1
            } else {
                end
            };
            lemma_remove_blocks_unterminated(
                text.subrange(0, i) + text.subrange(end2, text.len() as int),
                st,
                et,
            );
        }
    }
}

/// Removing blocks a second time changes nothing: block removal is
/// idempotent.
pub proof fn lemma_remove_blocks_idempotent(text: Seq<u8>, st: Seq<u8>, et: Seq<u8>)
    requires
        st.len() > 0,
        et.len() > 0,
    ensures
        remove_blocks(remove_blocks(text, st, et), st, et) == remove_blocks(text, st, et),
{
    lemma_remove_blocks_unterminated(text, st, et);
}

/// True when `pat` occurs in `text` at `i`, checked byte by byte.
fn matches_at(text: &[u8], pat: &[u8], i: usize) -> (r: bool)
    requires
        i + pat@.len() <= text@.len(),
    ensures
        r == is_match_at(text@, pat@, i as int),
{
    let n = text.len();
    let mut j: usize = 0;
    while j < pat.len()
        invariant
            i + pat@.len() <= text@.len(),
            n == text@.len(),
            0 <= j <= pat@.len(),
            forall|k: int| 0 <= k < j ==> text@[i + k] == pat@[k],
        decreases pat@.len() - j,
    {
        if text[i + j] != pat[j] {
            assert(text@.subrange(i as int, i + pat@.len() as int)[j as int] != pat@[j as int]);
            return false;
        }
        j = j + 1;
    }
    assert(text@.subrange(i as int, i + pat@.len() as int) =~= pat@);
    true
}

/// Index of the first occurrence of `pat` in `text` at or after `from`.
pub fn find_sub(text: &[u8], pat: &[u8], from: usize) -> (r: Option<usize>)
    ensures
        match r {
            Some(i) => first_match(text@, pat@, from as int) == i as int,
            None => first_match(text@, pat@, from as int) == -1,
        },
{
    if pat.len() == 0 {
        return None;
    }
    let n = text.len();
    if pat.len() > n || from > n - pat.len() {
        proof {
            lemma_first_match_none_short(text@, pat@, from as int);
        }
        return None;
    }
    let limit = n - pat.len();
    let mut i: usize = from;
    while i <= limit
        invariant
            from <= i,
            i <= limit + 1,
            n == text@.len(),
            pat@.len() > 0,
            limit == text@.len() - pat@.len(),
            pat@.len() <= text@.len(),
            forall|j: int| from <= j < i ==> !is_match_at(text@, pat@, j),
        decreases limit + 1 - i,
    {
        if matches_at(text, pat, i) {
            proof {
                lemma_first_match_found(text@, pat@, from as int, i as int);
            }
            return Some(i);
        }
        i = i + 1;
    }
    proof {
        assert forall|j: int| from <= j implies !is_match_at(text@, pat@, j) by {
            if j < i {
            } else {
                assert(j + pat@.len() > text@.len());
            }
        }
        lemma_first_match_none(text@, pat@, from as int);
    }
    None
}

proof fn lemma_first_match_none_short(text: Seq<u8>, pat: Seq<u8>, from: int)
    requires
        0 <= from,
        pat.len() > 0,
        from + pat.len() > text.len(),
    ensures
        first_match(text, pat, from) == -1,
{
    assert forall|j: int| from <= j implies !is_match_at(text, pat, j) by {}
    lemma_first_match_none(text, pat, from);
}

/// Appends `text[start..end]` to `out`.
pub fn append_range(out: &mut Vec<u8>, text: &[u8], start: usize, end: usize)
    requires
        start <= end,
        end <= text@.len(),
    ensures
        final(out)@ == old(out)@ + text@.subrange(start as int, end as int),
{
    let mut k: usize = start;
    while k < end
        invariant
            start <= k <= end,
            end <= text@.len(),
            out@ == old(out)@ + text@.subrange(start as int, k as int),
        decreases end - k,
    {
        out.push(text[k]);
        proof {
            assert(out@ =~= old(out)@ + text@.subrange(start as int, k + 1));
        }
        k = k + 1;
    }
}

/// Appends all of `s` to `out`.
pub fn append_all(out: &mut Vec<u8>, s: &[u8])
    ensures
        final(out)@ == old(out)@ + s@,
{
    append_range(out, s, 0, s.len());
    proof {
        assert(s@.subrange(0, s@.len() as int) =~= s@);
    }
}

/// A copy of `v` with the same bytes.
pub fn clone_bytes(v: &Vec<u8>) -> (r: Vec<u8>)
    ensures
        r@ == v@,
{
    let mut out: Vec<u8> = Vec::new();
    append_all(&mut out, v.as_slice());
    proof {
        assert(out@ =~= v@);
    }
    out
}

/// True when the two byte strings hold the same bytes.
pub fn bytes_eq(a: &[u8], b: &[u8]) -> (r: bool)
    ensures
        r == (a@ == b@),
{
    if a.len() != b.len() {
        return false;
    }
    if matches_at(a, b, 0) {
        proof {
            assert(a@.subrange(0, a@.len() as int) =~= a@);
        }
        true
    } else {
        proof {
            assert(a@.subrange(0, a@.len() as int) =~= a@);
        }
        false
    }
}

/// `text` with every occurrence of `pat` replaced by `rep`.
pub fn replace_all_exec(text: &[u8], pat: &[u8], rep: &[u8]) -> (r: Vec<u8>)
    requires
        pat@.len() > 0,
    ensures
        r@ == replace_all(text@, pat@, rep@),
{
    let n = text.len();
    let mut out: Vec<u8> = Vec::new();
    let mut pos: usize = 0;
    loop
        invariant
            pat@.len() > 0,
            n == text@.len(),
            pos <= text@.len(),
            replace_all(text@, pat@, rep@) == out@ + replace_from(text@, pat@, rep@, pos as int),
        decreases text@.len() - pos,
    {
        match find_sub(text, pat, pos) {
            Some(i) => {
                proof {
                    lemma_first_match_props(text@, pat@, pos as int);
                    assert(is_match_at(text@, pat@, i as int));
                    assert(i + pat@.len() <= text@.len());
                    assert(replace_from(text@, pat@, rep@, pos as int) == text@.subrange(
                        pos as int,
                        i as int,
                    ) + rep@ + replace_from(text@, pat@, rep@, i + pat@.len()));
                }
                append_range(&mut out, text, pos, i);
                append_all(&mut out, rep);
                pos = i + pat.len();
            },
            None => {
                append_range(&mut out, text, pos, text.len());
                proof {
                    assert(out@ =~= replace_all(text@, pat@, rep@));
                }
                return out;
            },
        }
    }
}

/// `text` with every marker-delimited block removed, as `remove_blocks`
/// describes.
pub fn remove_blocks_exec(text: &[u8], st: &[u8], et: &[u8]) -> (r: Vec<u8>)
    requires
        st@.len() > 0,
        et@.len() > 0,
    ensures
        r@ == remove_blocks(text@, st@, et@),
{
    let mut script: Vec<u8> = Vec::new();
    append_all(&mut script, text);
    proof {
        assert(script@ =~= text@);
    }
    loop
        invariant
            st@.len() > 0,
            et@.len() > 0,
            remove_blocks(script@, st@, et@) == remove_blocks(text@, st@, et@),
        decreases script@.len(),
    {
        let i_opt = find_sub(script.as_slice(), st, 0);
        let i = match i_opt {
            Some(i) => i,
            None => {
                return script;
            },
        };
        let j_opt = find_sub(script.as_slice(), et, i);
        let j = match j_opt {
            Some(j) => j,
            None => {
                return script;
            },
        };
        proof {
            lemma_first_match_props(script@, st@, 0);
            lemma_first_match_props(script@, et@, i as int);
            assert(is_match_at(script@, et@, j as int));
            assert(j + et@.len() <= script@.len());
        }
        let sn = script.len();
        let end = j + et.len();
        let end2 = if end < script.len() && script[end] == NEWLINE {
            end + 1
        } else {
            end
        };
        let mut next: Vec<u8> = Vec::new();
        append_range(&mut next, script.as_slice(), 0, i);
        append_range(&mut next, script.as_slice(), end2, script.len());
        script = next;
    }
}

} // verus!
