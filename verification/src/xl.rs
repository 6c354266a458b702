//! Reading the domain list that `xl list` prints.
//!
//! The first line is a header (`Name ID Mem VCPUs State Time(s)`); every
//! other line begins with the name of a domain. `Domain-0` is the control
//! domain itself and is never a guest.

use vstd::prelude::*;
use crate::text::{
    chars_of, first_word, first_ws, has_two_words, line_ranges, lines, range_eq, skip_ws,
    substring, trim_start, word_end,
};

verus! {

/// `"Domain-0"`.
pub open spec fn dom0_name() -> Seq<char> {
    seq!['D', 'o', 'm', 'a', 'i', 'n', '-', '0']
}

/// The guest names in the lines `ls` of an `xl list` body: the first word
/// of each line that has one, other than `Domain-0`; with `two_fields`, only
/// of lines that have at least two words.
pub open spec fn guests_in(ls: Seq<Seq<char>>, two_fields: bool) -> Seq<Seq<char>>
    decreases ls.len(),
{
    if ls.len() == 0 {
        Seq::empty()
    } else {
        let rest = guests_in(ls.drop_first(), two_fields);
        match first_word(ls[0]) {
            Some(w) => if w != dom0_name() && (!two_fields || has_two_words(ls[0])) {
                seq![w] + rest
            } else {
                rest
            },
            None => rest,
        }
    }
}

/// The guest domains that an `xl list` output names, the header line
/// skipped.
pub open spec fn xl_guests(text: Seq<char>, two_fields: bool) -> Seq<Seq<char>> {
    let ls = lines(text);
    if ls.len() == 0 {
        Seq::empty()
    } else {
        guests_in(ls.drop_first(), two_fields)
    }
}

/// The names of the guest domains in the output of `xl list`: the first
/// field of each line after the header, without `Domain-0`. With
/// `two_fields`, a line counts only when it has a second field as well.
pub fn guest_domains(listing: &str, two_fields: bool) -> (r: Vec<String>)
    ensures
        r@.map_values(|s: String| s@) == xl_guests(listing@, two_fields),
{
    let v = chars_of(listing);
    let ranges = line_ranges(&v);
    let dom0 = vec!['D', 'o', 'm', 'a', 'i', 'n', '-', '0'];
    assert(dom0@ =~= dom0_name());
    let ghost ls = lines(v@);
    let mut out: Vec<String> = Vec::new();
    if ranges.len() == 0 {
        assert(out@.map_values(|s: String| s@) =~= Seq::<Seq<char>>::empty());
        return out;
    }
    let ghost body = ls.drop_first();
    let mut k: usize = 1;
    assert(ls.skip(1) =~= body);
    assert(out@.map_values(|s: String| s@) + guests_in(body, two_fields) =~= guests_in(
        body,
        two_fields,
    ));
    while k < ranges.len()
        invariant
            1 <= k <= ranges@.len() == ls.len(),
            ls == lines(listing@),
            v@ == listing@,
            dom0@ == dom0_name(),
            body == ls.drop_first(),
            forall|m: int|
                #![trigger ranges@[m]]
                0 <= m < ranges@.len() ==> {
                    &&& ranges@[m].0 <= ranges@[m].1 <= v.len()
                    &&& v@.subrange(ranges@[m].0 as int, ranges@[m].1 as int) == ls[m]
                },
            out@.map_values(|s: String| s@) + guests_in(ls.skip(k as int), two_fields)
                == guests_in(body, two_fields),
        decreases ranges.len() - k,
    {
        let (a, b) = ranges[k];
        let ghost line = ls[k as int];
        assert(v@.subrange(a as int, b as int) == line);
        let ghost rest = ls.skip(k as int);
        assert(rest.drop_first() =~= ls.skip(k + 1));
        assert(rest[0] == line);
        let ghost before = out@.map_values(|s: String| s@);
        let i = skip_ws(&v, a, b);
        let ghost t = v@.subrange(i as int, b as int);
        assert(t == trim_start(line));
        if i < b {
            let j = word_end(&v, i, b);
            assert(t.take(first_ws(t)) =~= v@.subrange(i as int, j as int));
            let second = skip_ws(&v, j, b);
            assert(t.skip(first_ws(t)) =~= v@.subrange(j as int, b as int));
            let is_dom0 = range_eq(&v, i, j, &dom0);
            if !is_dom0 && (!two_fields || second < b) {
                let name = substring(listing, &v, i, j);
                out.push(name);
                assert(out@.map_values(|s: String| s@) =~= before.push(
                    v@.subrange(i as int, j as int),
                ));
                assert(before.push(v@.subrange(i as int, j as int)) + guests_in(
                    ls.skip(k + 1),
                    two_fields,
                ) =~= before + (seq![v@.subrange(i as int, j as int)] + guests_in(
                    ls.skip(k + 1),
                    two_fields,
                )));
            }
        }
        k = k + 1;
    }
    assert(ls.skip(k as int) =~= Seq::<Seq<char>>::empty());
    assert(out@.map_values(|s: String| s@) + Seq::<Seq<char>>::empty() =~= out@.map_values(
        |s: String| s@,
    ));
    out
}

} // verus!
