//! Reading the key slots of a LUKS device out of `cryptsetup luksDump`.
//!
//! Two layouts are understood: the LUKS2 `Keyslots:` section, whose entries
//! are indented lines `"  <n>: luks2"`, and the LUKS1 lines
//! `"Key Slot <n>: ENABLED"`.

use vstd::prelude::*;
use std::collections::HashSet;
use crate::text::{
    chars_of, contains_seq, find_char, find_in_range, line_ranges, lines, parse_u32,
    parse_u32_range, range_contains, range_eq, range_starts_with, starts_with, trim,
    trim_range,
};

verus! {

broadcast use vstd::std_specs::hash::group_hash_axioms;

/// The number of key slots a LUKS2 header has.
pub const MAX_KEY_SLOTS: u32 = 32;

/// `"Keyslots:"`, the heading of the LUKS2 key slot section.
pub open spec fn keyslots_heading() -> Seq<char> {
    seq!['K', 'e', 'y', 's', 'l', 'o', 't', 's', ':']
}

/// `"Key Slot "`, the beginning of a LUKS1 key slot line.
pub open spec fn luks1_prefix() -> Seq<char> {
    seq!['K', 'e', 'y', ' ', 'S', 'l', 'o', 't', ' ']
}

/// `"ENABLED"`, the mark of an occupied LUKS1 key slot.
pub open spec fn enabled_mark() -> Seq<char> {
    seq!['E', 'N', 'A', 'B', 'L', 'E', 'D']
}

/// A line that begins with a space or a tab.
pub open spec fn is_indented(line: Seq<char>) -> bool {
    line.len() > 0 && (line[0] == ' ' || line[0] == '\t')
}

/// The slot that a line of the LUKS2 section names, given the line trimmed:
/// the number before its first colon.
pub open spec fn luks2_entry_slot(trimmed: Seq<char>) -> Option<u32> {
    match find_char(trimmed, ':') {
        Some(c) => parse_u32(trim(trimmed.take(c))),
        None => None,
    }
}

/// The slot that a trimmed LUKS1 line marks as enabled.
pub open spec fn luks1_enabled_slot(trimmed: Seq<char>) -> Option<u32> {
    if starts_with(trimmed, luks1_prefix()) {
        let rest = trimmed.skip(luks1_prefix().len() as int);
        if contains_seq(rest, enabled_mark()) {
            match find_char(rest, ':') {
                Some(c) => parse_u32(rest.take(c)),
                None => None,
            }
        } else {
            None
        }
    } else {
        None
    }
}

/// The slots that an optional slot stands for.
pub open spec fn opt_slot_set(s: Option<u32>) -> Set<u32> {
    match s {
        Some(n) => set![n],
        None => Set::empty(),
    }
}

/// Whether the LUKS2 section is still open after `line`, given whether it
/// was open before it.
pub open spec fn section_continues(in_section: bool, line: Seq<char>) -> bool {
    in_section && !(!is_indented(line) && trim(line).len() > 0)
}

/// The slots that the lines `ls` name, given whether the LUKS2 section is
/// open when they begin.
pub open spec fn slots_in_lines(ls: Seq<Seq<char>>, in_section: bool) -> Set<u32>
    decreases ls.len(),
{
    if ls.len() == 0 {
        Set::empty()
    } else {
        let line = ls[0];
        let t = trim(line);
        if t == keyslots_heading() {
            slots_in_lines(ls.drop_first(), true)
        } else {
            let open = section_continues(in_section, line);
            let from_luks2 = if open {
                opt_slot_set(luks2_entry_slot(t))
            } else {
                Set::empty()
            };
            from_luks2.union(opt_slot_set(luks1_enabled_slot(t))).union(
                slots_in_lines(ls.drop_first(), open),
            )
        }
    }
}

/// The active key slots that a `cryptsetup luksDump` text lists.
pub open spec fn active_slots(dump: Seq<char>) -> Set<u32> {
    slots_in_lines(lines(dump), false)
}

fn keyslots_heading_chars() -> (v: Vec<char>)
    ensures
        v@ == keyslots_heading(),
{
    let v = vec!['K', 'e', 'y', 's', 'l', 'o', 't', 's', ':'];
    assert(v@ =~= keyslots_heading());
    v
}

fn luks1_prefix_chars() -> (v: Vec<char>)
    ensures
        v@ == luks1_prefix(),
{
    let v = vec!['K', 'e', 'y', ' ', 'S', 'l', 'o', 't', ' '];
    assert(v@ =~= luks1_prefix());
    v
}

fn enabled_mark_chars() -> (v: Vec<char>)
    ensures
        v@ == enabled_mark(),
{
    let v = vec!['E', 'N', 'A', 'B', 'L', 'E', 'D'];
    assert(v@ =~= enabled_mark());
    v
}

/// The slot named by the LUKS2 section line whose trimmed form is `v[lo..hi]`.
fn luks2_entry_slot_at(v: &Vec<char>, lo: usize, hi: usize) -> (r: Option<u32>)
    requires
        lo <= hi <= v.len(),
    ensures
        r == luks2_entry_slot(v@.subrange(lo as int, hi as int)),
{
    let ghost t = v@.subrange(lo as int, hi as int);
    match find_in_range(v, lo, hi, ':') {
        None => None,
        Some(c) => {
            assert(t.take(c - lo) =~= v@.subrange(lo as int, c as int));
            let (a, b) = trim_range(v, lo, c);
            parse_u32_range(v, a, b)
        },
    }
}

/// The slot that the LUKS1 line whose trimmed form is `v[lo..hi]` marks
/// as enabled.
fn luks1_enabled_slot_at(
    v: &Vec<char>,
    lo: usize,
    hi: usize,
    prefix: &Vec<char>,
    mark: &Vec<char>,
) -> (r: Option<u32>)
    requires
        lo <= hi <= v.len(),
        prefix@ == luks1_prefix(),
        mark@ == enabled_mark(),
    ensures
        r == luks1_enabled_slot(v@.subrange(lo as int, hi as int)),
{
    let ghost t = v@.subrange(lo as int, hi as int);
    if !range_starts_with(v, lo, hi, prefix) {
        return None;
    }
    let rest_lo = lo + prefix.len();
    let ghost rest = t.skip(luks1_prefix().len() as int);
    assert(rest =~= v@.subrange(rest_lo as int, hi as int));
    if !range_contains(v, rest_lo, hi, mark) {
        return None;
    }
    match find_in_range(v, rest_lo, hi, ':') {
        None => None,
        Some(c) => {
            assert(rest.take(c - rest_lo) =~= v@.subrange(rest_lo as int, c as int));
            parse_u32_range(v, rest_lo, c)
        },
    }
}

/// Parses the active slot numbers out of the text that
/// `cryptsetup luksDump` prints, for LUKS2 and LUKS1 headers alike.
///
/// A LUKS2 slot is the number before the colon of an indented line of the
/// `Keyslots:` section; the section ends at the first line that is neither
/// indented nor blank. A LUKS1 slot is the number in a line
/// `Key Slot <n>: ... ENABLED`, wherever it stands.
pub fn active_slots_from_dump(dump: &str) -> (slots: HashSet<u32>)
    ensures
        slots@ == active_slots(dump@),
{
    let v = chars_of(dump);
    let ranges = line_ranges(&v);
    let heading = keyslots_heading_chars();
    let prefix = luks1_prefix_chars();
    let mark = enabled_mark_chars();
    let ghost ls = lines(v@);
    let mut slots: HashSet<u32> = HashSet::new();
    let mut in_section = false;
    let mut i: usize = 0;
    assert(ls.skip(0) =~= ls);
    assert(Set::<u32>::empty().union(slots_in_lines(ls, false)) =~= slots_in_lines(ls, false));
    while i < ranges.len()
        invariant
            i <= ranges@.len(),
            ranges@.len() == ls.len(),
            ls == lines(v@),
            v@ == dump@,
            heading@ == keyslots_heading(),
            prefix@ == luks1_prefix(),
            mark@ == enabled_mark(),
            forall|k: int|
                0 <= k < ranges@.len() ==> {
                    &&& (#[trigger] ranges@[k]).0 <= ranges@[k].1 <= v.len()
                    &&& v@.subrange(ranges@[k].0 as int, ranges@[k].1 as int) == ls[k]
                },
            active_slots(dump@) == slots@.union(slots_in_lines(ls.skip(i as int), in_section)),
        decreases ranges.len() - i,
    {
        let (a, b) = ranges[i];
        let ghost line = ls[i as int];
        assert(v@.subrange(a as int, b as int) == line);
        let ghost rest = ls.skip(i as int);
        assert(rest.drop_first() =~= ls.skip(i + 1));
        assert(rest[0] == line);
        let (ta, tb) = trim_range(&v, a, b);
        let ghost t = v@.subrange(ta as int, tb as int);
        if range_eq(&v, ta, tb, &heading) {
            in_section = true;
        } else {
            let indented = a < b && (v[a] == ' ' || v[a] == '\t');
            assert(indented == is_indented(line));
            let open = in_section && !(!indented && ta < tb);
            assert(open == section_continues(in_section, line));
            let ghost before = slots@;
            if open {
                if let Some(n) = luks2_entry_slot_at(&v, ta, tb) {
                    slots.insert(n);
                }
            }
            if let Some(n) = luks1_enabled_slot_at(&v, ta, tb, &prefix, &mark) {
                slots.insert(n);
            }
            let ghost from_luks2 = if open {
                opt_slot_set(luks2_entry_slot(t))
            } else {
                Set::empty()
            };
            assert(slots@ =~= before.union(from_luks2).union(
                opt_slot_set(luks1_enabled_slot(t)),
            ));
            assert(before.union(slots_in_lines(rest, in_section)) =~= slots@.union(
                slots_in_lines(ls.skip(i + 1), open),
            ));
            in_section = open;
        }
        i = i + 1;
    }
    assert(ls.skip(i as int) =~= Seq::<Seq<char>>::empty());
    assert(slots@.union(Set::empty()) =~= slots@);
    slots
}

/// The first key slot number below 32 that `used` does not hold, as the
/// slot a new key goes to.
pub fn first_free_slot(used: &HashSet<u32>) -> (r: Option<u32>)
    ensures
        match r {
            Some(s) => {
                &&& s < MAX_KEY_SLOTS
                &&& !used@.contains(s)
                &&& forall|t: u32| t < s ==> used@.contains(t)
            },
            None => forall|t: u32| t < MAX_KEY_SLOTS ==> used@.contains(t),
        },
{
    let mut s: u32 = 0;
    while s < MAX_KEY_SLOTS
        invariant
            s <= MAX_KEY_SLOTS,
            forall|t: u32| t < s ==> used@.contains(t),
        decreases MAX_KEY_SLOTS - s,
    {
        if !used.contains(&s) {
            return Some(s);
        }
        s = s + 1;
    }
    None
}

/// The elements of `slots`, in any order.
fn slot_list(slots: &HashSet<u32>) -> (v: Vec<u32>)
    ensures
        forall|x: u32| slots@.contains(x) <==> v@.contains(x),
{
    let mut v: Vec<u32> = Vec::new();
    for x in it: slots.iter()
        invariant
            it.seq().unref().to_set() == slots@,
            v@ == it.seq().unref().take(it.index()),
            forall|y: u32| #[trigger] slots@.contains(y) ==> v@.contains(y) || exists|k: int|
                it.index() <= k < it.seq().len() && it.seq().unref()[k] == y,
    {
        let ghost i = it.index();
        let ghost all = it.seq().unref();
        let ghost old_v = v@;
        v.push(*x);
        assert(all.take(i + 1) =~= all.take(i).push(*x));
        assert forall|y: u32| #[trigger] slots@.contains(y) implies v@.contains(y) || exists|k: int|
            i + 1 <= k < all.len() && all[k] == y by {
            if old_v.contains(y) {
                let k = choose|k: int| 0 <= k < old_v.len() && old_v[k] == y;
                assert(v@[k] == y);
            } else {
                let k = choose|k: int| i <= k < all.len() && all[k] == y;
                if k == i {
                    assert(v@[i as int] == y);
                }
            }
        }
    }
    assert forall|y: u32| #[trigger] v@.contains(y) implies slots@.contains(y) by {
        assert(v@.to_set().contains(y));
    }
    v
}

/// The active slots in ascending order, as `cryptsetup luksDump` is
/// summarised to the user.
pub fn sorted_slots(slots: &HashSet<u32>) -> (r: Vec<u32>)
    ensures
        forall|x: u32| slots@.contains(x) <==> r@.contains(x),
        forall|i: int, j: int| 0 <= i < j < r@.len() ==> r@[i] < r@[j],
{
    let v = slot_list(slots);
    let mut out: Vec<u32> = Vec::new();
    loop
        invariant
            forall|x: u32| slots@.contains(x) <==> v@.contains(x),
            forall|i: int, j: int| 0 <= i < j < out@.len() ==> out@[i] < out@[j],
            forall|x: u32| out@.contains(x) ==> v@.contains(x),
            out@.len() > 0 ==> forall|x: u32| v@.contains(x) && x <= out@.last() ==> out@.contains(x),
        decreases if out@.len() == 0 {
            u32::MAX as int + 1
        } else {
            u32::MAX - out@.last()
        },
    {
        // the least element above the last one taken
        let mut best: Option<u32> = None;
        let mut k: usize = 0;
        while k < v.len()
            invariant
                k <= v@.len(),
                match best {
                    Some(b) => v@.contains(b) && (out@.len() > 0 ==> b > out@.last()) && forall|m: int|
                        0 <= m < k && (out@.len() == 0 || v@[m] > out@.last()) ==> b <= v@[m],
                    None => forall|m: int|
                        0 <= m < k ==> !(out@.len() == 0 || v@[m] > out@.last()),
                },
            decreases v@.len() - k,
        {
            let x = v[k];
            let above = out.len() == 0 || x > out[out.len() - 1];
            if above {
                match best {
                    Some(b) => {
                        if x < b {
                            best = Some(x);
                        }
                    },
                    None => {
                        best = Some(x);
                    },
                }
            }
            k = k + 1;
        }
        match best {
            None => {
                assert forall|x: u32| v@.contains(x) implies out@.contains(x) by {
                    let m = choose|m: int| 0 <= m < v@.len() && v@[m] == x;
                }
                return out;
            },
            Some(b) => {
                let ghost prev = out@;
                out.push(b);
                assert forall|x: u32| v@.contains(x) && x <= out@.last() implies out@.contains(x) by {
                    if x < b {
                        let m = choose|m: int| 0 <= m < v@.len() && v@[m] == x;
                        if prev.len() > 0 && x > prev.last() {
                            assert(false);
                        }
                        assert(prev.contains(x));
                        let i = choose|i: int| 0 <= i < prev.len() && prev[i] == x;
                        assert(out@[i] == x);
                    } else {
                        assert(out@[out@.len() - 1] == x);
                    }
                }
                assert forall|x: u32| out@.contains(x) implies v@.contains(x) by {
                    let i = choose|i: int| 0 <= i < out@.len() && out@[i] == x;
                    if i < prev.len() {
                        assert(prev[i] == x);
                    }
                }
            },
        }
    }
}

} // verus!
