//! The decisions of the auth-stick setup: which block device a partition
//! belongs to, whether a stick carries a GPT, which serial number the system
//! reports for it, and whether the user confirmed.

use vstd::prelude::*;
use crate::text::{
    chars_of, line_ranges, lines, range_starts_with, starts_with, substring, trim, trim_range,
};
use vstd::string::StrSliceExecFns;

verus! {

broadcast use vstd::string::group_string_axioms;

/// The offset on the stick at which the 64-byte key is written.
pub const KEY_OFFSET: u64 = 512;

/// The length of the key written to the stick.
pub const KEY_LEN: usize = 64;

/// `char::is_ascii_digit`.
pub open spec fn is_ascii_digit(c: char) -> bool {
    '0' <= c && c <= '9'
}

/// `char::is_ascii_alphabetic`.
pub open spec fn is_ascii_alpha(c: char) -> bool {
    ('a' <= c && c <= 'z') || ('A' <= c && c <= 'Z')
}

/// `s` without its trailing ASCII digits.
pub open spec fn trim_end_digits(s: Seq<char>) -> Seq<char>
    decreases s.len(),
{
    if s.len() > 0 && is_ascii_digit(s.last()) {
        trim_end_digits(s.drop_last())
    } else {
        s
    }
}

/// The last position of `'p'` in `s`.
pub open spec fn last_p(s: Seq<char>) -> Option<int>
    decreases s.len(),
{
    if s.len() == 0 {
        None
    } else if s.last() == 'p' {
        Some(s.len() - 1)
    } else {
        last_p(s.drop_last())
    }
}

/// Device names whose partitions are numbered with a `p` before the number.
pub open spec fn uses_p_suffix(name: Seq<char>) -> bool {
    ||| starts_with(name, seq!['n', 'v', 'm', 'e'])
    ||| starts_with(name, seq!['m', 'm', 'c', 'b', 'l', 'k'])
    ||| starts_with(name, seq!['l', 'o', 'o', 'p'])
}

/// The block device that the partition `name` belongs to: `sdb1` gives
/// `sdb`, `nvme0n1p2` gives `nvme0n1`; a name that is no partition is kept.
pub open spec fn partition_base(name: Seq<char>) -> Seq<char> {
    if uses_p_suffix(name) {
        match last_p(name) {
            Some(pos) => {
                let suffix = name.skip(pos + 1);
                if suffix.len() > 0 && (forall|i: int|
                    0 <= i < suffix.len() ==> is_ascii_digit(#[trigger] suffix[i])) && pos > 0
                    && is_ascii_digit(name[pos - 1]) {
                    name.take(pos)
                } else {
                    name
                }
            },
            None => name,
        }
    } else {
        let base = trim_end_digits(name);
        if base.len() > 0 && (forall|i: int|
            0 <= i < base.len() ==> is_ascii_alpha(#[trigger] base[i])) {
            base
        } else {
            name
        }
    }
}

fn starts_with_lit(v: &Vec<char>, p: &Vec<char>) -> (b: bool)
    ensures
        b == starts_with(v@, p@),
{
    let b = range_starts_with(v, 0, v.len(), p);
    assert(v@.subrange(0, v.len() as int) =~= v@);
    b
}

/// Strips the partition number off a block device name: `sdb1` → `sdb`,
/// `nvme0n1p2` → `nvme0n1`, `mmcblk0p1` → `mmcblk0`.
///
/// NVMe, MMC and loop devices number partitions as `p<N>` after a digit;
/// SATA, USB and virtio devices append the digits to a name of letters.
/// Anything else comes back unchanged.
pub fn strip_partition_suffix(name: &str) -> (r: &str)
    ensures
        r@ == partition_base(name@),
{
    let v = chars_of(name);
    let n = v.len();
    let nvme = vec!['n', 'v', 'm', 'e'];
    let mmc = vec!['m', 'm', 'c', 'b', 'l', 'k'];
    let lp = vec!['l', 'o', 'o', 'p'];
    assert(nvme@ =~= seq!['n', 'v', 'm', 'e']);
    assert(mmc@ =~= seq!['m', 'm', 'c', 'b', 'l', 'k']);
    assert(lp@ =~= seq!['l', 'o', 'o', 'p']);
    let p_style = starts_with_lit(&v, &nvme) || starts_with_lit(&v, &mmc) || starts_with_lit(
        &v,
        &lp,
    );
    if p_style {
        // the last 'p'
        let mut j = n;
        assert(v@.take(n as int) =~= v@);
        while j > 0 && v[j - 1] != 'p'
            invariant
                j <= n == v.len(),
                last_p(v@) == last_p(v@.take(j as int)),
            decreases j,
        {
            assert(v@.take(j as int).drop_last() =~= v@.take(j - 1));
            j = j - 1;
        }
        if j == 0 {
            assert(v@.take(0) =~= Seq::<char>::empty());
            assert(name@.subrange(0, name@.len() as int) =~= name@);
            return name.substring_char(0, n);
        }
        let pos = j - 1;
        assert(v@.take(j as int).last() == 'p');
        assert(last_p(v@) == Some(pos as int));
        let ghost suffix = v@.skip(pos + 1);
        // the digits after it
        let mut k = pos + 1;
        let mut digits = true;
        while k < n
            invariant
                pos + 1 <= k <= n == v.len(),
                suffix == v@.skip(pos + 1),
                digits == (forall|i: int| 0 <= i < k - pos - 1 ==> is_ascii_digit(#[trigger] suffix[i])),
            decreases n - k,
        {
            if !('0' <= v[k] && v[k] <= '9') {
                digits = false;
            }
            assert(suffix[k - pos - 1] == v@[k as int]);
            k = k + 1;
        }
        let pre_digit = pos > 0 && '0' <= v[pos - 1] && v[pos - 1] <= '9';
        if pos + 1 < n && digits && pre_digit {
            assert(name@.subrange(0, pos as int) =~= v@.take(pos as int));
            return name.substring_char(0, pos);
        }
        assert(name@.subrange(0, n as int) =~= name@);
        return name.substring_char(0, n);
    }
    // trailing digits
    let mut j = n;
    assert(v@.take(n as int) =~= v@);
    while j > 0 && '0' <= v[j - 1] && v[j - 1] <= '9'
        invariant
            j <= n == v.len(),
            trim_end_digits(v@) == trim_end_digits(v@.take(j as int)),
        decreases j,
    {
        assert(v@.take(j as int).drop_last() =~= v@.take(j - 1));
        j = j - 1;
    }
    let ghost base = v@.take(j as int);
    assert(trim_end_digits(v@) == base);
    let mut k: usize = 0;
    let mut alpha = true;
    while k < j
        invariant
            k <= j <= n == v.len(),
            base == v@.take(j as int),
            alpha == (forall|i: int| 0 <= i < k ==> is_ascii_alpha(#[trigger] base[i])),
        decreases j - k,
    {
        let c = v[k];
        if !(('a' <= c && c <= 'z') || ('A' <= c && c <= 'Z')) {
            alpha = false;
        }
        assert(base[k as int] == c);
        k = k + 1;
    }
    if j > 0 && alpha {
        assert(name@.subrange(0, j as int) =~= base);
        name.substring_char(0, j)
    } else {
        assert(name@.subrange(0, n as int) =~= name@);
        name.substring_char(0, n)
    }
}

/// `"EFI PART"`, the signature at the start of a GPT header.
pub open spec fn gpt_signature() -> Seq<u8> {
    seq![0x45u8, 0x46u8, 0x49u8, 0x20u8, 0x50u8, 0x41u8, 0x52u8, 0x54u8]
}

/// Whether the eight bytes read at offset 512 of a stick are the GPT header
/// signature `"EFI PART"`: writing the key there would destroy the
/// partition table.
pub fn is_gpt_signature(magic: &[u8]) -> (b: bool)
    ensures
        b == (magic@ == gpt_signature()),
{
    let sig: [u8; 8] = [0x45, 0x46, 0x49, 0x20, 0x50, 0x41, 0x52, 0x54];
    assert(sig@ =~= gpt_signature());
    if magic.len() != 8 {
        return false;
    }
    let mut i: usize = 0;
    while i < 8
        invariant
            i <= 8,
            magic@.len() == 8,
            sig@ == gpt_signature(),
            forall|k: int| 0 <= k < i ==> magic@[k] == sig@[k],
        decreases 8 - i,
    {
        if magic[i] != sig[i] {
            return false;
        }
        i = i + 1;
    }
    assert(magic@ =~= sig@);
    true
}

/// `"ID_SERIAL_SHORT="`, the key of the short serial in `udevadm info`.
pub open spec fn serial_key() -> Seq<char> {
    seq!['I', 'D', '_', 'S', 'E', 'R', 'I', 'A', 'L', '_', 'S', 'H', 'O', 'R', 'T', '=']
}

/// The short serial that the lines `ls` of `udevadm info --query=property`
/// give: the trimmed value of the first `ID_SERIAL_SHORT=` line whose value
/// is not blank.
pub open spec fn serial_in_lines(ls: Seq<Seq<char>>) -> Option<Seq<char>>
    decreases ls.len(),
{
    if ls.len() == 0 {
        None
    } else if starts_with(ls[0], serial_key()) && trim(ls[0].skip(serial_key().len() as int)).len()
        > 0 {
        Some(trim(ls[0].skip(serial_key().len() as int)))
    } else {
        serial_in_lines(ls.drop_first())
    }
}

/// Reads the short serial number of a device out of the output of
/// `udevadm info --query=property`.
pub fn serial_from_udevadm(text: &str) -> (r: Option<String>)
    ensures
        match serial_in_lines(lines(text@)) {
            Some(s) => r matches Some(x) && x@ == s,
            None => r is None,
        },
{
    let v = chars_of(text);
    let ranges = line_ranges(&v);
    let key = vec!['I', 'D', '_', 'S', 'E', 'R', 'I', 'A', 'L', '_', 'S', 'H', 'O', 'R', 'T', '='];
    assert(key@ =~= serial_key());
    let ghost ls = lines(v@);
    let mut i: usize = 0;
    assert(ls.skip(0) =~= ls);
    while i < ranges.len()
        invariant
            i <= ranges@.len() == ls.len(),
            ls == lines(text@),
            v@ == text@,
            key@ == serial_key(),
            forall|k: int|
                #![trigger ranges@[k]]
                0 <= k < ranges@.len() ==> {
                    &&& ranges@[k].0 <= ranges@[k].1 <= v.len()
                    &&& v@.subrange(ranges@[k].0 as int, ranges@[k].1 as int) == ls[k]
                },
            serial_in_lines(ls) == serial_in_lines(ls.skip(i as int)),
        decreases ranges.len() - i,
    {
        let (a, b) = ranges[i];
        let ghost line = ls[i as int];
        assert(v@.subrange(a as int, b as int) == line);
        assert(ls.skip(i as int).drop_first() =~= ls.skip(i + 1));
        assert(ls.skip(i as int)[0] == line);
        if range_starts_with(&v, a, b, &key) {
            let (ta, tb) = trim_range(&v, a + key.len(), b);
            assert(line.skip(serial_key().len() as int) =~= v@.subrange(
                a + key.len(),
                b as int,
            ));
            if ta < tb {
                return Some(substring(text, &v, ta, tb));
            }
        }
        i = i + 1;
    }
    None
}

/// The serial number that sysfs reports for a device, trimmed; `None` when
/// it is blank.
pub fn clean_serial(raw: &str) -> (r: Option<String>)
    ensures
        trim(raw@).len() > 0 ==> (r matches Some(s) && s@ == trim(raw@)),
        trim(raw@).len() == 0 ==> r is None,
{
    let v = chars_of(raw);
    let (a, b) = trim_range(&v, 0, v.len());
    assert(v@.subrange(0, v.len() as int) =~= v@);
    if a < b {
        Some(substring(raw, &v, a, b))
    } else {
        None
    }
}

/// Whether `c` is `lower` or its ASCII capital `upper`.
pub open spec fn is_letter(c: char, lower: char, upper: char) -> bool {
    c == lower || c == upper
}

/// Whether the answer to the setup prompt is a yes: `y` or `yes` in any
/// case, with blanks around it.
///
/// The prompt lowercases the trimmed answer and compares it with `y` and
/// `yes`; the only characters that lowercase to `y`, `e` or `s` are those
/// letters and their ASCII capitals.
pub open spec fn is_yes(answer: Seq<char>) -> bool {
    let t = trim(answer);
    ||| (t.len() == 1 && is_letter(t[0], 'y', 'Y'))
    ||| (t.len() == 3 && is_letter(t[0], 'y', 'Y') && is_letter(t[1], 'e', 'E') && is_letter(
        t[2],
        's',
        'S',
    ))
}

/// Whether the user confirmed the setup prompt.
pub fn is_affirmative(answer: &str) -> (r: bool)
    ensures
        r == is_yes(answer@),
{
    let v = chars_of(answer);
    let (a, b) = trim_range(&v, 0, v.len());
    assert(v@.subrange(0, v.len() as int) =~= v@);
    if b - a == 1 {
        v[a] == 'y' || v[a] == 'Y'
    } else if b - a == 3 {
        (v[a] == 'y' || v[a] == 'Y') && (v[a + 1] == 'e' || v[a + 1] == 'E') && (v[a + 2] == 's'
            || v[a + 2] == 'S')
    } else {
        false
    }
}

} // verus!
