//! Task ids (UPIDs) as Proxmox VE and Proxmox Backup Server write them:
//! `UPID:{node}:{pid}:{pstart}:{starttime}:{type}:{id}:{user}:` and
//! `UPID:{node}:{pid}:{pstart}:{task}:{starttime}:{type}:{id}:{user}:`.

use vstd::prelude::*;
use crate::text::{chars_of, opt_text, push_char};

verus! {

/// The parts of `s` between its ':' characters (one more than it has ':').
pub open spec fn split_colon(s: Seq<char>) -> Seq<Seq<char>>
    decreases s.len(),
{
    if s.len() == 0 {
        seq![Seq::<char>::empty()]
    } else {
        let p = split_colon(s.drop_last());
        if s.last() == ':' {
            p.push(Seq::<char>::empty())
        } else {
            p.update(p.len() - 1, p.last().push(s.last()))
        }
    }
}

proof fn lemma_split_colon_nonempty(s: Seq<char>)
    ensures
        split_colon(s).len() >= 1,
    decreases s.len(),
{
    if s.len() > 0 {
        lemma_split_colon_nonempty(s.drop_last());
    }
}

pub open spec fn is_alnum(c: char) -> bool {
    ('a' <= c && c <= 'z') || ('A' <= c && c <= 'Z') || ('0' <= c && c <= '9')
}

pub open spec fn is_hex_digit(c: char) -> bool {
    ('a' <= c && c <= 'f') || ('A' <= c && c <= 'F') || ('0' <= c && c <= '9')
}

/// The characters of Unicode's White_Space property.
pub open spec fn is_white_space(c: char) -> bool {
    ('\u{9}' <= c && c <= '\u{d}') || c == ' ' || c == '\u{85}' || c == '\u{a0}' || c == '\u{1680}'
        || ('\u{2000}' <= c && c <= '\u{200a}') || c == '\u{2028}' || c == '\u{2029}' || c
        == '\u{202f}' || c == '\u{205f}' || c == '\u{3000}'
}

/// A node name: letters, digits and '-', starting and ending with a letter
/// or digit.
pub open spec fn node_field(f: Seq<char>) -> bool {
    &&& f.len() >= 1
    &&& is_alnum(f[0])
    &&& is_alnum(f.last())
    &&& forall|j: int| 0 <= j < f.len() ==> is_alnum(#[trigger] f[j]) || f[j] == '-'
}

/// Between `lo` and `hi` hexadecimal digits.
pub open spec fn hex_field(f: Seq<char>, lo: nat, hi: nat) -> bool {
    &&& lo <= f.len() <= hi
    &&& forall|j: int| 0 <= j < f.len() ==> is_hex_digit(#[trigger] f[j])
}

/// No ':' and no white space; at least one character where `nonempty`.
pub open spec fn word_field(f: Seq<char>, nonempty: bool) -> bool {
    &&& (nonempty ==> f.len() >= 1)
    &&& forall|j: int| 0 <= j < f.len() ==> #[trigger] f[j] != ':' && !is_white_space(f[j])
}

/// The fields after `UPID:` of a Proxmox VE task id.
pub open spec fn pve_fields(f: Seq<Seq<char>>) -> bool {
    &&& f.len() == 7
    &&& node_field(f[0])
    &&& hex_field(f[1], 8, 8)
    &&& hex_field(f[2], 8, 9)
    &&& hex_field(f[3], 8, 8)
    &&& word_field(f[4], true)
    &&& word_field(f[5], false)
    &&& word_field(f[6], true)
}

/// The fields after `UPID:` of a Proxmox Backup Server task id.
pub open spec fn pbs_fields(f: Seq<Seq<char>>) -> bool {
    &&& f.len() == 8
    &&& node_field(f[0])
    &&& hex_field(f[1], 8, 8)
    &&& hex_field(f[2], 8, 9)
    &&& hex_field(f[3], 8, 16)
    &&& hex_field(f[4], 8, 8)
    &&& word_field(f[5], true)
    &&& word_field(f[6], false)
    &&& word_field(f[7], true)
}

/// The node of a well-formed task id: `UPID:`, the fields of either form,
/// each followed by ':'. `None` for anything else.
pub open spec fn upid_node_of(u: Seq<char>) -> Option<Seq<char>> {
    let n = u.len();
    if n >= 6 && u.subrange(0, 5) == "UPID:"@ && u[n - 1] == ':' {
        let f = split_colon(u.subrange(5, n - 1));
        if pve_fields(f) || pbs_fields(f) {
            Some(f[0])
        } else {
            None
        }
    } else {
        None
    }
}

fn split_fields(s: &Vec<char>, from: usize, to: usize) -> (r: Vec<Vec<char>>)
    requires
        from <= to <= s@.len(),
    ensures
        r@.map_values(|v: Vec<char>| v@) == split_colon(s@.subrange(from as int, to as int)),
{
    let mut fields: Vec<Vec<char>> = Vec::new();
    let mut cur: Vec<char> = Vec::new();
    let mut i: usize = from;
    proof {
        assert(s@.subrange(from as int, from as int) =~= Seq::<char>::empty());
        assert(fields@.map_values(|v: Vec<char>| v@).push(cur@) =~= seq![Seq::<char>::empty()]);
    }
    while i < to
        invariant
            from <= i <= to <= s@.len(),
            fields@.map_values(|v: Vec<char>| v@).push(cur@) == split_colon(
                s@.subrange(from as int, i as int),
            ),
        decreases to - i,
    {
        let ghost before = s@.subrange(from as int, i as int);
        let ghost after = s@.subrange(from as int, i + 1);
        proof {
            assert(after.drop_last() =~= before);
            assert(after.last() == s@[i as int]);
            lemma_split_colon_nonempty(before);
        }
        let c = s[i];
        if c == ':' {
            let done = cur;
            fields.push(done);
            cur = Vec::new();
            proof {
                assert(fields@.map_values(|v: Vec<char>| v@).push(cur@) =~= split_colon(after));
            }
        } else {
            cur.push(c);
            proof {
                assert(fields@.map_values(|v: Vec<char>| v@).push(cur@) =~= split_colon(after));
            }
        }
        i = i + 1;
    }
    fields.push(cur);
    proof {
        assert(fields@.map_values(|v: Vec<char>| v@) =~= split_colon(
            s@.subrange(from as int, to as int),
        ));
    }
    fields
}

fn alnum(c: char) -> (r: bool)
    ensures
        r == is_alnum(c),
{
    ('a' <= c && c <= 'z') || ('A' <= c && c <= 'Z') || ('0' <= c && c <= '9')
}

fn white_space(c: char) -> (r: bool)
    ensures
        r == is_white_space(c),
{
    ('\u{9}' <= c && c <= '\u{d}') || c == ' ' || c == '\u{85}' || c == '\u{a0}' || c == '\u{1680}'
        || ('\u{2000}' <= c && c <= '\u{200a}') || c == '\u{2028}' || c == '\u{2029}' || c
        == '\u{202f}' || c == '\u{205f}' || c == '\u{3000}'
}

fn check_node(f: &Vec<char>) -> (r: bool)
    ensures
        r == node_field(f@),
{
    let n = f.len();
    if n == 0 || !alnum(f[0]) || !alnum(f[n - 1]) {
        return false;
    }
    let mut i: usize = 0;
    while i < n
        invariant
            n == f@.len(),
            0 <= i <= n,
            forall|j: int| 0 <= j < i ==> is_alnum(#[trigger] f@[j]) || f@[j] == '-',
        decreases n - i,
    {
        if !alnum(f[i]) && f[i] != '-' {
            return false;
        }
        i = i + 1;
    }
    true
}

fn check_hex(f: &Vec<char>, lo: usize, hi: usize) -> (r: bool)
    ensures
        r == hex_field(f@, lo as nat, hi as nat),
{
    let n = f.len();
    if n < lo || n > hi {
        return false;
    }
    let mut i: usize = 0;
    while i < n
        invariant
            n == f@.len(),
            0 <= i <= n,
            forall|j: int| 0 <= j < i ==> is_hex_digit(#[trigger] f@[j]),
        decreases n - i,
    {
        let c = f[i];
        if !(('a' <= c && c <= 'f') || ('A' <= c && c <= 'F') || ('0' <= c && c <= '9')) {
            return false;
        }
        i = i + 1;
    }
    true
}

fn check_word(f: &Vec<char>, nonempty: bool) -> (r: bool)
    ensures
        r == word_field(f@, nonempty),
{
    let n = f.len();
    if nonempty && n == 0 {
        return false;
    }
    let mut i: usize = 0;
    while i < n
        invariant
            n == f@.len(),
            0 <= i <= n,
            forall|j: int| 0 <= j < i ==> #[trigger] f@[j] != ':' && !is_white_space(f@[j]),
        decreases n - i,
    {
        if f[i] == ':' || white_space(f[i]) {
            return false;
        }
        i = i + 1;
    }
    true
}

/// The node a task runs on, read from its id; `None` where the id is not a
/// well-formed task id.
pub fn upid_node(upid: &str) -> (r: Option<String>)
    ensures
        opt_text(r) == upid_node_of(upid@),
{
    let c = chars_of(upid);
    let n = c.len();
    proof {
        reveal_strlit("UPID:");
    }
    if n < 6 || c[0] != 'U' || c[1] != 'P' || c[2] != 'I' || c[3] != 'D' || c[4] != ':' || c[n - 1]
        != ':' {
        proof {
            if n >= 6 && c@.subrange(0, 5) == "UPID:"@ {
                assert(c@[0] == c@.subrange(0, 5)[0]);
                assert(c@[1] == c@.subrange(0, 5)[1]);
                assert(c@[2] == c@.subrange(0, 5)[2]);
                assert(c@[3] == c@.subrange(0, 5)[3]);
                assert(c@[4] == c@.subrange(0, 5)[4]);
            }
        }
        return None;
    }
    assert(c@.subrange(0, 5) =~= "UPID:"@);
    let f = split_fields(&c, 5, n - 1);
    let ghost fs = f@.map_values(|v: Vec<char>| v@);
    let pve = f.len() == 7 && check_node(&f[0]) && check_hex(&f[1], 8, 8) && check_hex(&f[2], 8, 9)
        && check_hex(&f[3], 8, 8) && check_word(&f[4], true) && check_word(&f[5], false)
        && check_word(&f[6], true);
    let pbs = f.len() == 8 && check_node(&f[0]) && check_hex(&f[1], 8, 8) && check_hex(&f[2], 8, 9)
        && check_hex(&f[3], 8, 16) && check_hex(&f[4], 8, 8) && check_word(&f[5], true)
        && check_word(&f[6], false) && check_word(&f[7], true);
    proof {
        assert(f@.len() == fs.len());
        assert(f@.len() >= 1 ==> fs[0] == f@[0]@);
        assert(f@.len() >= 8 ==> fs[1] == f@[1]@ && fs[2] == f@[2]@ && fs[3] == f@[3]@ && fs[4]
            == f@[4]@ && fs[5] == f@[5]@ && fs[6] == f@[6]@ && fs[7] == f@[7]@);
        assert(f@.len() >= 7 ==> fs[1] == f@[1]@ && fs[2] == f@[2]@ && fs[3] == f@[3]@ && fs[4]
            == f@[4]@ && fs[5] == f@[5]@ && fs[6] == f@[6]@);
    }
    if !pve && !pbs {
        return None;
    }
    let node = &f[0];
    let mut s = String::new();
    let mut k: usize = 0;
    while k < node.len()
        invariant
            0 <= k <= node@.len(),
            s@ == node@.subrange(0, k as int),
        decreases node@.len() - k,
    {
        push_char(&mut s, node[k]);
        k = k + 1;
        assert(s@ =~= node@.subrange(0, k as int));
    }
    assert(s@ =~= node@);
    Some(s)
}

} // verus!
