//! Parsing the subsystem's announcement. A freshly launched legacy server
//! prints a line of the form `MOSH CONNECT <port> <key>`; the responder needs
//! the port to reach it and the key to hand back to the initiator. The parse
//! mirrors a line scan: the first line carrying the prefix decides, its
//! whitespace-separated third word must be a port number, its fourth word is
//! the key.
use vstd::prelude::*;
use vstd::utf8::*;

use crate::message::copy_range;

verus! {

/// ASCII whitespace: space, tab, line feed, form feed, carriage return.
pub open spec fn is_ws(b: u8) -> bool {
    b == 32 || b == 9 || b == 10 || b == 12 || b == 13
}

/// The position of the first line feed at or after `i`, or the end.
pub open spec fn first_nl(b: Seq<u8>, i: int) -> int
    decreases b.len() - i,
{
    if i < 0 || i >= b.len() {
        b.len() as int
    } else if b[i] == 10 {
        i
    } else {
        first_nl(b, i + 1)
    }
}

/// The position of the first non-whitespace byte at or after `i`, or the end.
pub open spec fn skip_ws(b: Seq<u8>, i: int) -> int
    decreases b.len() - i,
{
    if i < 0 || i >= b.len() {
        b.len() as int
    } else if is_ws(b[i]) {
        skip_ws(b, i + 1)
    } else {
        i
    }
}

/// The position of the first whitespace byte at or after `i`, or the end.
pub open spec fn skip_word(b: Seq<u8>, i: int) -> int
    decreases b.len() - i,
{
    if i < 0 || i >= b.len() {
        b.len() as int
    } else if !is_ws(b[i]) {
        skip_word(b, i + 1)
    } else {
        i
    }
}

/// Where the whitespace-separated word number `k` (counted from zero) starts
/// at or after `i`; the end when there are not that many words.
pub open spec fn word_start(b: Seq<u8>, i: int, k: nat) -> int
    decreases k,
{
    if k == 0 {
        skip_ws(b, i)
    } else {
        word_start(b, skip_word(b, skip_ws(b, i)), (k - 1) as nat)
    }
}

pub proof fn lemma_first_nl_range(b: Seq<u8>, i: int)
    requires
        0 <= i <= b.len(),
    ensures
        i <= first_nl(b, i) <= b.len(),
    decreases b.len() - i,
{
    if i < b.len() && b[i] != 10 {
        lemma_first_nl_range(b, i + 1);
    }
}

pub proof fn lemma_skip_ws_range(b: Seq<u8>, i: int)
    requires
        0 <= i <= b.len(),
    ensures
        i <= skip_ws(b, i) <= b.len(),
    decreases b.len() - i,
{
    if i < b.len() && is_ws(b[i]) {
        lemma_skip_ws_range(b, i + 1);
    }
}

pub proof fn lemma_skip_word_range(b: Seq<u8>, i: int)
    requires
        0 <= i <= b.len(),
    ensures
        i <= skip_word(b, i) <= b.len(),
    decreases b.len() - i,
{
    if i < b.len() && !is_ws(b[i]) {
        lemma_skip_word_range(b, i + 1);
    }
}

pub proof fn lemma_word_start_range(b: Seq<u8>, i: int, k: nat)
    requires
        0 <= i <= b.len(),
    ensures
        i <= word_start(b, i, k) <= b.len(),
    decreases k,
{
    lemma_skip_ws_range(b, i);
    if k > 0 {
        lemma_skip_word_range(b, skip_ws(b, i));
        lemma_word_start_range(b, skip_word(b, skip_ws(b, i)), (k - 1) as nat);
    }
}

/// Word starts step forward: the next word begins at the first
/// non-whitespace byte after the current word ends.
pub proof fn lemma_word_start_succ(b: Seq<u8>, i: int, k: nat)
    requires
        0 <= i <= b.len(),
    ensures
        word_start(b, i, k + 1) == skip_ws(b, skip_word(b, word_start(b, i, k))),
    decreases k,
{
    lemma_skip_ws_range(b, i);
    let step = skip_word(b, skip_ws(b, i));
    lemma_skip_word_range(b, skip_ws(b, i));
    if k == 0 {
        assert(word_start(b, i, 1) == word_start(b, step, 0));
        assert(word_start(b, step, 0) == skip_ws(b, step));
        assert(word_start(b, i, 0) == skip_ws(b, i));
    } else {
        lemma_word_start_succ(b, step, (k - 1) as nat);
        assert(word_start(b, i, k + 1) == word_start(b, step, k));
        assert(word_start(b, i, k) == word_start(b, step, (k - 1) as nat));
    }
}

/// The bytes of the announcement prefix, `MOSH CONNECT`.
pub open spec fn connect_tag() -> Seq<u8> {
    seq![77u8, 79u8, 83u8, 72u8, 32u8, 67u8, 79u8, 78u8, 78u8, 69u8, 67u8, 84u8]
}

/// Whether a line begins with the announcement prefix.
pub open spec fn has_connect_prefix(line: Seq<u8>) -> bool {
    line.len() >= 12 && line.subrange(0, 12) == connect_tag()
}

/// The start of the first line at or after `i` that carries the prefix, or
/// `-1` when no line does.
pub open spec fn connect_line_start(b: Seq<u8>, i: int) -> int
    decreases b.len() - i,
    via connect_line_start_decreases
{
    if i < 0 || i > b.len() {
        -1
    } else {
        let e = first_nl(b, i);
        if has_connect_prefix(b.subrange(i, e)) {
            i
        } else if e >= b.len() {
            -1
        } else {
            connect_line_start(b, e + 1)
        }
    }
}

#[via_fn]
proof fn connect_line_start_decreases(b: Seq<u8>, i: int) {
    if 0 <= i <= b.len() {
        lemma_first_nl_range(b, i);
    }
}

/// Whether every byte of `w` is an ASCII digit.
pub open spec fn all_digits(w: Seq<u8>) -> bool {
    forall|j: int| 0 <= j < w.len() ==> 48 <= #[trigger] w[j] <= 57
}

/// The number the digit bytes of `w` spell.
pub open spec fn digits_value(w: Seq<u8>) -> int
    decreases w.len(),
{
    if w.len() == 0 {
        0
    } else {
        digits_value(w.drop_last()) * 10 + (w.last() - 48)
    }
}

/// A digit string's value only grows as digits are appended.
pub proof fn lemma_digits_monotone(w: Seq<u8>, i: int)
    requires
        all_digits(w),
        0 <= i <= w.len(),
    ensures
        digits_value(w) >= digits_value(w.take(i)),
        digits_value(w) >= 0,
    decreases w.len(),
{
    if w.len() > 0 {
        assert(all_digits(w.drop_last()));
        lemma_digits_monotone(w.drop_last(), if i < w.len() { i } else { i - 1 });
        if i < w.len() {
            assert(w.take(i) =~= w.drop_last().take(i));
        } else {
            assert(w.take(i) =~= w);
        }
    }
}

/// What a word parses to as a port number: an optional leading plus sign,
/// then only digits, spelling a value that fits.
pub open spec fn parse_u16_spec(w: Seq<u8>) -> Option<u16> {
    let d = if w.len() >= 1 && w[0] == 43 {
        w.skip(1)
    } else {
        w
    };
    if d.len() >= 1 && all_digits(d) && digits_value(d) <= 0xFFFF {
        Some(digits_value(d) as u16)
    } else {
        None
    }
}

/// What the subsystem's captured output parses to, if anything: the port and
/// the key characters from the first announcement line.
pub open spec fn parse_connect_spec(b: Seq<u8>) -> Option<(u16, Seq<char>)> {
    let ls = connect_line_start(b, 0);
    if ls < 0 {
        None
    } else {
        let line = b.subrange(ls, first_nl(b, ls));
        let w3s = word_start(line, 0, 3);
        if w3s >= line.len() {
            None
        } else {
            let w2s = word_start(line, 0, 2);
            let w2 = line.subrange(w2s, skip_word(line, w2s));
            let w3 = line.subrange(w3s, skip_word(line, w3s));
            match parse_u16_spec(w2) {
                Some(port) => if valid_utf8(w3) {
                    Some((port, decode_utf8(w3)))
                } else {
                    None
                },
                None => None,
            }
        }
    }
}

fn find_nl(b: &Vec<u8>, start: usize) -> (r: usize)
    requires
        start <= b@.len(),
    ensures
        r as int == first_nl(b@, start as int),
        start <= r <= b@.len(),
{
    let n: usize = b.len();
    let mut i: usize = start;
    while i < n
        invariant
            start <= i <= n,
            n == b@.len(),
            first_nl(b@, start as int) == first_nl(b@, i as int),
        decreases n - i,
    {
        if b[i] == 10 {
            return i;
        }
        i = i + 1;
    }
    i
}

fn skip_ws_exec(b: &Vec<u8>, start: usize) -> (r: usize)
    requires
        start <= b@.len(),
    ensures
        r as int == skip_ws(b@, start as int),
        start <= r <= b@.len(),
{
    let n: usize = b.len();
    let mut i: usize = start;
    while i < n
        invariant
            start <= i <= n,
            n == b@.len(),
            skip_ws(b@, start as int) == skip_ws(b@, i as int),
        decreases n - i,
    {
        let c = b[i];
        if !(c == 32 || c == 9 || c == 10 || c == 12 || c == 13) {
            return i;
        }
        i = i + 1;
    }
    i
}

fn skip_word_exec(b: &Vec<u8>, start: usize) -> (r: usize)
    requires
        start <= b@.len(),
    ensures
        r as int == skip_word(b@, start as int),
        start <= r <= b@.len(),
{
    let n: usize = b.len();
    let mut i: usize = start;
    while i < n
        invariant
            start <= i <= n,
            n == b@.len(),
            skip_word(b@, start as int) == skip_word(b@, i as int),
        decreases n - i,
    {
        let c = b[i];
        if c == 32 || c == 9 || c == 10 || c == 12 || c == 13 {
            return i;
        }
        i = i + 1;
    }
    i
}

fn word_start_exec(b: &Vec<u8>, k: usize) -> (r: usize)
    ensures
        r as int == word_start(b@, 0, k as nat),
        r <= b@.len(),
{
    let mut pos: usize = skip_ws_exec(b, 0);
    let mut j: usize = 0;
    while j < k
        invariant
            j <= k,
            pos <= b@.len(),
            pos as int == word_start(b@, 0, j as nat),
        decreases k - j,
    {
        let w = skip_word_exec(b, pos);
        let next = skip_ws_exec(b, w);
        proof {
            lemma_word_start_succ(b@, 0, j as nat);
        }
        pos = next;
        j = j + 1;
    }
    pos
}

fn connect_tag_vec() -> (r: Vec<u8>)
    ensures
        r@ == connect_tag(),
{
    let mut v: Vec<u8> = Vec::new();
    v.push(77);
    v.push(79);
    v.push(83);
    v.push(72);
    v.push(32);
    v.push(67);
    v.push(79);
    v.push(78);
    v.push(78);
    v.push(69);
    v.push(67);
    v.push(84);
    proof {
        assert(v@ =~= connect_tag());
    }
    v
}

fn has_connect_prefix_exec(line: &Vec<u8>) -> (r: bool)
    ensures
        r == has_connect_prefix(line@),
{
    let n: usize = line.len();
    if n < 12 {
        return false;
    }
    let tag = connect_tag_vec();
    let mut j: usize = 0;
    while j < 12
        invariant
            j <= 12,
            n == line@.len(),
            n >= 12,
            tag@ == connect_tag(),
            forall|t: int| 0 <= t < j ==> line@[t] == connect_tag()[t],
        decreases 12 - j,
    {
        if line[j] != tag[j] {
            proof {
                assert(line@.subrange(0, 12)[j as int] != connect_tag()[j as int]);
            }
            return false;
        }
        j = j + 1;
    }
    proof {
        assert(line@.subrange(0, 12) =~= connect_tag());
    }
    true
}

fn find_connect_line(b: &Vec<u8>) -> (r: Option<usize>)
    ensures
        match r {
            Some(i) => connect_line_start(b@, 0) == i as int && i <= b@.len(),
            None => connect_line_start(b@, 0) == -1,
        },
{
    let n: usize = b.len();
    let mut i: usize = 0;
    loop
        invariant
            i <= n,
            n == b@.len(),
            connect_line_start(b@, 0) == connect_line_start(b@, i as int),
        decreases n - i,
    {
        let e = find_nl(b, i);
        let line = copy_range(b, i, e);
        if has_connect_prefix_exec(&line) {
            return Some(i);
        }
        if e >= n {
            return None;
        }
        i = e + 1;
    }
}

fn parse_u16_exec(w: &Vec<u8>) -> (r: Option<u16>)
    ensures
        match r {
            Some(p) => parse_u16_spec(w@) == Some(p),
            None => parse_u16_spec(w@) is None,
        },
{
    let n: usize = w.len();
    let mut i: usize = 0;
    if n >= 1 && w[0] == 43 {
        i = 1;
    }
    let ghost d: Seq<u8> = if w@.len() >= 1 && w@[0] == 43 {
        w@.skip(1)
    } else {
        w@
    };
    let ghost off: int = i as int;
    if i >= n {
        return None;
    }
    let mut acc: u32 = 0;
    let mut j: usize = i;
    while j < n
        invariant
            off <= j <= n,
            n == w@.len(),
            off == (if w@.len() >= 1 && w@[0] == 43 { 1int } else { 0int }),
            d == w@.skip(off),
            acc <= 0xFFFF,
            acc as int == digits_value(d.take(j - off)),
            all_digits(d.take(j - off)),
        decreases n - j,
    {
        let c = w[j];
        proof {
            assert(d[j - off] == w@[j as int]);
        }
        if !(48 <= c && c <= 57) {
            proof {
                assert(!(48 <= d[j - off] <= 57));
                assert(!all_digits(d));
            }
            return None;
        }
        let next: u32 = acc * 10 + ((c - 48) as u32);
        proof {
            assert(d.take(j - off + 1).drop_last() =~= d.take(j - off));
            assert(d.take(j - off + 1).last() == d[j - off]);
            assert(digits_value(d.take(j - off + 1)) == digits_value(d.take(j - off)) * 10 + (d[j
                - off] - 48));
            assert(digits_value(d.take(j - off + 1)) == next);
        }
        if next > 0xFFFF {
            proof {
                assert(d =~= (if w@.len() >= 1 && w@[0] == 43 {
                    w@.skip(1)
                } else {
                    w@
                }));
                if all_digits(d) {
                    lemma_digits_monotone(d, j - off + 1);
                    assert(digits_value(d) > 0xFFFF);
                    assert(parse_u16_spec(w@) is None);
                } else {
                    assert(parse_u16_spec(w@) is None);
                }
            }
            return None;
        }
        acc = next;
        j = j + 1;
        proof {
            assert(all_digits(d.take(j - off)));
        }
    }
    proof {
        assert(d.take(n - off) =~= d);
    }
    Some(acc as u16)
}

/// What the responder needs from a successful bootstrap: the subsystem's
/// port and session key.
pub struct ConnectInfo {
    pub port: u16,
    pub key: String,
}

/// Parses the subsystem's captured output: `None` exactly where the spec
/// parse rejects, otherwise the announced port and key.
pub fn parse_connect_output(output: &Vec<u8>) -> (r: Option<ConnectInfo>)
    ensures
        match r {
            Some(ci) => (parse_connect_spec(output@) matches Some(pk) && pk.0 == ci.port && pk.1
                == ci.key@),
            None => parse_connect_spec(output@) is None,
        },
{
    let ls = match find_connect_line(output) {
        Some(x) => x,
        None => {
            return None;
        },
    };
    proof {
        lemma_first_nl_range(output@, ls as int);
    }
    let le = find_nl(output, ls);
    let line = copy_range(output, ls, le);
    let n: usize = line.len();
    let w3s = word_start_exec(&line, 3);
    if w3s >= n {
        return None;
    }
    let w2s = word_start_exec(&line, 2);
    proof {
        lemma_word_start_range(line@, 0, 2);
        lemma_word_start_succ(line@, 0, 2);
        lemma_skip_word_range(line@, 0);
        lemma_skip_word_range(line@, w2s as int);
        lemma_skip_ws_range(line@, skip_word(line@, w2s as int));
    }
    let w2e = skip_word_exec(&line, w2s);
    let w3e = skip_word_exec(&line, w3s);
    let w2 = copy_range(&line, w2s, w2e);
    let port = match parse_u16_exec(&w2) {
        Some(p) => p,
        None => {
            return None;
        },
    };
    let key_bytes = copy_range(&line, w3s, w3e);
    match crate::message::bytes_to_string(key_bytes) {
        Some(s) => Some(ConnectInfo { port, key: s }),
        None => None,
    }
}

} // verus!
