//! Parsing of the network tool's terse output.
//!
//! The setup wizard lists the active connections and their gateways.  The
//! surrounding binary runs the network tool and hands the raw bytes of
//! its output here: one line per connection, fields separated by colons.
//! `parse_active_connections` picks the usable name/device pairs out of a
//! `NAME:DEVICE` listing, and `find_gateway` picks the gateway address
//! out of a device-detail listing.  Both are proved against spec-level
//! accounts of the same line discipline.

use crate::digits::{trim_ascii, trimmed};
use vstd::prelude::*;

verus! {

/// Position of the first `sep` in `s`, or `s.len()` when `s` has none.
pub open spec fn first_pos(s: Seq<u8>, sep: u8) -> int
    decreases s.len(),
{
    if s.len() == 0 {
        0
    } else if s.first() == sep {
        0
    } else {
        1 + first_pos(s.drop_first(), sep)
    }
}

/// `first_pos` lies in `0 ..= s.len()`, points at `sep` when it is inside
/// `s`, and nothing before it is `sep`.
pub proof fn lemma_first_pos_bounds(s: Seq<u8>, sep: u8)
    ensures
        0 <= first_pos(s, sep) <= s.len(),
        first_pos(s, sep) < s.len() ==> s[first_pos(s, sep)] == sep,
        forall|j: int| 0 <= j < first_pos(s, sep) ==> s[j] != sep,
    decreases s.len(),
{
    if s.len() > 0 && s.first() != sep {
        lemma_first_pos_bounds(s.drop_first(), sep);
        assert forall|j: int| 0 <= j < first_pos(s, sep) implies s[j] != sep by {
            if j >= 1 {
                assert(s.drop_first()[j - 1] == s[j]);
            }
        }
    }
}

/// A scan that saw no `sep` before `i`, and `sep` (or the end) at `i`,
/// has found `first_pos`.
pub proof fn lemma_first_pos_from_scan(s: Seq<u8>, sep: u8, i: int)
    requires
        0 <= i <= s.len(),
        forall|j: int| 0 <= j < i ==> s[j] != sep,
        i < s.len() ==> s[i] == sep,
    ensures
        first_pos(s, sep) == i,
    decreases s.len(),
{
    if s.len() == 0 {
    } else if s.first() == sep {
        assert(i == 0);
    } else {
        assert(s[0] != sep);
        assert(i >= 1);
        let t = s.drop_first();
        assert(forall|j: int| 0 <= j < t.len() ==> #[trigger] t[j] == s[j + 1]);
        lemma_first_pos_from_scan(t, sep, i - 1);
    }
}

/// The lines of `s`: the fields between line feeds, split on every line
/// feed, the text after the last one included.
pub open spec fn split_lines(s: Seq<u8>) -> Seq<Seq<u8>>
    decreases s.len(),
{
    let p = first_pos(s, 10);
    if 0 <= p < s.len() {
        seq![s.take(p)] + split_lines(s.skip(p + 1))
    } else {
        seq![s]
    }
}

/// Copies `s[a .. b]` into a fresh vector.
fn copy_range(s: &[u8], a: usize, b: usize) -> (r: Vec<u8>)
    requires
        a <= b <= s@.len(),
    ensures
        r@ == s@.subrange(a as int, b as int),
{
    let mut r: Vec<u8> = Vec::new();
    let mut k: usize = a;
    while k < b
        invariant
            a <= k <= b <= s@.len(),
            r@ == s@.subrange(a as int, k as int),
        decreases b - k,
    {
        r.push(s[k]);
        proof {
            assert(s@.subrange(a as int, k as int).push(s@[k as int]) =~= s@.subrange(
                a as int,
                k as int + 1,
            ));
        }
        k += 1;
    }
    proof {
        assert(r@ =~= s@.subrange(a as int, b as int));
    }
    r
}

/// Scans for the first `sep` at or after `from`, returning its index, or
/// `s.len()` when the rest of `s` has none.
fn scan_for(s: &[u8], from: usize, sep: u8) -> (p: usize)
    requires
        from <= s@.len(),
    ensures
        from <= p <= s@.len(),
        p - from == first_pos(s@.skip(from as int), sep),
{
    let len = s.len();
    let mut p: usize = from;
    while p < len && s[p] != sep
        invariant
            from <= p <= len,
            len == s@.len(),
            forall|j: int| from <= j < p ==> s@[j] != sep,
        decreases len - p,
    {
        p += 1;
    }
    proof {
        let t = s@.skip(from as int);
        assert(forall|j: int| 0 <= j < t.len() ==> #[trigger] t[j] == s@[j + from]);
        lemma_first_pos_from_scan(t, sep, p - from);
    }
    p
}

/// What one `NAME:DEVICE` line contributes: the name and the device,
/// split at the first two colons, unless the line has no colon, an empty
/// name, or names the loopback device.
pub open spec fn spec_connection(line: Seq<u8>) -> Option<(Seq<u8>, Seq<u8>)> {
    let p = first_pos(line, 58);
    if p == line.len() {
        None
    } else {
        let name = line.take(p);
        let rest = line.skip(p + 1);
        let device = rest.take(first_pos(rest, 58));
        if name.len() == 0 || device == seq![108u8, 111u8] {
            None
        } else {
            Some((name, device))
        }
    }
}

/// Reads one line of the active-connection listing: `NAME:DEVICE`, with
/// anything after a second colon ignored.  Lines without a colon, with an
/// empty name, or naming the loopback device `lo` yield nothing.
#[verifier::rlimit(50)]
pub fn parse_connection_line(line: &[u8]) -> (r: Option<(Vec<u8>, Vec<u8>)>)
    ensures
        match r {
            None => spec_connection(line@) is None,
            Some(pair) => spec_connection(line@) == Some((pair.0@, pair.1@)),
        },
{
    let len = line.len();
    let p = scan_for(line, 0, 58);
    proof {
        assert(line@.skip(0) =~= line@);
    }
    if p == len {
        return None;
    }
    let q = scan_for(line, p + 1, 58);
    let name = copy_range(line, 0, p);
    let device = copy_range(line, p + 1, q);
    proof {
        let rest = line@.skip(p as int + 1);
        lemma_first_pos_bounds(rest, 58);
        assert(name@ =~= line@.take(p as int));
        assert(device@ =~= rest.take(first_pos(rest, 58))) by {
            assert(rest.take(first_pos(rest, 58)) =~= line@.subrange(p as int + 1, q as int));
        }
    }
    if name.len() == 0 {
        return None;
    }
    let is_loopback = device.len() == 2 && device[0] == 108 && device[1] == 111;
    proof {
        if is_loopback {
            assert(device@ =~= seq![108u8, 111u8]);
        } else {
            assert(device@ != seq![108u8, 111u8]);
        }
    }
    if is_loopback {
        return None;
    }
    Some((name, device))
}

/// The usable name/device pairs of a listing, line by line, in order.
pub open spec fn spec_connections(lines: Seq<Seq<u8>>) -> Seq<(Seq<u8>, Seq<u8>)>
    decreases lines.len(),
{
    if lines.len() == 0 {
        Seq::empty()
    } else {
        let rest = spec_connections(lines.drop_first());
        match spec_connection(lines.first()) {
            Some(c) => seq![c] + rest,
            None => rest,
        }
    }
}

/// Reads the whole active-connection listing: every usable `NAME:DEVICE`
/// pair of `out`, in the order of its lines.
pub fn parse_active_connections(out: &[u8]) -> (r: Vec<(Vec<u8>, Vec<u8>)>)
    ensures
        ({
            let found = spec_connections(split_lines(out@));
            &&& r@.len() == found.len()
            &&& forall|i: int|
                0 <= i < r@.len() ==> (#[trigger] r@[i].0@, r@[i].1@) == found[i]
        }),
{
    let lines = split_lines_exec(out);
    let ghost all = split_lines(out@);
    let mut r: Vec<(Vec<u8>, Vec<u8>)> = Vec::new();
    let ghost done: Seq<(Seq<u8>, Seq<u8>)> = Seq::empty();
    let mut done = Ghost(done);
    let mut i: usize = 0;
    proof {
        assert(all.skip(0) =~= all);
    }
    while i < lines.len()
        invariant
            i <= lines@.len(),
            lines@.len() == all.len(),
            forall|k: int| 0 <= k < lines@.len() ==> #[trigger] lines@[k]@ == all[k],
            spec_connections(all) == done@ + spec_connections(all.skip(i as int)),
            r@.len() == done@.len(),
            forall|k: int| 0 <= k < r@.len() ==> (#[trigger] r@[k].0@, r@[k].1@) == done@[k],
        decreases lines@.len() - i,
    {
        let ghost tail = all.skip(i as int);
        proof {
            assert(tail.len() > 0);
            assert(tail.first() == all[i as int]);
            assert(tail.drop_first() =~= all.skip(i as int + 1));
        }
        match parse_connection_line(&lines[i]) {
            Some(pair) => {
                proof {
                    assert(spec_connection(tail.first()) == Some((pair.0@, pair.1@)));
                    assert(done@ + (seq![(pair.0@, pair.1@)] + spec_connections(
                        all.skip(i as int + 1),
                    )) =~= (done@ + seq![(pair.0@, pair.1@)]) + spec_connections(
                        all.skip(i as int + 1),
                    ));
                }
                r.push(pair);
                proof {
                    done@ = done@ + seq![(r@[r@.len() - 1].0@, r@[r@.len() - 1].1@)];
                }
            }
            None => {
                proof {
                    assert(spec_connection(tail.first()) is None);
                }
            }
        }
        i += 1;
    }
    proof {
        assert(all.skip(all.len() as int) =~= Seq::<Seq<u8>>::empty());
        assert(spec_connections(all) =~= done@);
    }
    r
}

/// Splits `s` on line feeds, exactly as `split_lines` does.
pub fn split_lines_exec(s: &[u8]) -> (r: Vec<Vec<u8>>)
    ensures
        r@.len() == split_lines(s@).len(),
        forall|i: int| 0 <= i < r@.len() ==> #[trigger] r@[i]@ == split_lines(s@)[i],
{
    let len = s.len();
    let mut r: Vec<Vec<u8>> = Vec::new();
    let ghost done: Seq<Seq<u8>> = Seq::empty();
    let mut done = Ghost(done);
    let mut start: usize = 0;
    let mut finished = false;
    proof {
        assert(s@.skip(0) =~= s@);
    }
    while !finished
        invariant
            start <= len,
            len == s@.len(),
            r@.len() == done@.len(),
            forall|k: int| 0 <= k < r@.len() ==> #[trigger] r@[k]@ == done@[k],
            !finished ==> split_lines(s@) == done@ + split_lines(s@.skip(start as int)),
            finished ==> split_lines(s@) == done@,
        decreases (len - start) + (if finished { 0int } else { 1int }),
    {
        let p = scan_for(s, start, 10);
        let ghost tail = s@.skip(start as int);
        proof {
            lemma_first_pos_bounds(tail, 10);
        }
        let line = copy_range(s, start, p);
        proof {
            assert(line@ =~= tail.take(first_pos(tail, 10)));
        }
        if p == len {
            proof {
                assert(first_pos(tail, 10) == tail.len());
                assert(tail.take(tail.len() as int) =~= tail);
                assert(split_lines(tail) == seq![tail]);
                assert(done@ + seq![tail] =~= done@.push(line@));
            }
            r.push(line);
            proof {
                done@ = done@.push(tail);
            }
            finished = true;
        } else {
            proof {
                assert(first_pos(tail, 10) < tail.len());
                assert(split_lines(tail) == seq![tail.take(first_pos(tail, 10))] + split_lines(
                    tail.skip(first_pos(tail, 10) + 1),
                ));
                assert(tail.skip(first_pos(tail, 10) + 1) =~= s@.skip(p as int + 1));
                assert(done@ + (seq![line@] + split_lines(s@.skip(p as int + 1))) =~= done@.push(
                    line@,
                ) + split_lines(s@.skip(p as int + 1)));
            }
            r.push(line);
            proof {
                done@ = done@.push(tail.take(first_pos(tail, 10)));
            }
            start = p + 1;
        }
    }
    r
}

/// The prefix that marks a gateway line in the device detail listing:
/// the bytes of `IP4.GATEWAY:`.
pub open spec fn gateway_prefix() -> Seq<u8> {
    seq![73u8, 80u8, 52u8, 46u8, 71u8, 65u8, 84u8, 69u8, 87u8, 65u8, 89u8, 58u8]
}

/// What one device-detail line contributes: the gateway address after
/// `IP4.GATEWAY:`, up to a further colon and trimmed, unless it is empty
/// or the placeholder `--`.
pub open spec fn spec_gateway_line(line: Seq<u8>) -> Option<Seq<u8>> {
    if line.len() >= 12 && line.take(12) == gateway_prefix() {
        let rest = line.skip(12);
        let field = rest.take(first_pos(rest, 58));
        let gw = trimmed(field);
        if gw.len() > 0 && gw != seq![45u8, 45u8] {
            Some(gw)
        } else {
            None
        }
    } else {
        None
    }
}

/// Reads one line of the device detail listing, keeping the gateway
/// address of an `IP4.GATEWAY:` line when it carries one.
pub fn parse_gateway_line(line: &[u8]) -> (r: Option<Vec<u8>>)
    ensures
        match r {
            None => spec_gateway_line(line@) is None,
            Some(gw) => spec_gateway_line(line@) == Some(gw@),
        },
{
    if line.len() < 12 {
        return None;
    }
    let has_prefix = line[0] == 73 && line[1] == 80 && line[2] == 52 && line[3] == 46
        && line[4] == 71 && line[5] == 65 && line[6] == 84 && line[7] == 69 && line[8] == 87
        && line[9] == 65 && line[10] == 89 && line[11] == 58;
    proof {
        if has_prefix {
            assert(line@.take(12) =~= gateway_prefix());
        } else {
            assert(line@.take(12) != gateway_prefix()) by {
                if line@.take(12) == gateway_prefix() {
                    assert(forall|k: int|
                        0 <= k < 12 ==> #[trigger] line@.take(12)[k] == line@[k]);
                }
            }
        }
    }
    if !has_prefix {
        return None;
    }
    let q = scan_for(line, 12, 58);
    let field = copy_range(line, 12, q);
    proof {
        let rest = line@.skip(12);
        lemma_first_pos_bounds(rest, 58);
        assert(field@ =~= rest.take(first_pos(rest, 58)));
    }
    let gw = trim_ascii(field.as_slice());
    if gw.len() == 0 {
        return None;
    }
    let is_placeholder = gw.len() == 2 && gw[0] == 45 && gw[1] == 45;
    proof {
        if is_placeholder {
            assert(gw@ =~= seq![45u8, 45u8]);
        } else {
            assert(gw@ != seq![45u8, 45u8]);
        }
    }
    if is_placeholder {
        return None;
    }
    Some(gw)
}

/// The gateway of a device detail listing: what its first contributing
/// line carries.
pub open spec fn spec_first_gateway(lines: Seq<Seq<u8>>) -> Option<Seq<u8>>
    decreases lines.len(),
{
    if lines.len() == 0 {
        None
    } else {
        match spec_gateway_line(lines.first()) {
            Some(gw) => Some(gw),
            None => spec_first_gateway(lines.drop_first()),
        }
    }
}

/// Reads the whole device detail listing and returns the gateway address
/// of its first `IP4.GATEWAY:` line that carries one.
pub fn find_gateway(out: &[u8]) -> (r: Option<Vec<u8>>)
    ensures
        match r {
            None => spec_first_gateway(split_lines(out@)) is None,
            Some(gw) => spec_first_gateway(split_lines(out@)) == Some(gw@),
        },
{
    let lines = split_lines_exec(out);
    let ghost all = split_lines(out@);
    let mut i: usize = 0;
    proof {
        assert(all.skip(0) =~= all);
    }
    while i < lines.len()
        invariant
            i <= lines@.len(),
            all == split_lines(out@),
            lines@.len() == all.len(),
            forall|k: int| 0 <= k < lines@.len() ==> #[trigger] lines@[k]@ == all[k],
            spec_first_gateway(all) == spec_first_gateway(all.skip(i as int)),
        decreases lines@.len() - i,
    {
        let ghost tail = all.skip(i as int);
        proof {
            assert(tail.len() > 0);
            assert(tail.first() == all[i as int]);
            assert(tail.drop_first() =~= all.skip(i as int + 1));
        }
        match parse_gateway_line(&lines[i]) {
            Some(gw) => {
                proof {
                    assert(spec_gateway_line(tail.first()) == Some(gw@));
                    assert(spec_first_gateway(tail) == Some(gw@));
                }
                return Some(gw);
            }
            None => {}
        }
        i += 1;
    }
    proof {
        assert(all.skip(all.len() as int) =~= Seq::<Seq<u8>>::empty());
    }
    None
}

} // verus!
