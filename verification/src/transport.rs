//! The pure parts of the HID transport: which endpoint an outgoing HID++
//! report goes to, the key that pairs the short and long HID++ collections
//! of one Windows HID interface, and the lengths and methods a native
//! Windows write tries.

use vstd::prelude::*;

use crate::text::{has_prefix, lower_seq, string_from_chars, to_ascii_lowercase, chars_of};

verus! {

/// Report id of a short (7-byte) HID++ report.
pub const SHORT_REPORT_ID: u8 = 0x10;

/// Report id of a long (20-byte) HID++ report.
pub const LONG_REPORT_ID: u8 = 0x11;

/// Report id of a very long HID++ report, carried by the long collection.
pub const VERY_LONG_REPORT_ID: u8 = 0x12;

/// The collection handle an outgoing report is written through.
#[derive(Debug, Clone, Copy, PartialEq, Eq, Structural)]
pub enum ReportEndpoint {
    Short,
    Long,
}

/// The endpoint a report id is written through: short reports through the
/// short collection, long and very long ones through the long collection;
/// any other id has none.
pub open spec fn spec_endpoint_for_report_id(report_id: u8) -> Option<ReportEndpoint> {
    if report_id == SHORT_REPORT_ID {
        Some(ReportEndpoint::Short)
    } else if report_id == LONG_REPORT_ID || report_id == VERY_LONG_REPORT_ID {
        Some(ReportEndpoint::Long)
    } else {
        None
    }
}

/// The endpoint a report id is written through.
pub fn endpoint_for_report_id(report_id: u8) -> (r: Option<ReportEndpoint>)
    ensures
        r == spec_endpoint_for_report_id(report_id),
{
    if report_id == SHORT_REPORT_ID {
        Some(ReportEndpoint::Short)
    } else if report_id == LONG_REPORT_ID || report_id == VERY_LONG_REPORT_ID {
        Some(ReportEndpoint::Long)
    } else {
        None
    }
}

/// `s` cut at every `sep`, as `str::split` does: one more piece than there
/// are separators, empty pieces included.
pub open spec fn split_on(s: Seq<char>, sep: char) -> Seq<Seq<char>>
    decreases s.len(),
{
    if s.len() == 0 {
        seq![Seq::<char>::empty()]
    } else {
        let prev = split_on(s.drop_last(), sep);
        if s.last() == sep {
            prev.push(Seq::<char>::empty())
        } else {
            prev.update(prev.len() - 1, prev.last().push(s.last()))
        }
    }
}

/// The pieces joined back together with `sep` between neighbours.
pub open spec fn join_with(pieces: Seq<Seq<char>>, sep: char) -> Seq<char>
    decreases pieces.len(),
{
    if pieces.len() == 0 {
        Seq::<char>::empty()
    } else if pieces.len() == 1 {
        pieces[0]
    } else {
        join_with(pieces.drop_last(), sep).push(sep) + pieces.last()
    }
}

/// The hardware-id tokens without the `col..` collection token(s).
pub open spec fn without_collection_tokens(tokens: Seq<Seq<char>>) -> Seq<Seq<char>>
    decreases tokens.len(),
{
    if tokens.len() == 0 {
        tokens
    } else {
        let prev = without_collection_tokens(tokens.drop_last());
        if has_prefix(tokens.last(), "col"@) {
            prev
        } else {
            prev.push(tokens.last())
        }
    }
}

/// An instance-id segment without its last `&`-field (`rsplit_once('&')`'s
/// head); the whole segment when it has no `&`.
pub open spec fn instance_head(instance: Seq<char>) -> Seq<char> {
    let fields = split_on(instance, '&');
    if fields.len() <= 1 {
        instance
    } else {
        join_with(fields.drop_last(), '&')
    }
}

/// The key a Windows HID interface path collapses to: lower-cased; when it
/// has at least three `#`-segments, the hardware-id segment without its
/// `col..` token, a `#`, and the instance segment without its last field;
/// otherwise the whole lower-cased path.
pub open spec fn spec_normalize_collection_path(path: Seq<char>) -> Seq<char> {
    let lower = lower_seq(path);
    let segments = split_on(lower, '#');
    if segments.len() < 3 {
        lower
    } else {
        join_with(without_collection_tokens(split_on(segments[1], '&')), '&').push('#')
            + instance_head(segments[2])
    }
}

/// The character views of a list of pieces.
pub open spec fn pieces_view(pieces: Seq<Vec<char>>) -> Seq<Seq<char>> {
    pieces.map_values(|p: Vec<char>| p@)
}

/// `s` cut at every `sep`.
fn split_chars(s: &Vec<char>, sep: char) -> (pieces: Vec<Vec<char>>)
    ensures
        pieces_view(pieces@) == split_on(s@, sep),
{
    let mut done: Vec<Vec<char>> = Vec::new();
    let mut current: Vec<char> = Vec::new();
    let mut i: usize = 0;
    proof {
        assert(s@.subrange(0, 0) =~= Seq::<char>::empty());
        assert(pieces_view(done@).push(current@) =~= seq![Seq::<char>::empty()]);
    }
    while i < s.len()
        invariant
            i <= s@.len(),
            split_on(s@.subrange(0, i as int), sep) == pieces_view(done@).push(current@),
        decreases s.len() - i,
    {
        let c = s[i];
        let ghost before = s@.subrange(0, i as int);
        let ghost prev_done = done@;
        let ghost prev_current = current@;
        assert(s@.subrange(0, i + 1).drop_last() =~= before);
        if c == sep {
            let mut finished: Vec<char> = Vec::new();
            std::mem::swap(&mut finished, &mut current);
            done.push(finished);
            assert(pieces_view(done@) =~= pieces_view(prev_done).push(prev_current));
            assert(split_on(s@.subrange(0, i + 1), sep) =~= pieces_view(done@).push(current@));
        } else {
            current.push(c);
            assert(pieces_view(done@) =~= pieces_view(prev_done));
            assert(split_on(s@.subrange(0, i + 1), sep) =~= pieces_view(done@).push(current@));
        }
        i += 1;
    }
    assert(s@.subrange(0, s@.len() as int) =~= s@);
    done.push(current);
    assert(pieces_view(done@) =~= split_on(s@, sep));
    done
}

/// `out` with the characters of `piece` appended.
fn append_chars(out: &mut Vec<char>, piece: &Vec<char>)
    ensures
        final(out)@ == old(out)@ + piece@,
{
    let mut i: usize = 0;
    while i < piece.len()
        invariant
            i <= piece@.len(),
            out@ == old(out)@ + piece@.subrange(0, i as int),
        decreases piece.len() - i,
    {
        out.push(piece[i]);
        assert(old(out)@ + piece@.subrange(0, i + 1) =~= (old(out)@ + piece@.subrange(0, i as int)).push(piece@[i as int]));
        i += 1;
    }
    assert(piece@.subrange(0, piece@.len() as int) =~= piece@);
}

/// The first `count` pieces joined with `sep`.
fn join_chars(pieces: &Vec<Vec<char>>, count: usize, sep: char) -> (out: Vec<char>)
    requires
        count <= pieces@.len(),
    ensures
        out@ == join_with(pieces_view(pieces@).subrange(0, count as int), sep),
{
    let mut out: Vec<char> = Vec::new();
    let mut i: usize = 0;
    proof {
        assert(pieces_view(pieces@).subrange(0, 0) =~= Seq::<Seq<char>>::empty());
    }
    while i < count
        invariant
            i <= count <= pieces@.len(),
            out@ == join_with(pieces_view(pieces@).subrange(0, i as int), sep),
        decreases count - i,
    {
        let ghost prefix = pieces_view(pieces@).subrange(0, i + 1);
        assert(prefix.drop_last() =~= pieces_view(pieces@).subrange(0, i as int));
        assert(prefix.last() == pieces@[i as int]@);
        if i > 0 {
            out.push(sep);
        }
        append_chars(&mut out, &pieces[i]);
        if i == 0 {
            assert(out@ =~= prefix[0]);
        }
        i += 1;
    }
    out
}

/// A fresh copy of a character vector.
fn copy_chars(piece: &Vec<char>) -> (copy: Vec<char>)
    ensures
        copy@ == piece@,
{
    let mut copy: Vec<char> = Vec::new();
    append_chars(&mut copy, piece);
    assert(copy@ =~= piece@);
    copy
}

/// Whether a piece starts with `col`.
fn is_collection_token(token: &Vec<char>) -> (b: bool)
    ensures
        b == has_prefix(token@, "col"@),
{
    proof {
        reveal_strlit("col");
    }
    if token.len() < 3 {
        return false;
    }
    let b = token[0] == 'c' && token[1] == 'o' && token[2] == 'l';
    if b {
        assert(token@.subrange(0, 3) =~= "col"@);
    } else {
        proof {
            if token@.subrange(0, 3) == "col"@ {
                assert(token@.subrange(0, 3)[0] == token@[0]);
                assert(token@.subrange(0, 3)[1] == token@[1]);
                assert(token@.subrange(0, 3)[2] == token@[2]);
            }
        }
    }
    b
}

/// The pieces that do not start with `col`, in order.
fn drop_collection_tokens(tokens: &Vec<Vec<char>>) -> (kept: Vec<Vec<char>>)
    ensures
        pieces_view(kept@) == without_collection_tokens(pieces_view(tokens@)),
{
    let mut kept: Vec<Vec<char>> = Vec::new();
    let mut i: usize = 0;
    proof {
        assert(pieces_view(tokens@).subrange(0, 0) =~= Seq::<Seq<char>>::empty());
        assert(pieces_view(kept@) =~= Seq::<Seq<char>>::empty());
    }
    while i < tokens.len()
        invariant
            i <= tokens@.len(),
            pieces_view(kept@) == without_collection_tokens(pieces_view(tokens@).subrange(0, i as int)),
        decreases tokens.len() - i,
    {
        let ghost prefix = pieces_view(tokens@).subrange(0, i + 1);
        assert(prefix.drop_last() =~= pieces_view(tokens@).subrange(0, i as int));
        assert(prefix.last() == tokens@[i as int]@);
        if !is_collection_token(&tokens[i]) {
            let ghost prev = kept@;
            let copy = copy_chars(&tokens[i]);
            kept.push(copy);
            assert(pieces_view(kept@) =~= pieces_view(prev).push(tokens@[i as int]@));
        }
        i += 1;
    }
    assert(pieces_view(tokens@).subrange(0, tokens@.len() as int) =~= pieces_view(tokens@));
    kept
}

/// The view of one piece is the piece's own view.
proof fn lemma_pieces_view_index(pieces: Seq<Vec<char>>, k: int)
    requires
        0 <= k < pieces.len(),
    ensures
        pieces_view(pieces)[k] == pieces[k]@,
        pieces_view(pieces).len() == pieces.len(),
{
}

/// Collapse a Windows HID interface path to a key that is equal for the
/// short (`&Col01`) and long (`&Col02`) HID++ collections of one physical
/// interface and distinct across interfaces and physical devices: the
/// `col..` hardware-id token and the last instance-id field are dropped.
/// A path of an unexpected shape keys as its whole lower-cased text, so it
/// never pairs.
pub fn normalize_collection_path(path: &str) -> (key: String)
    ensures
        key@ == spec_normalize_collection_path(path@),
{
    let lower = to_ascii_lowercase(path);
    let lower_chars = chars_of(lower.as_str());
    let segments = split_chars(&lower_chars, '#');
    if segments.len() < 3 {
        return lower;
    }
    proof {
        lemma_pieces_view_index(segments@, 1);
        lemma_pieces_view_index(segments@, 2);
    }
    let hw_tokens = split_chars(&segments[1], '&');
    let hw_kept = drop_collection_tokens(&hw_tokens);
    let hw_key = join_chars(&hw_kept, hw_kept.len(), '&');
    proof {
        assert(pieces_view(hw_kept@).subrange(0, hw_kept@.len() as int) =~= pieces_view(hw_kept@));
    }
    let fields = split_chars(&segments[2], '&');
    let instance_key = if fields.len() <= 1 {
        proof {
            assert(pieces_view(fields@).len() == fields@.len());
        }
        copy_chars(&segments[2])
    } else {
        let k = join_chars(&fields, fields.len() - 1, '&');
        proof {
            assert(pieces_view(fields@).subrange(0, fields@.len() - 1) =~= pieces_view(fields@).drop_last());
        }
        k
    };
    let mut key_chars = hw_key;
    key_chars.push('#');
    append_chars(&mut key_chars, &instance_key);
    string_from_chars(key_chars.as_slice())
}

/// Whether `d` does not occur in `s`.
pub open spec fn lacks(s: Seq<char>, d: char) -> bool {
    forall|k: int| 0 <= k < s.len() ==> s[k] != d
}

/// The `#`-segments of a path's lower-cased form.
pub open spec fn path_segments(path: Seq<char>) -> Seq<Seq<char>> {
    split_on(lower_seq(path), '#')
}

/// The interface part of a grouping key: the hardware-id tokens of the
/// second segment without the `col..` collection token.
pub open spec fn interface_key(path: Seq<char>) -> Seq<char> {
    join_with(without_collection_tokens(split_on(path_segments(path)[1], '&')), '&')
}

/// The instance part of a grouping key: the third segment without its last
/// field.
pub open spec fn instance_key(path: Seq<char>) -> Seq<char> {
    instance_head(path_segments(path)[2])
}

/// No piece of a split holds the separator, nor any character `s` lacks.
proof fn lemma_split_pieces_lack(s: Seq<char>, sep: char, d: char)
    requires
        d == sep || lacks(s, d),
    ensures
        split_on(s, sep).len() >= 1,
        forall|i: int| 0 <= i < split_on(s, sep).len() ==> lacks(#[trigger] split_on(s, sep)[i], d),
    decreases s.len(),
{
    if s.len() > 0 {
        let prev = s.drop_last();
        assert(d == sep || lacks(prev, d));
        lemma_split_pieces_lack(prev, sep, d);
        let p = split_on(prev, sep);
        if s.last() != sep {
            assert(s.last() == s[s.len() - 1]);
            let grown = p.last().push(s.last());
            assert(lacks(grown, d)) by {
                assert(lacks(p[p.len() - 1], d));
            }
            assert forall|i: int| 0 <= i < split_on(s, sep).len() implies lacks(#[trigger] split_on(s, sep)[i], d) by {
                if i < p.len() - 1 {
                    assert(split_on(s, sep)[i] == p[i]);
                }
            }
        } else {
            assert forall|i: int| 0 <= i < split_on(s, sep).len() implies lacks(#[trigger] split_on(s, sep)[i], d) by {
                if i < p.len() {
                    assert(split_on(s, sep)[i] == p[i]);
                }
            }
        }
    }
}

/// Joining pieces that lack `d` with another separator gives text that
/// lacks `d`.
proof fn lemma_join_lacks(pieces: Seq<Seq<char>>, sep: char, d: char)
    requires
        sep != d,
        forall|i: int| 0 <= i < pieces.len() ==> lacks(#[trigger] pieces[i], d),
    ensures
        lacks(join_with(pieces, sep), d),
    decreases pieces.len(),
{
    if pieces.len() > 1 {
        let rest = pieces.drop_last();
        assert forall|i: int| 0 <= i < rest.len() implies lacks(#[trigger] rest[i], d) by {
            assert(rest[i] == pieces[i]);
        }
        lemma_join_lacks(rest, sep, d);
        assert(lacks(pieces[pieces.len() - 1], d));
        let j = join_with(rest, sep).push(sep);
        assert(lacks(j, d));
        let whole = j + pieces.last();
        assert forall|k: int| 0 <= k < whole.len() implies whole[k] != d by {
            if k >= j.len() {
                assert(whole[k] == pieces.last()[k - j.len()]);
            }
        }
    } else if pieces.len() == 1 {
        assert(lacks(pieces[0], d));
    }
}

/// Dropping tokens keeps every remaining token lacking `d`.
proof fn lemma_without_lacks(tokens: Seq<Seq<char>>, d: char)
    requires
        forall|i: int| 0 <= i < tokens.len() ==> lacks(#[trigger] tokens[i], d),
    ensures
        forall|i: int| 0 <= i < without_collection_tokens(tokens).len() ==> lacks(#[trigger] without_collection_tokens(tokens)[i], d),
    decreases tokens.len(),
{
    if tokens.len() > 0 {
        let rest = tokens.drop_last();
        assert forall|i: int| 0 <= i < rest.len() implies lacks(#[trigger] rest[i], d) by {
            assert(rest[i] == tokens[i]);
        }
        lemma_without_lacks(rest, d);
        assert(lacks(tokens[tokens.len() - 1], d));
        let prev = without_collection_tokens(rest);
        assert(tokens.last() == tokens[tokens.len() - 1]);
        assert forall|i: int| 0 <= i < without_collection_tokens(tokens).len()
            implies lacks(#[trigger] without_collection_tokens(tokens)[i], d) by {
            if i < prev.len() {
                assert(without_collection_tokens(tokens)[i] == prev[i]);
            }
        }
    }
}

/// Both parts of a grouping key lack `#`.
proof fn lemma_key_parts_lack_hash(path: Seq<char>)
    requires
        path_segments(path).len() >= 3,
    ensures
        lacks(interface_key(path), '#'),
        lacks(instance_key(path), '#'),
{
    let segments = path_segments(path);
    lemma_split_pieces_lack(lower_seq(path), '#', '#');
    assert(lacks(segments[1], '#'));
    assert(lacks(segments[2], '#'));
    lemma_split_pieces_lack(segments[1], '&', '#');
    lemma_without_lacks(split_on(segments[1], '&'), '#');
    lemma_join_lacks(without_collection_tokens(split_on(segments[1], '&')), '&', '#');
    let fields = split_on(segments[2], '&');
    lemma_split_pieces_lack(segments[2], '&', '#');
    if fields.len() > 1 {
        let head = fields.drop_last();
        assert forall|i: int| 0 <= i < head.len() implies lacks(#[trigger] head[i], '#') by {
            assert(head[i] == fields[i]);
        }
        lemma_join_lacks(head, '&', '#');
    }
}

/// Text that is `a`, a `d`, then `b`, with `d` absent from `a`, determines
/// `a` and `b`.
proof fn lemma_split_at_first(a: Seq<char>, b: Seq<char>, a2: Seq<char>, b2: Seq<char>, d: char)
    requires
        lacks(a, d),
        lacks(a2, d),
        a.push(d) + b == a2.push(d) + b2,
    ensures
        a == a2,
        b == b2,
{
    let whole = a.push(d) + b;
    let whole2 = a2.push(d) + b2;
    if a.len() < a2.len() {
        assert(whole[a.len() as int] == d);
        assert(whole2[a.len() as int] == a2[a.len() as int]);
    } else if a2.len() < a.len() {
        assert(whole2[a2.len() as int] == d);
        assert(whole[a2.len() as int] == a[a2.len() as int]);
    }
    assert(a.len() == a2.len());
    assert(a =~= whole.subrange(0, a.len() as int));
    assert(a2 =~= whole2.subrange(0, a2.len() as int));
    assert(b =~= whole.subrange(a.len() as int + 1, whole.len() as int));
    assert(b2 =~= whole2.subrange(a2.len() as int + 1, whole2.len() as int));
}

/// The grouping key of two well-formed interface paths (at least three
/// `#`-segments) is the same exactly when their interface tokens, less the
/// collection token, and their instance ids, less the last field, are the
/// same: the short and long collections of one interface pair up, and
/// different interfaces or physical devices never do.
pub proof fn lemma_grouping_key_separates(p: Seq<char>, q: Seq<char>)
    requires
        path_segments(p).len() >= 3,
        path_segments(q).len() >= 3,
    ensures
        spec_normalize_collection_path(p) == spec_normalize_collection_path(q)
            <==> (interface_key(p) == interface_key(q) && instance_key(p) == instance_key(q)),
{
    lemma_key_parts_lack_hash(p);
    lemma_key_parts_lack_hash(q);
    if spec_normalize_collection_path(p) == spec_normalize_collection_path(q) {
        lemma_split_at_first(interface_key(p), instance_key(p), interface_key(q), instance_key(q), '#');
    }
}

/// A HID collection as the Windows short/long pairing sees it: its usage
/// page and usage, and its interface path (`None` for a node identified
/// otherwise than by path).
#[derive(Debug, Clone)]
pub struct HidCollection {
    /// HID usage page.
    pub usage_page: u16,
    /// HID usage.
    pub usage_id: u16,
    /// The interface path.
    pub path: Option<String>,
}

/// Whether `c` is the short HID++ collection (usage page `0xff00`, usage
/// `0x0001`) of the interface whose grouping key is `long_key`.
pub open spec fn spec_is_short_companion(c: HidCollection, long_key: Seq<char>) -> bool {
    &&& c.usage_page == 0xff00
    &&& c.usage_id == 0x0001
    &&& c.path matches Some(p) && spec_normalize_collection_path(p@) == long_key
}

/// The first of `candidates` that is the short HID++ collection of the same
/// physical interface as the long collection at `long_path`; `None` when
/// the long collection has no path or no sibling matches, in which case it
/// stays a long-only handle. Pairing goes by interface path, never by
/// vendor, product or name, which two identical devices share.
pub fn short_companion(long_path: Option<&str>, candidates: &[HidCollection]) -> (r: Option<usize>)
    ensures
        match long_path {
            None => r is None,
            Some(lp) => match r {
                Some(i) => i < candidates@.len()
                    && spec_is_short_companion(candidates@[i as int], spec_normalize_collection_path(lp@))
                    && forall|j: int| 0 <= j < i ==> !#[trigger] spec_is_short_companion(candidates@[j], spec_normalize_collection_path(lp@)),
                None => forall|j: int| 0 <= j < candidates@.len()
                    ==> !#[trigger] spec_is_short_companion(candidates@[j], spec_normalize_collection_path(lp@)),
            },
        },
{
    let long_key = match long_path {
        Some(p) => normalize_collection_path(p),
        None => return None,
    };
    let mut i: usize = 0;
    while i < candidates.len()
        invariant
            long_path is Some,
            long_key@ == spec_normalize_collection_path(long_path->0@),
            i <= candidates@.len(),
            forall|j: int| 0 <= j < i ==> !#[trigger] spec_is_short_companion(candidates@[j], long_key@),
        decreases candidates.len() - i,
    {
        let c = &candidates[i];
        if c.usage_page == 0xff00 && c.usage_id == 0x0001 {
            if let Some(p) = &c.path {
                let key = normalize_collection_path(p.as_str());
                if key.eq(&long_key) {
                    return Some(i);
                }
            }
        }
        i += 1;
    }
    None
}

/// The buffer lengths a report of `report_len` bytes is tried at against a
/// collection whose capability length is `caps_len`: the capability length,
/// then the report's own, keeping only those that hold the report and are
/// not zero, each once.
pub open spec fn spec_report_lengths(report_len: usize, caps_len: usize) -> Seq<usize> {
    let caps_fits = caps_len >= report_len && caps_len > 0;
    let first: Seq<usize> = if caps_fits { seq![caps_len] } else { Seq::empty() };
    if report_len > 0 && !(caps_fits && caps_len == report_len) {
        first.push(report_len)
    } else {
        first
    }
}

/// The buffer lengths a report is tried at, in order.
pub fn report_lengths(report_len: usize, caps_len: usize) -> (lengths: Vec<usize>)
    ensures
        lengths@ == spec_report_lengths(report_len, caps_len),
{
    let mut lengths: Vec<usize> = Vec::new();
    let caps_fits = caps_len >= report_len && caps_len > 0;
    if caps_fits {
        lengths.push(caps_len);
    }
    if report_len > 0 && !(caps_fits && caps_len == report_len) {
        lengths.push(report_len);
    }
    assert(lengths@ =~= spec_report_lengths(report_len, caps_len));
    lengths
}

/// `report` zero-padded to `len` bytes.
pub fn padded_report(report: &[u8], len: usize) -> (buffer: Vec<u8>)
    requires
        report@.len() <= len,
    ensures
        buffer@ == report@ + Seq::new((len - report@.len()) as nat, |_i: int| 0u8),
{
    let mut buffer: Vec<u8> = Vec::new();
    let mut i: usize = 0;
    while i < len
        invariant
            report@.len() <= len,
            i <= len,
            buffer@.len() == i,
            forall|k: int| 0 <= k < i ==> #[trigger] buffer@[k] == (if k < report@.len() { report@[k] } else { 0u8 }),
        decreases len - i,
    {
        if i < report.len() {
            buffer.push(report[i]);
        } else {
            buffer.push(0u8);
        }
        i += 1;
    }
    assert(buffer@ =~= report@ + Seq::new((len - report@.len()) as nat, |_i: int| 0u8));
    buffer
}

/// A way of handing an output report to a Windows HID collection.
#[derive(Debug, Clone, Copy, PartialEq, Eq, Structural)]
pub enum WriteMethod {
    /// `WriteFile` on the collection handle.
    WriteFile,
    /// `HidD_SetOutputReport`.
    SetOutputReport,
    /// `HidD_SetFeature`.
    SetFeature,
}

/// The output-report attempts at each length, `WriteFile` before
/// `HidD_SetOutputReport`.
pub open spec fn output_attempts(lengths: Seq<usize>) -> Seq<(WriteMethod, usize)>
    decreases lengths.len(),
{
    if lengths.len() == 0 {
        Seq::empty()
    } else {
        output_attempts(lengths.drop_last()).push((WriteMethod::WriteFile, lengths.last()))
            .push((WriteMethod::SetOutputReport, lengths.last()))
    }
}

/// The order in which a report is tried until one attempt succeeds: both
/// output-report methods at each output length, then `HidD_SetFeature` at
/// each feature length.
pub open spec fn spec_write_attempts(report_len: usize, output_len: usize, feature_len: usize) -> Seq<(WriteMethod, usize)> {
    output_attempts(spec_report_lengths(report_len, output_len))
        + spec_report_lengths(report_len, feature_len).map_values(|l: usize| (WriteMethod::SetFeature, l))
}

/// The attempts a native Windows write makes, in order, stopping at the
/// first that succeeds; when all fail, their errors are reported together.
pub fn write_attempts(report_len: usize, output_len: usize, feature_len: usize) -> (attempts: Vec<(WriteMethod, usize)>)
    ensures
        attempts@ == spec_write_attempts(report_len, output_len, feature_len),
{
    let output = report_lengths(report_len, output_len);
    let feature = report_lengths(report_len, feature_len);
    let mut attempts: Vec<(WriteMethod, usize)> = Vec::new();
    let mut i: usize = 0;
    while i < output.len()
        invariant
            i <= output@.len(),
            attempts@ == output_attempts(output@.subrange(0, i as int)),
        decreases output.len() - i,
    {
        assert(output@.subrange(0, i + 1).drop_last() =~= output@.subrange(0, i as int));
        attempts.push((WriteMethod::WriteFile, output[i]));
        attempts.push((WriteMethod::SetOutputReport, output[i]));
        i += 1;
    }
    assert(output@.subrange(0, output@.len() as int) =~= output@);
    let ghost out_part = attempts@;
    let mut j: usize = 0;
    while j < feature.len()
        invariant
            j <= feature@.len(),
            attempts@ == out_part + feature@.subrange(0, j as int).map_values(|l: usize| (WriteMethod::SetFeature, l)),
        decreases feature.len() - j,
    {
        attempts.push((WriteMethod::SetFeature, feature[j]));
        assert(out_part + feature@.subrange(0, j + 1).map_values(|l: usize| (WriteMethod::SetFeature, l))
            =~= (out_part + feature@.subrange(0, j as int).map_values(|l: usize| (WriteMethod::SetFeature, l))).push((WriteMethod::SetFeature, feature@[j as int])));
        j += 1;
    }
    assert(feature@.subrange(0, feature@.len() as int) =~= feature@);
    attempts
}

} // verus!
