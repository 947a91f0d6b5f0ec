//! Decoding of response payloads: line-oriented records, one parser per
//! kind of response.

use vstd::prelude::*;

use crate::message::header::Field;
use crate::message::records::{
    colon3, event_tag, inline_tag, first_part, first_part_of, has_key, has_prefix, int1, int_of, is_tag_line,
    link_fields_ok, parse_tag_output_line, record_event_ok, starts_with, tag_line, tag_ok, text1,
    value_of, same_response_scalars, blank_response_scalars,
};
use crate::message::types::{
    BriefHitRecord, DateTimeObject, EventFields, LinkFields, Message, ResponseFields, StoreBatchEventRecord,
    StoreLinkBatchEventRecord, TagOutput,
};
use crate::message::wire::{
    line_ranges, lines_of, pairs_view, parse_tab_pairs, piece_ranges, split_on, tab_pairs, Chars,
};
use crate::text::{
    chars_of, find_char, first_index_of, parse_i32_or_zero, slice_to_vec_chars, string_from_chars,
};

verus! {

// ── Lines ────────────────────────────────────────────────────────────────────

/// The indices below `n` at which `p` holds, in order.
pub open spec fn indices_where(n: nat, p: spec_fn(int) -> bool) -> Seq<int>
    decreases n,
{
    if n == 0 {
        Seq::empty()
    } else {
        let prev = indices_where((n - 1) as nat, p);
        if p(n - 1) {
            prev.push(n - 1)
        } else {
            prev
        }
    }
}

pub proof fn lemma_indices_where(n: nat, p: spec_fn(int) -> bool)
    ensures
        forall|k: int|
            0 <= k < indices_where(n, p).len() ==> 0 <= #[trigger] indices_where(n, p)[k] < n && p(
                indices_where(n, p)[k],
            ),
        forall|k: int, m: int|
            0 <= k < m < indices_where(n, p).len() ==> #[trigger] indices_where(n, p)[k]
                < #[trigger] indices_where(n, p)[m],
    decreases n,
{
    if n > 0 {
        let prev = indices_where((n - 1) as nat, p);
        lemma_indices_where((n - 1) as nat, p);
        let cur = indices_where(n, p);
        assert forall|k: int| 0 <= k < cur.len() implies 0 <= #[trigger] cur[k] < n && p(cur[k]) by {
            if k < prev.len() {
                assert(cur[k] == prev[k]);
            }
        }
        assert forall|k: int, m: int| 0 <= k < m < cur.len() implies #[trigger] cur[k]
            < #[trigger] cur[m] by {
            if m < prev.len() {
                assert(cur[k] == prev[k]);
                assert(cur[m] == prev[m]);
            } else {
                assert(cur[k] == prev[k]);
            }
        }
    }
}

/// A payload split into lines.
pub struct PayloadLines {
    pub text: Vec<char>,
    pub ranges: Vec<(usize, usize)>,
}

impl PayloadLines {
    /// The lines, as `str::lines` gives them.
    pub open spec fn lines(&self) -> Seq<Seq<char>> {
        lines_of(self.text@)
    }

    pub open spec fn wf(&self) -> bool {
        &&& self.ranges@.len() == lines_of(self.text@).len()
        &&& forall|i: int|
            #![trigger self.ranges@[i]]
            0 <= i < self.ranges@.len() ==> self.ranges@[i].0 <= self.ranges@[i].1
                && self.ranges@[i].1 <= self.text@.len()
        &&& forall|i: int|
            0 <= i < self.ranges@.len() ==> #[trigger] lines_of(self.text@)[i]
                == self.text@.subrange(self.ranges@[i].0 as int, self.ranges@[i].1 as int)
    }

    pub fn new(text: Vec<char>) -> (r: Self)
        ensures
            r.wf(),
            r.text@ == text@,
    {
        let ranges = line_ranges(&text);
        PayloadLines { text, ranges }
    }

    pub fn count(&self) -> (r: usize)
        requires
            self.wf(),
        ensures
            r == self.lines().len(),
    {
        self.ranges.len()
    }

    /// Line `i`.
    pub fn line(&self, i: usize) -> (r: Vec<char>)
        requires
            self.wf(),
            i < self.lines().len(),
        ensures
            r@ == self.lines()[i as int],
    {
        let (a, b) = self.ranges[i];
        assert(self.ranges@[i as int].0 <= self.ranges@[i as int].1);
        slice_to_vec_chars(self.text.as_slice(), a, b)
    }
}

/// `v` from position `k` on.
fn rest_from(v: &Vec<char>, k: usize) -> (r: Vec<char>)
    requires
        k <= v@.len(),
    ensures
        r@ == v@.skip(k as int),
{
    let n = v.len();
    let r = slice_to_vec_chars(v.as_slice(), k, n);
    assert(r@ =~= v@.skip(k as int));
    r
}

/// The pairs of every line, in order.
pub open spec fn all_pairs(ls: Seq<Seq<char>>) -> Seq<Field>
    decreases ls.len(),
{
    if ls.len() == 0 {
        Seq::empty()
    } else {
        all_pairs(ls.drop_last()) + tab_pairs(ls.last())
    }
}

/// The pairs of all lines of a payload.
fn all_line_pairs(pl: &PayloadLines) -> (r: Vec<(Chars, Chars)>)
    requires
        pl.wf(),
    ensures
        pairs_view(r@) == all_pairs(pl.lines()),
{
    let mut out: Vec<(Chars, Chars)> = Vec::new();
    let n = pl.count();
    assert(pl.lines().take(0) =~= Seq::<Seq<char>>::empty());
    assert(pairs_view(out@) =~= Seq::<Field>::empty());
    let mut i: usize = 0;
    while i < n
        invariant
            i <= n,
            pl.wf(),
            n == pl.lines().len(),
            pairs_view(out@) == all_pairs(pl.lines().take(i as int)),
        decreases n - i,
    {
        let l = pl.line(i);
        let mut ps = parse_tab_pairs(&l);
        let ghost before = out@;
        let ghost added = ps@;
        out.append(&mut ps);
        assert(pl.lines().take(i + 1).drop_last() =~= pl.lines().take(i as int));
        assert(pairs_view(out@) =~= pairs_view(before) + pairs_view(added));
        i = i + 1;
    }
    assert(pl.lines().take(n as int) =~= pl.lines());
    out
}

// ── Tag lists ────────────────────────────────────────────────────────────────

/// A `<freq>\t<category>\t<value>` line of a tag list.
pub open spec fn payload_tag_line(l: Seq<char>) -> bool {
    split_on(l, '\t').len() >= 3
}

/// The tag of such a line.
pub open spec fn payload_tag(t: TagOutput, l: Seq<char>) -> bool {
    let ps = split_on(l, '\t');
    tag_ok(t, parse_i32_or_zero(ps[0]), ps[1], Seq::empty(), ps[2])
}

/// Parse tags from a payload string (tab-separated: freq\tcategory\tvalue per line).
pub fn parse_tags_from_payload(payload: &str) -> (r: Vec<TagOutput>)
    ensures
        ({
            let ls = lines_of(payload@);
            let idx = indices_where(ls.len(), |j: int| payload_tag_line(ls[j]));
            &&& r@.len() == idx.len()
            &&& forall|k: int| 0 <= k < r@.len() ==> #[trigger] payload_tag(r@[k], ls[idx[k]])
        }),
{
    let pl = PayloadLines::new(chars_of(payload));
    let ghost ls = pl.lines();
    let ghost p = |j: int| payload_tag_line(ls[j]);
    let mut out: Vec<TagOutput> = Vec::new();
    let n = pl.count();
    let mut i: usize = 0;
    while i < n
        invariant
            i <= n,
            pl.wf(),
            ls == pl.lines(),
            n == ls.len(),
            p == (|j: int| payload_tag_line(ls[j])),
            out@.len() == indices_where(i as nat, p).len(),
            forall|k: int|
                0 <= k < out@.len() ==> #[trigger] payload_tag(out@[k], ls[indices_where(i as nat, p)[k]]),
        decreases n - i,
    {
        let l = pl.line(i);
        let ps = piece_ranges(&l, '\t');
        let ghost prev = indices_where(i as nat, p);
        if ps.len() >= 3 {
            let f = slice_to_vec_chars(l.as_slice(), ps[0].0, ps[0].1);
            let c = slice_to_vec_chars(l.as_slice(), ps[1].0, ps[1].1);
            let v = slice_to_vec_chars(l.as_slice(), ps[2].0, ps[2].1);
            assert(split_on(l@, '\t')[0] == f@);
            assert(split_on(l@, '\t')[1] == c@);
            assert(split_on(l@, '\t')[2] == v@);
            let t = TagOutput {
                frequency: crate::message::records::int_or_zero(f.as_slice()),
                category: string_from_chars(c.as_slice()),
                key: String::new(),
                value: string_from_chars(v.as_slice()),
                owner: String::new(),
                timestamp: String::new(),
                target_tag_id: String::new(),
            };
            assert(payload_tag(t, ls[i as int]));
            let ghost old_out = out@;
            out.push(t);
            assert(p(i as int));
            assert(indices_where((i + 1) as nat, p) == prev.push(i as int));
            assert forall|k: int| 0 <= k < out@.len() implies #[trigger] payload_tag(
                out@[k],
                ls[indices_where((i + 1) as nat, p)[k]],
            ) by {
                if k < prev.len() {
                    assert(indices_where((i + 1) as nat, p)[k] == prev[k]);
                    assert(out@[k] == old_out[k]);
                    assert(payload_tag(old_out[k], ls[prev[k]]));
                } else {
                    assert(indices_where((i + 1) as nat, p)[k] == i);
                }
            }
        } else {
            assert(!p(i as int));
            assert(indices_where((i + 1) as nat, p) == prev);
        }
        i = i + 1;
    }
    assert(p =~= (|j: int| payload_tag_line(lines_of(payload@)[j])));
    out
}

// ── Batch store responses ────────────────────────────────────────────────────

/// A line of a batch event response that reports an event.
pub open spec fn batch_event_line(l: Seq<char>) -> bool {
    let fs = tab_pairs(l);
    value_of(fs, seq!["_event_id"@, "event_id"@]).len() > 0 || value_of(
        fs,
        seq!["unique_id"@, "_unique_id"@, "tag:1:_unique_id"@],
    ).len() > 0
}

/// The record of a batch event response (`parse_store_batch_events_payload`).
pub open spec fn batch_event_record_ok(r: StoreBatchEventRecord, ls: Seq<Seq<char>>) -> bool {
    let all = all_pairs(ls);
    let idx = indices_where(ls.len(), |j: int| batch_event_line(ls[j]));
    &&& r.status@ == value_of(all, seq!["_status"@])
    &&& r.message@ == value_of(all, seq!["_msg"@])
    &&& r.event_count == int_of(all, seq!["_count"@])
    &&& r.event_results@.len() == idx.len()
    &&& forall|k: int|
        0 <= k < idx.len() ==> #[trigger] record_event_ok(
            r.event_results@[k],
            tab_pairs(ls[idx[k]]),
        )
}

pub fn parse_store_batch_events_payload(pl: &PayloadLines) -> (r: StoreBatchEventRecord)
    requires
        pl.wf(),
    ensures
        batch_event_record_ok(r, pl.lines()),
{
    let all = all_line_pairs(pl);
    let ghost ls = pl.lines();
    let ghost p = |j: int| batch_event_line(ls[j]);
    let mut events: Vec<EventFields> = Vec::new();
    let n = pl.count();
    let mut i: usize = 0;
    while i < n
        invariant
            i <= n,
            pl.wf(),
            ls == pl.lines(),
            n == ls.len(),
            p == (|j: int| batch_event_line(ls[j])),
            events@.len() == indices_where(i as nat, p).len(),
            forall|k: int|
                0 <= k < events@.len() ==> #[trigger] record_event_ok(
                    events@[k],
                    tab_pairs(ls[indices_where(i as nat, p)[k]]),
                ),
        decreases n - i,
    {
        let l = pl.line(i);
        let pairs = parse_tab_pairs(&l);
        let e = crate::message::records::decode_event_fields(&pairs);
        let ghost prev = indices_where(i as nat, p);
        if !e.id.as_str().is_empty() || !e.unique_id.as_str().is_empty() {
            let ghost old_events = events@;
            events.push(e);
            assert(p(i as int));
            assert(indices_where((i + 1) as nat, p) == prev.push(i as int));
            assert forall|k: int| 0 <= k < events@.len() implies #[trigger] record_event_ok(
                events@[k],
                tab_pairs(ls[indices_where((i + 1) as nat, p)[k]]),
            ) by {
                if k < prev.len() {
                    assert(indices_where((i + 1) as nat, p)[k] == prev[k]);
                    assert(events@[k] == old_events[k]);
                    assert(record_event_ok(old_events[k], tab_pairs(ls[prev[k]])));
                } else {
                    assert(indices_where((i + 1) as nat, p)[k] == i);
                }
            }
        } else {
            assert(!p(i as int));
            assert(indices_where((i + 1) as nat, p) == prev);
        }
        i = i + 1;
    }
    assert(p =~= (|j: int| batch_event_line(pl.lines()[j])));
    StoreBatchEventRecord {
        status: text1(&all, "_status"),
        message: text1(&all, "_msg"),
        event_count: int1(&all, "_count"),
        event_results: events,
    }
}

/// A summary line of a batch link response: it has `_status` or `_links_ok`.
pub open spec fn link_summary_line(fs: Seq<Field>) -> bool {
    has_key(fs, seq!["_status"@]) || has_key(fs, seq!["_links_ok"@])
}

/// A line of a batch link response that reports a link.
pub open spec fn batch_link_line(l: Seq<char>) -> bool {
    let fs = tab_pairs(l);
    !link_summary_line(fs) && (value_of(fs, seq!["link_id"@]).len() > 0 || value_of(
        fs,
        seq!["event_id_a"@],
    ).len() > 0)
}

/// The link a batch link response line reports.
pub open spec fn batch_link_ok(lf: LinkFields, fs: Seq<Field>) -> bool {
    &&& lf.id@ == value_of(fs, seq!["link_id"@])
    &&& lf.event_a@ == value_of(fs, seq!["event_id_a"@])
    &&& lf.event_b@ == value_of(fs, seq!["event_id_b"@])
    &&& lf.unique_id_a@ == value_of(fs, seq!["unique_id_a"@])
    &&& lf.unique_id_b@ == value_of(fs, seq!["unique_id_b"@])
    &&& lf.status@ == value_of(fs, seq!["link_status"@])
    &&& lf.unique_id@.len() == 0
    &&& lf.local_id@.len() == 0
    &&& lf.owner@.len() == 0
    &&& lf.timestamp@.len() == 0
    &&& lf.date_time.is_blank()
    &&& lf.location@.len() == 0
    &&& lf.location_separator@.len() == 0
    &&& lf.strength_a@.len() == 0
    &&& lf.strength_b@.len() == 0
    &&& lf.category@.len() == 0
    &&& lf.link_type@.len() == 0
    &&& lf.owner_unique_id@.len() == 0
    &&& lf.owner_id@.len() == 0
    &&& lf.tags@.len() == 0
    &&& lf.target_tags@.len() == 0
    &&& lf.message@.len() == 0
}

/// The record of a batch link response (`parse_link_event_batch_payload`).
pub open spec fn batch_link_record_ok(r: StoreLinkBatchEventRecord, ls: Seq<Seq<char>>) -> bool {
    let all = all_pairs(ls);
    let idx = indices_where(ls.len(), |j: int| batch_link_line(ls[j]));
    &&& r.status@ == value_of(all, seq!["_status"@])
    &&& r.message@ == value_of(all, seq!["_msg"@])
    &&& r.total_link_requests_found == int_of(all, seq!["total_link_requests_found"@])
    &&& r.links_ok == int_of(all, seq!["_links_ok"@])
    &&& r.links_with_errors == int_of(all, seq!["_links_with_errors"@])
    &&& r.link_results@.len() == idx.len()
    &&& forall|k: int|
        0 <= k < idx.len() ==> #[trigger] batch_link_ok(r.link_results@[k], tab_pairs(ls[idx[k]]))
}

fn batch_link_of(pairs: &Vec<(Chars, Chars)>) -> (lf: LinkFields)
    ensures
        batch_link_ok(lf, pairs_view(pairs@)),
{
    LinkFields {
        unique_id: String::new(),
        id: text1(pairs, "link_id"),
        local_id: String::new(),
        owner: String::new(),
        timestamp: String::new(),
        date_time: DateTimeObject::default(),
        location: String::new(),
        location_separator: String::new(),
        event_a: text1(pairs, "event_id_a"),
        event_b: text1(pairs, "event_id_b"),
        unique_id_a: text1(pairs, "unique_id_a"),
        unique_id_b: text1(pairs, "unique_id_b"),
        strength_a: String::new(),
        strength_b: String::new(),
        category: String::new(),
        link_type: String::new(),
        owner_unique_id: String::new(),
        owner_id: String::new(),
        tags: Vec::new(),
        target_tags: Vec::new(),
        status: text1(pairs, "link_status"),
        message: String::new(),
    }
}

pub fn parse_link_event_batch_payload(pl: &PayloadLines) -> (r: StoreLinkBatchEventRecord)
    requires
        pl.wf(),
    ensures
        batch_link_record_ok(r, pl.lines()),
{
    let all = all_line_pairs(pl);
    let ghost ls = pl.lines();
    let ghost p = |j: int| batch_link_line(ls[j]);
    let mut links: Vec<LinkFields> = Vec::new();
    let n = pl.count();
    let mut i: usize = 0;
    while i < n
        invariant
            i <= n,
            pl.wf(),
            ls == pl.lines(),
            n == ls.len(),
            p == (|j: int| batch_link_line(ls[j])),
            links@.len() == indices_where(i as nat, p).len(),
            forall|k: int|
                0 <= k < links@.len() ==> #[trigger] batch_link_ok(
                    links@[k],
                    tab_pairs(ls[indices_where(i as nat, p)[k]]),
                ),
        decreases n - i,
    {
        let l = pl.line(i);
        let pairs = parse_tab_pairs(&l);
        let summary = crate::message::records::find1(&pairs, "_status").is_some()
            || crate::message::records::find1(&pairs, "_links_ok").is_some();
        let lf = batch_link_of(&pairs);
        let ghost prev = indices_where(i as nat, p);
        if !summary && (!lf.id.as_str().is_empty() || !lf.event_a.as_str().is_empty()) {
            let ghost old_links = links@;
            links.push(lf);
            assert(p(i as int));
            assert(indices_where((i + 1) as nat, p) == prev.push(i as int));
            assert forall|k: int| 0 <= k < links@.len() implies #[trigger] batch_link_ok(
                links@[k],
                tab_pairs(ls[indices_where((i + 1) as nat, p)[k]]),
            ) by {
                if k < prev.len() {
                    assert(indices_where((i + 1) as nat, p)[k] == prev[k]);
                    assert(links@[k] == old_links[k]);
                    assert(batch_link_ok(old_links[k], tab_pairs(ls[prev[k]])));
                } else {
                    assert(indices_where((i + 1) as nat, p)[k] == i);
                }
            }
        } else {
            assert(!p(i as int));
            assert(indices_where((i + 1) as nat, p) == prev);
        }
        i = i + 1;
    }
    assert(p =~= (|j: int| batch_link_line(pl.lines()[j])));
    StoreLinkBatchEventRecord {
        status: text1(&all, "_status"),
        message: text1(&all, "_msg"),
        total_link_requests_found: int1(&all, "total_link_requests_found"),
        links_ok: int1(&all, "_links_ok"),
        links_with_errors: int1(&all, "_links_with_errors"),
        link_results: links,
    }
}


// ── Tags attached by id ──────────────────────────────────────────────────────

/// Whether line `j` is a tag line with `prefix` whose first part is `id`.
pub open spec fn tagged_for(ls: Seq<Seq<char>>, prefix: Seq<char>, id: Seq<char>, j: int) -> bool {
    &&& has_prefix(ls[j], prefix)
    &&& is_tag_line(ls[j].skip(prefix.len() as int))
    &&& first_part(ls[j].skip(prefix.len() as int)) == id
}

/// `tags` are the tags of the `prefix` lines for `id`, in order.
pub open spec fn tags_for_ok(
    tags: Seq<TagOutput>,
    ls: Seq<Seq<char>>,
    prefix: Seq<char>,
    id: Seq<char>,
) -> bool {
    let idx = indices_where(ls.len(), |j: int| tagged_for(ls, prefix, id, j));
    &&& tags.len() == idx.len()
    &&& forall|k: int|
        0 <= k < idx.len() ==> #[trigger] tag_line(tags[k], ls[idx[k]].skip(prefix.len() as int))
}

/// The tags of the `prefix` lines whose first part is `id`.
fn collect_tags(pl: &PayloadLines, prefix: &str, id: &[char]) -> (r: Vec<TagOutput>)
    requires
        pl.wf(),
    ensures
        tags_for_ok(r@, pl.lines(), prefix@, id@),
{
    let ghost ls = pl.lines();
    let ghost p = |j: int| tagged_for(ls, prefix@, id@, j);
    let plen = chars_of(prefix).len();
    let mut out: Vec<TagOutput> = Vec::new();
    let n = pl.count();
    let mut i: usize = 0;
    while i < n
        invariant
            i <= n,
            pl.wf(),
            ls == pl.lines(),
            n == ls.len(),
            plen == prefix@.len(),
            p == (|j: int| tagged_for(ls, prefix@, id@, j)),
            out@.len() == indices_where(i as nat, p).len(),
            forall|k: int|
                0 <= k < out@.len() ==> #[trigger] tag_line(
                    out@[k],
                    ls[indices_where(i as nat, p)[k]].skip(plen as int),
                ),
        decreases n - i,
    {
        let l = pl.line(i);
        let ghost prev = indices_where(i as nat, p);
        let mut hit: Option<TagOutput> = None;
        if starts_with(l.as_slice(), prefix) {
            let rest = rest_from(&l, plen);
            match parse_tag_output_line(&rest) {
                Some(t) => {
                    let fp = first_part_of(&rest);
                    if crate::text::chars_eq(fp.as_slice(), id) {
                        hit = Some(t);
                    }
                },
                None => {},
            }
        }
        match hit {
            Some(t) => {
                assert(p(i as int));
                let ghost old_out = out@;
                out.push(t);
                assert(indices_where((i + 1) as nat, p) == prev.push(i as int));
                assert forall|k: int| 0 <= k < out@.len() implies #[trigger] tag_line(
                    out@[k],
                    ls[indices_where((i + 1) as nat, p)[k]].skip(plen as int),
                ) by {
                    if k < prev.len() {
                        assert(indices_where((i + 1) as nat, p)[k] == prev[k]);
                        assert(out@[k] == old_out[k]);
                        assert(tag_line(old_out[k], ls[prev[k]].skip(plen as int)));
                    } else {
                        assert(indices_where((i + 1) as nat, p)[k] == i);
                    }
                }
            },
            None => {
                assert(!p(i as int));
                assert(indices_where((i + 1) as nat, p) == prev);
            },
        }
        i = i + 1;
    }
    assert(p =~= (|j: int| tagged_for(pl.lines(), prefix@, id@, j)));
    out
}

/// Whether some earlier entry equals entry `g`.
pub open spec fn seen_before(ids: Seq<Seq<char>>, g: int) -> bool {
    exists|m: int| 0 <= m < g && ids[m] == ids[g]
}

// ── Get-event responses ──────────────────────────────────────────────────────

/// Whether pair `i` is the last with its key.
pub open spec fn last_of_key(fs: Seq<Field>, i: int) -> bool {
    forall|j: int| i < j < fs.len() ==> fs[j].0 != fs[i].0
}

/// Whether pair `i` is an `event_tag:<num>:<freq>` field of the header.
pub open spec fn event_tag_field(fs: Seq<Field>, i: int) -> bool {
    &&& last_of_key(fs, i)
    &&& has_prefix(fs[i].0, "event_tag:"@)
    &&& colon3(fs[i].0) is Some
}

/// The tags of the header's `event_tag:` fields, one per key.
pub open spec fn header_event_tags_ok(tags: Seq<TagOutput>, fs: Seq<Field>) -> bool {
    let idx = indices_where(fs.len(), |j: int| event_tag_field(fs, j));
    &&& tags.len() == idx.len()
    &&& forall|k: int| 0 <= k < idx.len() ==> #[trigger] event_tag(fs[idx[k]].0, fs[idx[k]].1, tags[k])
}

fn is_last_of_key(pairs: &Vec<(Chars, Chars)>, i: usize) -> (r: bool)
    requires
        i < pairs@.len(),
    ensures
        r == last_of_key(pairs_view(pairs@), i as int),
{
    let n = pairs.len();
    let mut j = i + 1;
    while j < n
        invariant
            i < j <= n == pairs@.len(),
            forall|m: int| i < m < j ==> pairs_view(pairs@)[m].0 != pairs_view(pairs@)[i as int].0,
        decreases n - j,
    {
        if crate::text::chars_eq(pairs[j].0.as_slice(), pairs[i].0.as_slice()) {
            assert(pairs_view(pairs@)[j as int].0 == pairs_view(pairs@)[i as int].0);
            return false;
        }
        j = j + 1;
    }
    true
}

fn header_event_tags(pairs: &Vec<(Chars, Chars)>) -> (r: Vec<TagOutput>)
    ensures
        header_event_tags_ok(r@, pairs_view(pairs@)),
{
    let ghost fs = pairs_view(pairs@);
    let ghost p = |j: int| event_tag_field(fs, j);
    let mut out: Vec<TagOutput> = Vec::new();
    let n = pairs.len();
    let mut i: usize = 0;
    while i < n
        invariant
            i <= n == pairs@.len(),
            fs == pairs_view(pairs@),
            p == (|j: int| event_tag_field(fs, j)),
            out@.len() == indices_where(i as nat, p).len(),
            forall|k: int|
                0 <= k < out@.len() ==> #[trigger] event_tag(
                    fs[indices_where(i as nat, p)[k]].0,
                    fs[indices_where(i as nat, p)[k]].1,
                    out@[k],
                ),
        decreases n - i,
    {
        let ghost prev = indices_where(i as nat, p);
        let mut hit: Option<TagOutput> = None;
        assert(fs[i as int] == (pairs@[i as int].0@, pairs@[i as int].1@));
        if is_last_of_key(pairs, i) && starts_with(pairs[i].0.as_slice(), "event_tag:") {
            hit = crate::message::records::event_tag_of(&pairs[i].0, &pairs[i].1);
        }
        match hit {
            Some(t) => {
                assert(p(i as int));
                let ghost old_out = out@;
                out.push(t);
                assert(indices_where((i + 1) as nat, p) == prev.push(i as int));
                assert forall|k: int| 0 <= k < out@.len() implies #[trigger] event_tag(
                    fs[indices_where((i + 1) as nat, p)[k]].0,
                    fs[indices_where((i + 1) as nat, p)[k]].1,
                    out@[k],
                ) by {
                    if k < prev.len() {
                        assert(indices_where((i + 1) as nat, p)[k] == prev[k]);
                        assert(out@[k] == old_out[k]);
                        assert(event_tag(fs[prev[k]].0, fs[prev[k]].1, old_out[k]));
                    } else {
                        assert(indices_where((i + 1) as nat, p)[k] == i);
                    }
                }
            },
            None => {
                assert(!p(i as int));
                assert(indices_where((i + 1) as nat, p) == prev);
            },
        }
        i = i + 1;
    }
    assert(p =~= (|j: int| event_tag_field(pairs_view(pairs@), j)));
    out
}

/// The link id of a `_link=` line.
pub open spec fn line_link_id(ls: Seq<Seq<char>>, j: int) -> Seq<char> {
    value_of(tab_pairs(ls[j].skip(6)), seq!["link_id"@])
}

/// The `_link=` lines.
pub open spec fn link_line_indices(ls: Seq<Seq<char>>) -> Seq<int> {
    indices_where(ls.len(), |j: int| has_prefix(ls[j], "_link="@))
}

/// The links of a get-event response: one per `_link=` line; a link takes
/// the `_linktag` lines for its id unless an earlier link has that id.
pub open spec fn get_event_links_ok(links: Seq<LinkFields>, ls: Seq<Seq<char>>) -> bool {
    let idx = link_line_indices(ls);
    let ids = idx.map_values(|j: int| line_link_id(ls, j));
    &&& links.len() == idx.len()
    &&& forall|k: int|
        #![trigger links[k]]
        0 <= k < idx.len() ==> {
            &&& link_fields_ok(links[k], ls[idx[k]].skip(6))
            &&& links[k].target_tags@.len() == 0
            &&& if seen_before(ids, k) {
                links[k].tags@.len() == 0
            } else {
                tags_for_ok(links[k].tags@, ls, "_linktag\t"@, ids[k])
            }
        }
}

fn get_event_links(pl: &PayloadLines) -> (r: Vec<LinkFields>)
    requires
        pl.wf(),
    ensures
        get_event_links_ok(r@, pl.lines()),
{
    let ghost ls = pl.lines();
    let ghost p = |j: int| has_prefix(ls[j], "_link="@);
    let mut out: Vec<LinkFields> = Vec::new();
    let n = pl.count();
    let mut i: usize = 0;
    while i < n
        invariant
            i <= n,
            pl.wf(),
            ls == pl.lines(),
            n == ls.len(),
            p == (|j: int| has_prefix(ls[j], "_link="@)),
            out@.len() == indices_where(i as nat, p).len(),
            forall|k: int|
                #![trigger out@[k]]
                0 <= k < out@.len() ==> {
                    let idx = indices_where(i as nat, p);
                    let ids = idx.map_values(|j: int| line_link_id(ls, j));
                    &&& link_fields_ok(out@[k], ls[idx[k]].skip(6))
                    &&& out@[k].id@ == ids[k]
                    &&& out@[k].target_tags@.len() == 0
                    &&& if seen_before(ids, k) {
                        out@[k].tags@.len() == 0
                    } else {
                        tags_for_ok(out@[k].tags@, ls, "_linktag\t"@, ids[k])
                    }
                },
        decreases n - i,
    {
        let l = pl.line(i);
        let ghost prev = indices_where(i as nat, p);
        if starts_with(l.as_slice(), "_link=") {
            proof {
                reveal_strlit("_link=");
            }
            let rest = rest_from(&l, 6);
            let mut lf = crate::message::records::parse_link_line(&rest);
            let mut claimed = false;
            let mut m: usize = 0;
            while m < out.len()
                invariant
                    m <= out@.len(),
                    claimed <==> exists|q: int| 0 <= q < m && out@[q].id@ == lf.id@,
                decreases out@.len() - m,
            {
                if out[m].id == lf.id {
                    claimed = true;
                }
                m = m + 1;
            }
            if !claimed {
                let idc = chars_of(lf.id.as_str());
                lf.tags = collect_tags(pl, "_linktag\t", idc.as_slice());
            }
            assert(p(i as int));
            let ghost old_out = out@;
            let ghost cur = prev.push(i as int);
            let ghost ids = cur.map_values(|j: int| line_link_id(ls, j));
            let ghost old_ids = prev.map_values(|j: int| line_link_id(ls, j));
            assert(indices_where((i + 1) as nat, p) == cur);
            assert(ls[i as int].skip(6) == rest@);
            out.push(lf);
            assert forall|k: int| #![trigger out@[k]] 0 <= k < out@.len() implies {
                &&& link_fields_ok(out@[k], ls[cur[k]].skip(6))
                &&& out@[k].id@ == ids[k]
                &&& out@[k].target_tags@.len() == 0
                &&& if seen_before(ids, k) {
                    out@[k].tags@.len() == 0
                } else {
                    tags_for_ok(out@[k].tags@, ls, "_linktag\t"@, ids[k])
                }
            } by {
                if k < prev.len() {
                    assert(out@[k] == old_out[k]);
                    assert(cur[k] == prev[k]);
                    assert(ids[k] == old_ids[k]);
                    assert(seen_before(ids, k) == seen_before(old_ids, k)) by {
                        if seen_before(old_ids, k) {
                            let q = choose|q: int| 0 <= q < k && old_ids[q] == old_ids[k];
                            assert(ids[q] == old_ids[q]);
                        }
                        if seen_before(ids, k) {
                            let q = choose|q: int| 0 <= q < k && ids[q] == ids[k];
                            assert(ids[q] == old_ids[q]);
                        }
                    }
                } else {
                    assert(cur[k] == i);
                    assert(ids[k] == line_link_id(ls, i as int));
                    assert(seen_before(ids, k) == claimed) by {
                        if claimed {
                            let q = choose|q: int| 0 <= q < old_out.len() && old_out[q].id@ == out@[k].id@;
                            assert(ids[q] == old_ids[q]);
                        }
                        if seen_before(ids, k) {
                            let q = choose|q: int| 0 <= q < k && ids[q] == ids[k];
                            assert(ids[q] == old_ids[q]);
                            assert(old_out[q].id@ == old_ids[q]);
                        }
                    }
                }
            }
        } else {
            assert(!p(i as int));
            assert(indices_where((i + 1) as nat, p) == prev);
        }
        i = i + 1;
    }
    assert(p =~= (|j: int| has_prefix(pl.lines()[j], "_link="@)));
    out
}

/// The fields of `e` apart from its tags and links equal those of `o`.
pub open spec fn same_event_fields(e: EventFields, o: EventFields) -> bool {
    &&& e.unique_id == o.unique_id
    &&& e.id == o.id
    &&& e.local_id == o.local_id
    &&& e.owner == o.owner
    &&& e.owner_unique_id == o.owner_unique_id
    &&& e.timestamp == o.timestamp
    &&& e.date_time == o.date_time
    &&& e.location == o.location
    &&& e.location_separator == o.location_separator
    &&& e.event_type == o.event_type
    &&& e.payload_data == o.payload_data
    &&& e.status == o.status
    &&& e.hits == o.hits
}

/// The fields of `e` apart from its tags and links are empty.
pub open spec fn blank_event_fields(e: EventFields) -> bool {
    &&& e.unique_id@.len() == 0
    &&& e.id@.len() == 0
    &&& e.local_id@.len() == 0
    &&& e.owner@.len() == 0
    &&& e.owner_unique_id@.len() == 0
    &&& e.timestamp@.len() == 0
    &&& e.date_time.is_blank()
    &&& e.location@.len() == 0
    &&& e.location_separator@.len() == 0
    &&& e.event_type@.len() == 0
    &&& e.payload_data.is_blank()
    &&& e.status@.len() == 0
    &&& e.hits == 0
}

/// The event of a get-event response: the header's event (or an empty one)
/// with the header's `event_tag:` tags and the payload's links.
pub open spec fn get_event_ok(
    e: EventFields,
    old_event: Option<EventFields>,
    fs: Seq<Field>,
    ls: Seq<Seq<char>>,
) -> bool {
    &&& match old_event {
        Some(o) => same_event_fields(e, o),
        None => blank_event_fields(e),
    }
    &&& header_event_tags_ok(e.tags@, fs)
    &&& get_event_links_ok(e.links@, ls)
}

/// Attaches the tags of the header and the links of the payload to the
/// event of a get-event response.
pub fn parse_get_event_response(
    msg: &mut Message,
    pairs: &Vec<(Chars, Chars)>,
    pl: &PayloadLines,
)
    requires
        pl.wf(),
    ensures
        final(msg).event matches Some(e) && get_event_ok(
            e,
            old(msg).event,
            pairs_view(pairs@),
            pl.lines(),
        ),
        final(msg).envelope == old(msg).envelope,
        final(msg).payload == old(msg).payload,
        final(msg).neural_memory == old(msg).neural_memory,
        final(msg).response == old(msg).response,
        final(msg).public_key == old(msg).public_key,
{
    let tags = header_event_tags(pairs);
    let links = get_event_links(pl);
    let mut ev = match msg.event.take() {
        Some(e) => e,
        None => EventFields::default(),
    };
    ev.tags = tags;
    ev.links = links;
    msg.event = Some(ev);
}


// ── Get-events-for-tags responses ────────────────────────────────────────────

/// Whether pair `i` is a `tag:<freq>:<key>` field of an event record.
pub open spec fn inline_tag_field(fs: Seq<Field>, i: int) -> bool {
    &&& last_of_key(fs, i)
    &&& has_prefix(fs[i].0, "tag:"@)
    &&& colon3(fs[i].0) is Some
}

/// The tags of an event record's `tag:` fields, one per key.
pub open spec fn inline_tags_ok(tags: Seq<TagOutput>, fs: Seq<Field>) -> bool {
    let idx = indices_where(fs.len(), |j: int| inline_tag_field(fs, j));
    &&& tags.len() == idx.len()
    &&& forall|k: int|
        0 <= k < idx.len() ==> #[trigger] inline_tag(fs[idx[k]].0, fs[idx[k]].1, tags[k])
}

/// The fields of an event a `_event_id=` record sets (`apply_event_fields`),
/// its links aside.
pub open spec fn tag_hit_event_ok(e: EventFields, fs: Seq<Field>) -> bool {
    &&& e.id@ == value_of(fs, seq!["_event_id"@, "event_id"@])
    &&& e.unique_id@ == value_of(fs, seq!["unique_id"@, "_unique_id"@])
    &&& e.owner@ == value_of(fs, seq!["owner"@])
    &&& e.timestamp@ == value_of(fs, seq!["timestamp"@, "_timestamp"@])
    &&& e.event_type@ == value_of(fs, seq!["_type"@, "type"@])
    &&& e.hits == int_of(fs, seq!["_hits"@])
    &&& e.local_id@.len() == 0
    &&& e.owner_unique_id@.len() == 0
    &&& e.date_time.is_blank()
    &&& e.location@.len() == 0
    &&& e.location_separator@.len() == 0
    &&& e.payload_data.is_blank()
    &&& e.status@.len() == 0
    &&& inline_tags_ok(e.tags@, fs)
}

fn inline_tags(pairs: &Vec<(Chars, Chars)>) -> (r: Vec<TagOutput>)
    ensures
        inline_tags_ok(r@, pairs_view(pairs@)),
{
    let ghost fs = pairs_view(pairs@);
    let ghost p = |j: int| inline_tag_field(fs, j);
    let mut out: Vec<TagOutput> = Vec::new();
    let n = pairs.len();
    let mut i: usize = 0;
    while i < n
        invariant
            i <= n == pairs@.len(),
            fs == pairs_view(pairs@),
            p == (|j: int| inline_tag_field(fs, j)),
            out@.len() == indices_where(i as nat, p).len(),
            forall|k: int|
                0 <= k < out@.len() ==> #[trigger] inline_tag(
                    fs[indices_where(i as nat, p)[k]].0,
                    fs[indices_where(i as nat, p)[k]].1,
                    out@[k],
                ),
        decreases n - i,
    {
        let ghost prev = indices_where(i as nat, p);
        let mut hit: Option<TagOutput> = None;
        assert(fs[i as int] == (pairs@[i as int].0@, pairs@[i as int].1@));
        if is_last_of_key(pairs, i) && starts_with(pairs[i].0.as_slice(), "tag:") {
            hit = crate::message::records::parse_inline_tag(&pairs[i].0, &pairs[i].1);
        }
        match hit {
            Some(t) => {
                assert(p(i as int));
                let ghost old_out = out@;
                out.push(t);
                assert(indices_where((i + 1) as nat, p) == prev.push(i as int));
                assert forall|k: int| 0 <= k < out@.len() implies #[trigger] inline_tag(
                    fs[indices_where((i + 1) as nat, p)[k]].0,
                    fs[indices_where((i + 1) as nat, p)[k]].1,
                    out@[k],
                ) by {
                    if k < prev.len() {
                        assert(indices_where((i + 1) as nat, p)[k] == prev[k]);
                        assert(out@[k] == old_out[k]);
                        assert(inline_tag(fs[prev[k]].0, fs[prev[k]].1, old_out[k]));
                    } else {
                        assert(indices_where((i + 1) as nat, p)[k] == i);
                    }
                }
            },
            None => {
                assert(!p(i as int));
                assert(indices_where((i + 1) as nat, p) == prev);
            },
        }
        i = i + 1;
    }
    assert(p =~= (|j: int| inline_tag_field(pairs_view(pairs@), j)));
    out
}

/// The event of a `_event_id=` record, without links.
fn tag_hit_event(pairs: &Vec<(Chars, Chars)>) -> (e: EventFields)
    ensures
        tag_hit_event_ok(e, pairs_view(pairs@)),
        e.links@.len() == 0,
{
    EventFields {
        unique_id: crate::message::records::text2(pairs, "unique_id", "_unique_id"),
        id: crate::message::records::text2(pairs, "_event_id", "event_id"),
        local_id: String::new(),
        owner: text1(pairs, "owner"),
        owner_unique_id: String::new(),
        timestamp: crate::message::records::text2(pairs, "timestamp", "_timestamp"),
        date_time: DateTimeObject::default(),
        location: String::new(),
        location_separator: String::new(),
        event_type: crate::message::records::text2(pairs, "_type", "type"),
        tags: inline_tags(pairs),
        links: Vec::new(),
        payload_data: crate::message::types::PayloadFields::default(),
        status: String::new(),
        hits: int1(pairs, "_hits"),
    }
}

/// The brief hit of a `_brief_hit=` record: the event id, and the count
/// given as `_total_hits=` after the first tab.
pub open spec fn brief_hit_ok(b: BriefHitRecord, rest: Seq<char>) -> bool {
    match first_index_of(rest, '\t') {
        None => b.event_id@ == rest && b.total_hits == 0,
        Some(t) => {
            let after = rest.skip(t + 1);
            &&& b.event_id@ == rest.take(t)
            &&& b.total_hits == if has_prefix(after, "_total_hits="@) {
                parse_i32_or_zero(after.skip(12))
            } else {
                0
            }
        },
    }
}

pub open spec fn brief_hits_ok(bs: Seq<BriefHitRecord>, ls: Seq<Seq<char>>) -> bool {
    let idx = indices_where(ls.len(), |j: int| has_prefix(ls[j], "_brief_hit="@));
    &&& bs.len() == idx.len()
    &&& forall|k: int| 0 <= k < idx.len() ==> #[trigger] brief_hit_ok(bs[k], ls[idx[k]].skip(11))
}

fn brief_hit_of(rest: &Vec<char>) -> (b: BriefHitRecord)
    ensures
        brief_hit_ok(b, rest@),
{
    let _n = rest.len();
    match find_char(rest.as_slice(), '\t') {
        None => BriefHitRecord { event_id: string_from_chars(rest.as_slice()), total_hits: 0 },
        Some(t) => {
            let head = slice_to_vec_chars(rest.as_slice(), 0, t);
            assert(head@ =~= rest@.take(t as int));
            let after = rest_from(rest, t + 1);
            let total = if starts_with(after.as_slice(), "_total_hits=") {
                proof {
                    reveal_strlit("_total_hits=");
                }
                let num = rest_from(&after, 12);
                crate::message::records::int_or_zero(num.as_slice())
            } else {
                0
            };
            BriefHitRecord { event_id: string_from_chars(head.as_slice()), total_hits: total }
        },
    }
}

fn brief_hits(pl: &PayloadLines) -> (r: Vec<BriefHitRecord>)
    requires
        pl.wf(),
    ensures
        brief_hits_ok(r@, pl.lines()),
{
    let ghost ls = pl.lines();
    let ghost p = |j: int| has_prefix(ls[j], "_brief_hit="@);
    let mut out: Vec<BriefHitRecord> = Vec::new();
    let n = pl.count();
    let mut i: usize = 0;
    while i < n
        invariant
            i <= n,
            pl.wf(),
            ls == pl.lines(),
            n == ls.len(),
            p == (|j: int| has_prefix(ls[j], "_brief_hit="@)),
            out@.len() == indices_where(i as nat, p).len(),
            forall|k: int|
                0 <= k < out@.len() ==> #[trigger] brief_hit_ok(
                    out@[k],
                    ls[indices_where(i as nat, p)[k]].skip(11),
                ),
        decreases n - i,
    {
        let l = pl.line(i);
        let ghost prev = indices_where(i as nat, p);
        if starts_with(l.as_slice(), "_brief_hit=") {
            proof {
                reveal_strlit("_brief_hit=");
            }
            let rest = rest_from(&l, 11);
            let b = brief_hit_of(&rest);
            assert(p(i as int));
            let ghost old_out = out@;
            out.push(b);
            assert(indices_where((i + 1) as nat, p) == prev.push(i as int));
            assert forall|k: int| 0 <= k < out@.len() implies #[trigger] brief_hit_ok(
                out@[k],
                ls[indices_where((i + 1) as nat, p)[k]].skip(11),
            ) by {
                if k < prev.len() {
                    assert(indices_where((i + 1) as nat, p)[k] == prev[k]);
                    assert(out@[k] == old_out[k]);
                    assert(brief_hit_ok(old_out[k], ls[prev[k]].skip(11)));
                } else {
                    assert(indices_where((i + 1) as nat, p)[k] == i);
                }
            }
        } else {
            assert(!p(i as int));
            assert(indices_where((i + 1) as nat, p) == prev);
        }
        i = i + 1;
    }
    assert(p =~= (|j: int| has_prefix(pl.lines()[j], "_brief_hit="@)));
    out
}


/// The `_event_id=` lines.
pub open spec fn event_line_indices(ls: Seq<Seq<char>>) -> Seq<int> {
    indices_where(ls.len(), |j: int| has_prefix(ls[j], "_event_id="@))
}

/// The event id of a `_event_id=` line.
pub open spec fn line_event_id(ls: Seq<Seq<char>>, j: int) -> Seq<char> {
    value_of(tab_pairs(ls[j]), seq!["_event_id"@, "event_id"@])
}

/// The event ids of the `_event_id=` lines, in order.
pub open spec fn event_ids(ls: Seq<Seq<char>>) -> Seq<Seq<char>> {
    event_line_indices(ls).map_values(|j: int| line_event_id(ls, j))
}

/// The `event_id_a` / `event_id_b` of a `_link=` line.
pub open spec fn line_event_a(ls: Seq<Seq<char>>, j: int) -> Seq<char> {
    value_of(tab_pairs(ls[j].skip(6)), seq!["event_id_a"@])
}

pub open spec fn line_event_b(ls: Seq<Seq<char>>, j: int) -> Seq<char> {
    value_of(tab_pairs(ls[j].skip(6)), seq!["event_id_b"@])
}

/// Whether line `j` is a `_link=` line from event `id`.
pub open spec fn link_from(ls: Seq<Seq<char>>, id: Seq<char>, j: int) -> bool {
    has_prefix(ls[j], "_link="@) && line_event_a(ls, j) == id
}

/// The links event `k` takes: those from its id, unless an earlier event
/// has that id.
pub open spec fn owned_links(ls: Seq<Seq<char>>, k: int) -> Seq<int> {
    if seen_before(event_ids(ls), k) {
        Seq::empty()
    } else {
        indices_where(ls.len(), |j: int| link_from(ls, event_ids(ls)[k], j))
    }
}

/// The links taken by the first `k` events, in the order they are taken.
pub open spec fn attached(ls: Seq<Seq<char>>, k: nat) -> Seq<int>
    decreases k,
{
    if k == 0 {
        Seq::empty()
    } else {
        attached(ls, (k - 1) as nat) + owned_links(ls, k - 1)
    }
}

/// The link taken last in `pre`: its fields, and the `_linktag=` and
/// `_targettag=` tags for its id and target unless a link taken before has
/// the same id (target).
pub open spec fn attached_link_ok(l: LinkFields, ls: Seq<Seq<char>>, pre: Seq<int>) -> bool {
    let g = pre.len() - 1;
    let ids = pre.map_values(|q: int| line_link_id(ls, q));
    let bs = pre.map_values(|q: int| line_event_b(ls, q));
    &&& pre.len() > 0
    &&& link_fields_ok(l, ls[pre[g]].skip(6))
    &&& if seen_before(ids, g) {
        l.tags@.len() == 0
    } else {
        tags_for_ok(l.tags@, ls, "_linktag="@, ids[g])
    }
    &&& if seen_before(bs, g) {
        l.target_tags@.len() == 0
    } else {
        tags_for_ok(l.target_tags@, ls, "_targettag="@, bs[g])
    }
}

/// The events of a get-events-for-tags response with their links.
pub open spec fn tag_hit_events_ok(events: Seq<EventFields>, ls: Seq<Seq<char>>) -> bool {
    let idx = event_line_indices(ls);
    &&& events.len() == idx.len()
    &&& forall|k: int|
        #![trigger events[k]]
        0 <= k < idx.len() ==> {
            &&& tag_hit_event_ok(events[k], tab_pairs(ls[idx[k]]))
            &&& events[k].links@.len() == owned_links(ls, k).len()
            &&& forall|m: int|
                #![trigger events[k].links@[m]]
                0 <= m < owned_links(ls, k).len() ==> attached_link_ok(
                    events[k].links@[m],
                    ls,
                    attached(ls, (k + 1) as nat).take(attached(ls, k as nat).len() + m + 1),
                )
        }
}

/// Whether some entry of `v` holds the characters of `s`.
fn contains_string(v: &Vec<String>, s: &String) -> (r: bool)
    ensures
        r <==> exists|q: int| 0 <= q < v@.len() && v@[q]@ == s@,
{
    let mut q: usize = 0;
    while q < v.len()
        invariant
            q <= v@.len(),
            forall|m: int| 0 <= m < q ==> v@[m]@ != s@,
        decreases v@.len() - q,
    {
        if v[q] == *s {
            return true;
        }
        q = q + 1;
    }
    false
}

/// The positions of the `_event_id=` lines.
fn event_lines(pl: &PayloadLines) -> (r: Vec<usize>)
    requires
        pl.wf(),
    ensures
        r@.len() == event_line_indices(pl.lines()).len(),
        forall|k: int| 0 <= k < r@.len() ==> r@[k] == event_line_indices(pl.lines())[k],
{
    let ghost ls = pl.lines();
    let ghost p = |j: int| has_prefix(ls[j], "_event_id="@);
    let mut out: Vec<usize> = Vec::new();
    let n = pl.count();
    let mut i: usize = 0;
    while i < n
        invariant
            i <= n,
            pl.wf(),
            ls == pl.lines(),
            n == ls.len(),
            p == (|j: int| has_prefix(ls[j], "_event_id="@)),
            out@.len() == indices_where(i as nat, p).len(),
            forall|k: int| 0 <= k < out@.len() ==> out@[k] == indices_where(i as nat, p)[k],
        decreases n - i,
    {
        let l = pl.line(i);
        let ghost prev = indices_where(i as nat, p);
        if starts_with(l.as_slice(), "_event_id=") {
            assert(p(i as int));
            out.push(i);
            assert(indices_where((i + 1) as nat, p) == prev.push(i as int));
        } else {
            assert(!p(i as int));
            assert(indices_where((i + 1) as nat, p) == prev);
        }
        i = i + 1;
    }
    assert(p =~= (|j: int| has_prefix(pl.lines()[j], "_event_id="@)));
    out
}


/// The conditions `tag_hit_events_ok` puts on event `k`.
pub open spec fn tag_hit_event_entry_ok(e: EventFields, ls: Seq<Seq<char>>, k: int) -> bool {
    &&& tag_hit_event_ok(e, tab_pairs(ls[event_line_indices(ls)[k]]))
    &&& e.links@.len() == owned_links(ls, k).len()
    &&& forall|m: int|
        #![trigger e.links@[m]]
        0 <= m < owned_links(ls, k).len() ==> attached_link_ok(
            e.links@[m],
            ls,
            attached(ls, (k + 1) as nat).take(attached(ls, k as nat).len() + m + 1),
        )
}

/// Takes link line `j` for the current event: its tags unless a link taken
/// before has its id, its target tags unless one has its target.
fn take_link(
    pl: &PayloadLines,
    lf: LinkFields,
    att_ids: &mut Vec<String>,
    att_bs: &mut Vec<String>,
    att: Ghost<Seq<int>>,
    j: Ghost<int>,
) -> (r: LinkFields)
    requires
        pl.wf(),
        0 <= j@ < pl.lines().len(),
        has_prefix(pl.lines()[j@], "_link="@),
        crate::message::records::link_line_ok(lf, pl.lines()[j@].skip(6)),
        old(att_ids)@.len() == att@.len(),
        old(att_bs)@.len() == att@.len(),
        forall|g: int|
            0 <= g < att@.len() ==> #[trigger] old(att_ids)@[g]@ == line_link_id(pl.lines(), att@[g]),
        forall|g: int|
            0 <= g < att@.len() ==> #[trigger] old(att_bs)@[g]@ == line_event_b(pl.lines(), att@[g]),
    ensures
        attached_link_ok(r, pl.lines(), att@.push(j@)),
        final(att_ids)@.len() == att@.len() + 1,
        final(att_bs)@.len() == att@.len() + 1,
        forall|g: int|
            0 <= g < att@.len() + 1 ==> #[trigger] final(att_ids)@[g]@ == line_link_id(
                pl.lines(),
                att@.push(j@)[g],
            ),
        forall|g: int|
            0 <= g < att@.len() + 1 ==> #[trigger] final(att_bs)@[g]@ == line_event_b(
                pl.lines(),
                att@.push(j@)[g],
            ),
{
    let ghost ls = pl.lines();
    let ghost pre = att@.push(j@);
    let ghost g = att@.len() as int;
    let ghost ids = pre.map_values(|q: int| line_link_id(ls, q));
    let ghost bs = pre.map_values(|q: int| line_event_b(ls, q));
    let mut lf = lf;
    let claimed = contains_string(att_ids, &lf.id);
    assert(claimed == seen_before(ids, g)) by {
        if claimed {
            let q = choose|q: int| 0 <= q < att_ids@.len() && att_ids@[q]@ == lf.id@;
            assert(ids[q] == line_link_id(ls, att@[q]));
        }
        if seen_before(ids, g) {
            let q = choose|q: int| 0 <= q < g && ids[q] == ids[g];
            assert(ids[q] == line_link_id(ls, att@[q]));
            assert(att_ids@[q]@ == ids[q]);
        }
    }
    if !claimed {
        let idc = chars_of(lf.id.as_str());
        lf.tags = collect_tags(pl, "_linktag=", idc.as_slice());
    }
    let claimed_b = contains_string(att_bs, &lf.event_b);
    assert(claimed_b == seen_before(bs, g)) by {
        if claimed_b {
            let q = choose|q: int| 0 <= q < att_bs@.len() && att_bs@[q]@ == lf.event_b@;
            assert(bs[q] == line_event_b(ls, att@[q]));
        }
        if seen_before(bs, g) {
            let q = choose|q: int| 0 <= q < g && bs[q] == bs[g];
            assert(bs[q] == line_event_b(ls, att@[q]));
            assert(att_bs@[q]@ == bs[q]);
        }
    }
    if !claimed_b {
        let idb = chars_of(lf.event_b.as_str());
        lf.target_tags = collect_tags(pl, "_targettag=", idb.as_slice());
    }
    att_ids.push(lf.id.clone());
    att_bs.push(lf.event_b.clone());
    assert(pre[g] == j@);
    lf
}

/// The events of a get-events-for-tags response, each with the links it
/// takes.
fn tag_hit_events(pl: &PayloadLines) -> (r: Vec<EventFields>)
    requires
        pl.wf(),
    ensures
        tag_hit_events_ok(r@, pl.lines()),
{
    let ghost ls = pl.lines();
    let evl = event_lines(pl);
    let ghost idx = event_line_indices(ls);
    let ghost ids = event_ids(ls);
    let mut out: Vec<EventFields> = Vec::new();
    let mut att_ids: Vec<String> = Vec::new();
    let mut att_bs: Vec<String> = Vec::new();
    let ghost mut att: Seq<int> = Seq::empty();
    let ne = evl.len();
    let n = pl.count();
    let mut k: usize = 0;
    proof {
        lemma_indices_where(ls.len(), |j: int| has_prefix(ls[j], "_event_id="@));
    }
    while k < ne
        invariant
            k <= ne == idx.len(),
            pl.wf(),
            ls == pl.lines(),
            n == ls.len(),
            idx == event_line_indices(ls),
            ids == event_ids(ls),
            forall|q: int| 0 <= q < idx.len() ==> 0 <= #[trigger] idx[q] < ls.len() && has_prefix(ls[idx[q]], "_event_id="@),
            evl@.len() == idx.len(),
            forall|q: int| 0 <= q < evl@.len() ==> evl@[q] == idx[q],
            out@.len() == k,
            att == attached(ls, k as nat),
            att_ids@.len() == att.len(),
            att_bs@.len() == att.len(),
            forall|g: int| 0 <= g < att.len() ==> #[trigger] att_ids@[g]@ == line_link_id(ls, att[g]),
            forall|g: int| 0 <= g < att.len() ==> #[trigger] att_bs@[g]@ == line_event_b(ls, att[g]),
            forall|q: int| #![trigger out@[q]] 0 <= q < k ==> tag_hit_event_entry_ok(out@[q], ls, q),
        decreases ne - k,
    {
        assert(0 <= idx[k as int] < ls.len());
        let l = pl.line(evl[k]);
        let pairs = parse_tab_pairs(&l);
        let mut e = tag_hit_event(&pairs);
        assert(e.id@ == ids[k as int]);
        let mut seen = false;
        let mut q: usize = 0;
        while q < k
            invariant
                q <= k == out@.len(),
                k < ids.len(),
                ids == event_ids(ls),
                idx == event_line_indices(ls),
                e.id@ == ids[k as int],
                forall|m: int| #![trigger out@[m]] 0 <= m < k ==> tag_hit_event_entry_ok(out@[m], ls, m),
                seen <==> exists|m: int| 0 <= m < q && ids[m] == ids[k as int],
            decreases k - q,
        {
            assert(tag_hit_event_entry_ok(out@[q as int], ls, q as int));
            assert(out@[q as int].id@ == ids[q as int]);
            if out[q].id == e.id {
                seen = true;
            }
            q = q + 1;
        }
        let mut links: Vec<LinkFields> = Vec::new();
        let ghost base = att;
        let ghost pk = |j: int| link_from(ls, ids[k as int], j);
        if !seen {
            let mut j: usize = 0;
            while j < n
                invariant
                    j <= n == ls.len(),
                    pl.wf(),
                    ls == pl.lines(),
                    k < ids.len(),
                    e.id@ == ids[k as int],
                    pk == (|j: int| link_from(ls, ids[k as int], j)),
                    att == base + indices_where(j as nat, pk),
                    links@.len() == indices_where(j as nat, pk).len(),
                    att_ids@.len() == att.len(),
                    att_bs@.len() == att.len(),
                    forall|g: int|
                        0 <= g < att.len() ==> #[trigger] att_ids@[g]@ == line_link_id(ls, att[g]),
                    forall|g: int|
                        0 <= g < att.len() ==> #[trigger] att_bs@[g]@ == line_event_b(ls, att[g]),
                    forall|m: int|
                        #![trigger links@[m]]
                        0 <= m < links@.len() ==> attached_link_ok(
                            links@[m],
                            ls,
                            att.take(base.len() + m + 1),
                        ),
                decreases n - j,
            {
                let l2 = pl.line(j);
                let ghost prev = indices_where(j as nat, pk);
                let mut hit: Option<LinkFields> = None;
                if starts_with(l2.as_slice(), "_link=") {
                    proof {
                        reveal_strlit("_link=");
                    }
                    let rest = rest_from(&l2, 6);
                    let lf = crate::message::records::parse_link_line(&rest);
                    if lf.event_a == e.id {
                        hit = Some(lf);
                    }
                }
                match hit {
                    Some(lf) => {
                        assert(pk(j as int));
                        let ghost old_att = att;
                        let ghost old_links = links@;
                        let lf2 = take_link(pl, lf, &mut att_ids, &mut att_bs, Ghost(att), Ghost(j as int));
                        proof {
                            att = att.push(j as int);
                        }
                        links.push(lf2);
                        assert(indices_where((j + 1) as nat, pk) == prev.push(j as int));
                        assert(att == base + indices_where((j + 1) as nat, pk));
                        assert forall|m: int|
                            #![trigger links@[m]]
                            0 <= m < links@.len() implies attached_link_ok(
                            links@[m],
                            ls,
                            att.take(base.len() + m + 1),
                        ) by {
                            if m < old_links.len() {
                                assert(links@[m] == old_links[m]);
                                assert(att.take(base.len() + m + 1) =~= old_att.take(base.len() + m + 1));
                            } else {
                                assert(att.take(base.len() + m + 1) =~= att);
                            }
                        }
                    },
                    None => {
                        assert(!pk(j as int));
                        assert(indices_where((j + 1) as nat, pk) == prev);
                    },
                }
                j = j + 1;
            }
        }
        proof {
            assert(seen == seen_before(ids, k as int));
            if seen {
                assert(owned_links(ls, k as int) =~= Seq::<int>::empty());
                assert(att =~= base);
            } else {
                assert(pk =~= (|j: int| link_from(ls, event_ids(ls)[k as int], j)));
                assert(owned_links(ls, k as int) == indices_where(n as nat, pk));
            }
            assert(attached(ls, (k + 1) as nat) == attached(ls, k as nat) + owned_links(ls, k as int));
            assert(att =~= attached(ls, (k + 1) as nat));
        }
        e.links = links;
        let ghost old_out = out@;
        out.push(e);
        proof {
            assert forall|q: int| #![trigger out@[q]] 0 <= q < k + 1 implies tag_hit_event_entry_ok(out@[q], ls, q) by {
                if q < k {
                    assert(out@[q] == old_out[q]);
                } else {
                    assert(out@[q] == e);
                    assert(tab_pairs(ls[event_line_indices(ls)[q]]) == pairs_view(pairs@));
                }
            }
        }
        k = k + 1;
    }
    proof {
        assert forall|q: int| #![trigger out@[q]] 0 <= q < out@.len() implies {
            &&& tag_hit_event_ok(out@[q], tab_pairs(ls[idx[q]]))
            &&& out@[q].links@.len() == owned_links(ls, q).len()
            &&& forall|m: int|
                #![trigger out@[q].links@[m]]
                0 <= m < owned_links(ls, q).len() ==> attached_link_ok(
                    out@[q].links@[m],
                    ls,
                    attached(ls, (q + 1) as nat).take(attached(ls, q as nat).len() + m + 1),
                )
        } by {
            assert(tag_hit_event_entry_ok(out@[q], ls, q));
        }
    }
    out
}


// ── Responses ────────────────────────────────────────────────────────────────

/// The single-valued fields of `r` are those of `old` (empty when there was
/// none).
pub open spec fn kept_scalars(r: ResponseFields, old: Option<ResponseFields>) -> bool {
    match old {
        Some(o) => same_response_scalars(r, o),
        None => blank_response_scalars(r),
    }
}

/// The events and brief hits of `r` are those of `old` (none when there was
/// none).
pub open spec fn kept_hits(r: ResponseFields, old: Option<ResponseFields>) -> bool {
    match old {
        Some(o) => r.event_records == o.event_records && r.brief_hits == o.brief_hits,
        None => r.event_records@.len() == 0 && r.brief_hits@.len() == 0,
    }
}

pub open spec fn kept_batch_events(r: ResponseFields, old: Option<ResponseFields>) -> bool {
    match old {
        Some(o) => r.store_batch_event_record == o.store_batch_event_record,
        None => r.store_batch_event_record.is_blank(),
    }
}

pub open spec fn kept_batch_links(r: ResponseFields, old: Option<ResponseFields>) -> bool {
    match old {
        Some(o) => r.store_link_batch_event_record == o.store_link_batch_event_record,
        None => r.store_link_batch_event_record.is_blank(),
    }
}

/// The response of `msg`, or an empty one.
fn take_response(msg: &mut Message) -> (r: ResponseFields)
    ensures
        kept_scalars(r, old(msg).response),
        kept_hits(r, old(msg).response),
        kept_batch_events(r, old(msg).response),
        kept_batch_links(r, old(msg).response),
        final(msg).envelope == old(msg).envelope,
        final(msg).event == old(msg).event,
        final(msg).payload == old(msg).payload,
        final(msg).neural_memory == old(msg).neural_memory,
        final(msg).public_key == old(msg).public_key,
{
    match msg.response.take() {
        Some(r) => r,
        None => ResponseFields::default(),
    }
}

/// Sets the events and brief hits of a get-events-for-tags response.
pub fn parse_get_events_for_tags_payload(msg: &mut Message, pl: &PayloadLines)
    requires
        pl.wf(),
    ensures
        final(msg).response matches Some(r) && kept_scalars(r, old(msg).response)
            && kept_batch_events(r, old(msg).response) && kept_batch_links(r, old(msg).response)
            && tag_hit_events_ok(r.event_records@, pl.lines()) && brief_hits_ok(
            r.brief_hits@,
            pl.lines(),
        ),
        final(msg).envelope == old(msg).envelope,
        final(msg).event == old(msg).event,
        final(msg).payload == old(msg).payload,
        final(msg).neural_memory == old(msg).neural_memory,
        final(msg).public_key == old(msg).public_key,
{
    let events = tag_hit_events(pl);
    let hits = brief_hits(pl);
    let mut resp = take_response(msg);
    resp.event_records = events;
    resp.brief_hits = hits;
    msg.response = Some(resp);
}

/// Sets the record of a batch event response.
pub fn apply_batch_events_payload(msg: &mut Message, pl: &PayloadLines)
    requires
        pl.wf(),
    ensures
        final(msg).response matches Some(r) && kept_scalars(r, old(msg).response) && kept_hits(
            r,
            old(msg).response,
        ) && kept_batch_links(r, old(msg).response) && batch_event_record_ok(
            r.store_batch_event_record,
            pl.lines(),
        ),
        final(msg).envelope == old(msg).envelope,
        final(msg).event == old(msg).event,
        final(msg).payload == old(msg).payload,
        final(msg).neural_memory == old(msg).neural_memory,
        final(msg).public_key == old(msg).public_key,
{
    let record = parse_store_batch_events_payload(pl);
    let mut resp = take_response(msg);
    resp.store_batch_event_record = record;
    msg.response = Some(resp);
}

/// Sets the record of a batch link response.
pub fn apply_batch_links_payload(msg: &mut Message, pl: &PayloadLines)
    requires
        pl.wf(),
    ensures
        final(msg).response matches Some(r) && kept_scalars(r, old(msg).response) && kept_hits(
            r,
            old(msg).response,
        ) && kept_batch_events(r, old(msg).response) && batch_link_record_ok(
            r.store_link_batch_event_record,
            pl.lines(),
        ),
        final(msg).envelope == old(msg).envelope,
        final(msg).event == old(msg).event,
        final(msg).payload == old(msg).payload,
        final(msg).neural_memory == old(msg).neural_memory,
        final(msg).public_key == old(msg).public_key,
{
    let record = parse_link_event_batch_payload(pl);
    let mut resp = take_response(msg);
    resp.store_link_batch_event_record = record;
    msg.response = Some(resp);
}

} // verus!
