//! Normalisation of provider messages and merging of streamed tool-call fragments.
use vstd::prelude::*;
use std::collections::BTreeMap;
use vstd::std_specs::btree::increasing_seq;
use vstd::std_specs::iter::IteratorSpec;
use crate::types::{clone_opt_string, tool_calls_view, FunctionCallView, LlmMessage, ToolCall, ToolCallView};

verus! {

/// The slot a streamed fragment belongs to: its index, or 0 when it has none.
pub open spec fn chunk_key(t: ToolCallView) -> usize {
    match t.index {
        Some(i) => i,
        None => 0,
    }
}

/// What a merged call becomes when one more fragment for its slot arrives: the
/// fragment's arguments are appended, and its id and name replace the old ones
/// when present.
pub open spec fn absorb(existing: ToolCallView, chunk: ToolCallView) -> ToolCallView {
    ToolCallView {
        id: if chunk.id is Some { chunk.id } else { existing.id },
        index: existing.index,
        function: FunctionCallView {
            name: if chunk.function.name is Some { chunk.function.name } else { existing.function.name },
            arguments: match chunk.function.arguments {
                Some(a) => Some(
                    match existing.function.arguments {
                        Some(x) => x,
                        None => Seq::<char>::empty(),
                    } + a,
                ),
                None => existing.function.arguments,
            },
        },
        call_type: existing.call_type,
    }
}

/// The merged call of each slot after the fragments `s`, in order: the first
/// fragment of a slot starts it, later ones are absorbed into it.
pub open spec fn merged_calls(s: Seq<ToolCallView>) -> Map<usize, ToolCallView>
    decreases s.len(),
{
    if s.len() == 0 {
        Map::empty()
    } else {
        let m = merged_calls(s.drop_last());
        let c = s.last();
        let k = chunk_key(c);
        if m.contains_key(k) {
            m.insert(k, absorb(m[k], c))
        } else {
            m.insert(k, c)
        }
    }
}

/// `out` lists the merged calls of `m`, one per slot, by increasing slot.
pub open spec fn lists_by_slot(out: Seq<ToolCallView>, m: Map<usize, ToolCallView>) -> bool {
    &&& forall|i: int, j: int|
        0 <= i < j < out.len() ==> chunk_key(#[trigger] out[i]) < chunk_key(#[trigger] out[j])
    &&& forall|i: int|
        0 <= i < out.len() ==> m.contains_key(chunk_key(#[trigger] out[i])) && m[chunk_key(
            out[i],
        )] == out[i]
    &&& forall|k: usize| #[trigger]
        m.contains_key(k) ==> exists|i: int| 0 <= i < out.len() && chunk_key(out[i]) == k
}

/// Handles formatting and parsing of API messages.
#[derive(Debug, Default)]
pub struct ApiToolFormatHandler;

/// The directive that lets the model decide whether to call tools.
pub open spec fn auto_choice() -> Seq<char> {
    seq!['a', 'u', 't', 'o']
}

impl ApiToolFormatHandler {
    /// Create a new format handler.
    pub fn new() -> (h: Self) {
        ApiToolFormatHandler
    }

    /// Process an API response message into the internal format; messages
    /// already arrive in that format, so it is handed back unchanged.
    pub fn process_api_response_message(&self, message: LlmMessage) -> (r: LlmMessage)
        ensures
            r == message,
    {
        message
    }

    /// Get the default tool choice directive.
    pub fn get_tool_choice(&self) -> (r: Option<&'static str>)
        ensures
            r is Some,
            r.unwrap()@ == auto_choice(),
    {
        proof {
            reveal_strlit("auto");
        }
        Some("auto")
    }

    /// Merge streaming tool call chunks into complete tool calls, one per
    /// index, ordered by index.
    pub fn merge_tool_call_chunks(&self, chunks: &[ToolCall]) -> (merged: Vec<ToolCall>)
        ensures
            lists_by_slot(tool_calls_view(merged@), merged_calls(tool_calls_view(chunks@))),
    {
        let ghost cv = tool_calls_view(chunks@);
        let mut by_slot: BTreeMap<usize, ToolCall> = BTreeMap::new();
        for n in 0..chunks.len()
            invariant
                cv == tool_calls_view(chunks@),
                slots_hold(by_slot@, merged_calls(cv.take(n as int))),
        {
            let chunk = &chunks[n];
            let key: usize = match chunk.index {
                Some(i) => i,
                None => 0,
            };
            assert(cv.take(n + 1).drop_last() == cv.take(n as int));
            assert(cv.take(n + 1).last() == chunk@);
            let updated = match by_slot.get(&key) {
                Some(existing) => absorb_chunk(existing, chunk),
                None => chunk.duplicate(),
            };
            by_slot.insert(key, updated);
            assert(by_slot@.dom() =~= merged_calls(cv.take(n + 1)).dom());
        }
        assert(cv.take(chunks.len() as int) == cv);
        let ghost m = merged_calls(cv);
        proof {
            assert forall|k: usize| #[trigger] m.contains_key(k) implies chunk_key(m[k]) == k by {
                law_merged_call_gathers_its_slot(cv, k);
            }
        }
        let values = by_slot.values();
        let ghost key_seq = choose|key_seq: Seq<usize>|
            {
                &&& increasing_seq(key_seq)
                &&& key_seq.to_set() == by_slot@.dom()
                &&& key_seq.no_duplicates()
                &&& IteratorSpec::remaining(&values) == key_seq.map(|i: int, k: usize| &by_slot@[k])
            };
        let mut merged: Vec<ToolCall> = Vec::new();
        for call in it: values
            invariant
                slots_hold(by_slot@, m),
                forall|k: usize| #[trigger] m.contains_key(k) ==> chunk_key(m[k]) == k,
                increasing_seq(key_seq),
                key_seq.to_set() == by_slot@.dom(),
                it.seq() == key_seq.map(|i: int, k: usize| &by_slot@[k]),
                merged@.len() == it.index(),
                forall|i: int| 0 <= i < it.index() ==> #[trigger] merged@[i]@ == m[key_seq[i]],
        {
            let ghost k = merged@.len() as int;
            proof {
                assert(key_seq.to_set().contains(key_seq[k]));
                assert(*call == by_slot@[key_seq[k]]);
            }
            merged.push(call.duplicate());
        }
        proof {
            lemma_increasing_keys(key_seq);
            let out = tool_calls_view(merged@);
            assert(out.len() == key_seq.len());
            assert forall|i: int| 0 <= i < out.len() implies #[trigger] chunk_key(out[i]) == key_seq[i] by {
                assert(key_seq.to_set().contains(key_seq[i]));
            }
            assert forall|i: int, j: int| 0 <= i < j < out.len() implies chunk_key(#[trigger] out[i]) < chunk_key(
                #[trigger] out[j],
            ) by {
                assert(chunk_key(out[i]) == key_seq[i]);
                assert(chunk_key(out[j]) == key_seq[j]);
            }
            assert forall|k: usize| #[trigger] m.contains_key(k) implies exists|i: int|
                0 <= i < out.len() && chunk_key(out[i]) == k by {
                assert(key_seq.to_set().contains(k));
                let i = choose|i: int| 0 <= i < key_seq.len() && key_seq[i] == k;
                assert(chunk_key(out[i]) == key_seq[i]);
            }
        }
        merged
    }
}

/// Keys listed in increasing order strictly increase.
proof fn lemma_increasing_keys(s: Seq<usize>)
    requires
        increasing_seq(s),
    ensures
        forall|i: int, j: int| 0 <= i < j < s.len() ==> s[i] < s[j],
{
    assert(vstd::laws_cmp::obeys_cmp::<usize>());
    assert forall|i: int, j: int| 0 <= i < j < s.len() implies s[i] < s[j] by {
        assert(vstd::std_specs::cmp::OrdSpec::cmp_spec(&s[i], &s[j]) is Less);
    }
}

/// The calls held by slot match the merged calls, slot for slot.
pub open spec fn slots_hold(held: Map<usize, ToolCall>, m: Map<usize, ToolCallView>) -> bool {
    &&& held.dom() == m.dom()
    &&& forall|k: usize| #[trigger] held.contains_key(k) ==> held[k]@ == m[k]
}

/// `existing` with the fragment `chunk` absorbed into it.
fn absorb_chunk(existing: &ToolCall, chunk: &ToolCall) -> (r: ToolCall)
    ensures
        r@ == absorb(existing@, chunk@),
{
    let mut updated = existing.duplicate();
    if let Some(new_args) = &chunk.function.arguments {
        let mut current = match &updated.function.arguments {
            Some(a) => a.clone(),
            None => String::new(),
        };
        current.append(new_args.as_str());
        updated.function.arguments = Some(current);
    }
    if chunk.id.is_some() {
        updated.id = clone_opt_string(&chunk.id);
    }
    if chunk.function.name.is_some() {
        updated.function.name = clone_opt_string(&chunk.function.name);
    }
    updated
}

// ---------------------------------------------------------------- laws

/// The argument fragments of slot `k` among `s`, joined in order; none when
/// no fragment of the slot carried arguments.
pub open spec fn slot_arguments(s: Seq<ToolCallView>, k: usize) -> Option<Seq<char>>
    decreases s.len(),
{
    if s.len() == 0 {
        None
    } else {
        let prev = slot_arguments(s.drop_last(), k);
        let c = s.last();
        if chunk_key(c) == k && c.function.arguments is Some {
            Some(
                match prev {
                    Some(p) => p,
                    None => Seq::<char>::empty(),
                } + c.function.arguments->0,
            )
        } else {
            prev
        }
    }
}

/// The last id that a fragment of slot `k` among `s` carried.
pub open spec fn slot_last_id(s: Seq<ToolCallView>, k: usize) -> Option<Seq<char>>
    decreases s.len(),
{
    if s.len() == 0 {
        None
    } else {
        let c = s.last();
        if chunk_key(c) == k && c.id is Some {
            c.id
        } else {
            slot_last_id(s.drop_last(), k)
        }
    }
}

proof fn lemma_absent_slot(s: Seq<ToolCallView>, k: usize)
    requires
        !merged_calls(s).contains_key(k),
    ensures
        slot_arguments(s, k) is None,
        slot_last_id(s, k) is None,
    decreases s.len(),
{
    if s.len() > 0 {
        let m = merged_calls(s.drop_last());
        if m.contains_key(k) {
            assert(merged_calls(s).contains_key(k));
        }
        lemma_absent_slot(s.drop_last(), k);
    }
}

/// The merged call of a slot carries the argument fragments of that slot
/// joined in the order they arrived, and the last id given for the slot.
pub proof fn law_merged_call_gathers_its_slot(s: Seq<ToolCallView>, k: usize)
    requires
        merged_calls(s).contains_key(k),
    ensures
        merged_calls(s)[k].function.arguments == slot_arguments(s, k),
        merged_calls(s)[k].id == slot_last_id(s, k),
        chunk_key(merged_calls(s)[k]) == k,
    decreases s.len(),
{
    let prefix = s.drop_last();
    let c = s.last();
    let m = merged_calls(prefix);
    if chunk_key(c) == k {
        if m.contains_key(k) {
            law_merged_call_gathers_its_slot(prefix, k);
        } else {
            lemma_absent_slot(prefix, k);
            if c.function.arguments is Some {
                assert(Seq::<char>::empty() + c.function.arguments->0 =~= c.function.arguments->0);
            }
        }
    } else {
        law_merged_call_gathers_its_slot(prefix, k);
    }
}

/// The merged calls of a list whose slots strictly increase: each slot holds
/// its own call.
proof fn lemma_merge_of_sorted(t: Seq<ToolCallView>)
    requires
        forall|i: int, j: int| 0 <= i < j < t.len() ==> chunk_key(#[trigger] t[i]) < chunk_key(#[trigger] t[j]),
    ensures
        forall|i: int| 0 <= i < t.len() ==> merged_calls(t).contains_key(chunk_key(#[trigger] t[i]))
            && merged_calls(t)[chunk_key(t[i])] == t[i],
        forall|k: usize| #[trigger] merged_calls(t).contains_key(k) ==> exists|i: int|
            0 <= i < t.len() && chunk_key(t[i]) == k,
    decreases t.len(),
{
    if t.len() > 0 {
        let p = t.drop_last();
        lemma_merge_of_sorted(p);
        let c = t.last();
        let m = merged_calls(p);
        assert(!m.contains_key(chunk_key(c))) by {
            if m.contains_key(chunk_key(c)) {
                let i = choose|i: int| 0 <= i < p.len() && chunk_key(p[i]) == chunk_key(c);
                assert(chunk_key(t[i]) < chunk_key(t[t.len() - 1]));
            }
        }
        assert forall|i: int| 0 <= i < t.len() implies merged_calls(t).contains_key(chunk_key(#[trigger] t[i]))
            && merged_calls(t)[chunk_key(t[i])] == t[i] by {
            if i < t.len() - 1 {
                assert(t[i] == p[i]);
                assert(chunk_key(t[i]) < chunk_key(t[t.len() - 1]));
            }
        }
        assert forall|k: usize| #[trigger] merged_calls(t).contains_key(k) implies exists|i: int|
            0 <= i < t.len() && chunk_key(t[i]) == k by {
            if k == chunk_key(c) {
                assert(chunk_key(t[t.len() - 1]) == k);
            } else {
                let i = choose|i: int| 0 <= i < p.len() && chunk_key(p[i]) == k;
                assert(t[i] == p[i]);
            }
        }
    }
}

/// Two lists that both list a map by slot are the same list.
proof fn lemma_listing_unique(a: Seq<ToolCallView>, b: Seq<ToolCallView>, m: Map<usize, ToolCallView>)
    requires
        lists_by_slot(a, m),
        lists_by_slot(b, m),
    ensures
        a == b,
    decreases a.len() + b.len(),
{
    if a.len() == 0 {
        if b.len() > 0 {
            assert(m.contains_key(chunk_key(b[0])));
        }
        assert(a =~= b);
    } else if b.len() == 0 {
        assert(m.contains_key(chunk_key(a[0])));
    } else {
        let ka = chunk_key(a[0]);
        let kb = chunk_key(b[0]);
        assert(m.contains_key(ka));
        assert(m.contains_key(kb));
        let j = choose|j: int| 0 <= j < b.len() && chunk_key(b[j]) == ka;
        let i = choose|i: int| 0 <= i < a.len() && chunk_key(a[i]) == kb;
        if i > 0 {
            assert(chunk_key(a[0]) < chunk_key(a[i]));
        }
        if j > 0 {
            assert(chunk_key(b[0]) < chunk_key(b[j]));
        }
        assert(ka == kb);
        assert(a[0] == b[0]);
        let m2 = m.remove(ka);
        let a2 = a.drop_first();
        let b2 = b.drop_first();
        assert forall|x: int, y: int| 0 <= x < y < a2.len() implies chunk_key(#[trigger] a2[x]) < chunk_key(#[trigger] a2[y]) by {
            assert(a2[x] == a[x + 1] && a2[y] == a[y + 1]);
        }
        assert forall|x: int, y: int| 0 <= x < y < b2.len() implies chunk_key(#[trigger] b2[x]) < chunk_key(#[trigger] b2[y]) by {
            assert(b2[x] == b[x + 1] && b2[y] == b[y + 1]);
        }
        assert forall|x: int| 0 <= x < a2.len() implies m2.contains_key(chunk_key(#[trigger] a2[x])) && m2[chunk_key(a2[x])] == a2[x] by {
            assert(a2[x] == a[x + 1]);
            assert(chunk_key(a[0]) < chunk_key(a[x + 1]));
        }
        assert forall|x: int| 0 <= x < b2.len() implies m2.contains_key(chunk_key(#[trigger] b2[x])) && m2[chunk_key(b2[x])] == b2[x] by {
            assert(b2[x] == b[x + 1]);
            assert(chunk_key(b[0]) < chunk_key(b[x + 1]));
        }
        assert forall|k: usize| #[trigger] m2.contains_key(k) implies exists|x: int| 0 <= x < a2.len() && chunk_key(a2[x]) == k by {
            let x = choose|x: int| 0 <= x < a.len() && chunk_key(a[x]) == k;
            assert(x > 0);
            assert(a2[x - 1] == a[x]);
        }
        assert forall|k: usize| #[trigger] m2.contains_key(k) implies exists|x: int| 0 <= x < b2.len() && chunk_key(b2[x]) == k by {
            let x = choose|x: int| 0 <= x < b.len() && chunk_key(b[x]) == k;
            assert(x > 0);
            assert(b2[x - 1] == b[x]);
        }
        lemma_listing_unique(a2, b2, m2);
        assert(a =~= b) by {
            assert forall|x: int| 0 <= x < a.len() implies a[x] == b[x] by {
                if x > 0 {
                    assert(a[x] == a2[x - 1]);
                    assert(b[x] == b2[x - 1]);
                }
            }
        }
    }
}

/// Merging calls that are already merged gives them back unchanged.
pub proof fn law_merge_idempotent(
    chunks: Seq<ToolCallView>,
    merged: Seq<ToolCallView>,
    remerged: Seq<ToolCallView>,
)
    requires
        lists_by_slot(merged, merged_calls(chunks)),
        lists_by_slot(remerged, merged_calls(merged)),
    ensures
        remerged == merged,
{
    lemma_merge_of_sorted(merged);
    assert(lists_by_slot(merged, merged_calls(merged)));
    lemma_listing_unique(remerged, merged, merged_calls(merged));
}


/// The merged calls after further fragments `s`, starting from the merged
/// calls `m`.
pub open spec fn merge_more(m: Map<usize, ToolCallView>, s: Seq<ToolCallView>) -> Map<usize, ToolCallView>
    decreases s.len(),
{
    if s.len() == 0 {
        m
    } else {
        let prev = merge_more(m, s.drop_last());
        let c = s.last();
        let k = chunk_key(c);
        if prev.contains_key(k) {
            prev.insert(k, absorb(prev[k], c))
        } else {
            prev.insert(k, c)
        }
    }
}

proof fn lemma_merged_calls_concat(a: Seq<ToolCallView>, b: Seq<ToolCallView>)
    ensures
        merged_calls(a + b) == merge_more(merged_calls(a), b),
    decreases b.len(),
{
    if b.len() == 0 {
        assert(a + b =~= a);
    } else {
        lemma_merged_calls_concat(a, b.drop_last());
        assert((a + b).drop_last() =~= a + b.drop_last());
        assert((a + b).last() == b.last());
    }
}

/// A list of calls that lists the merged calls of `m` by slot merges back to `m`.
proof fn lemma_listing_merges_back(out: Seq<ToolCallView>, m: Map<usize, ToolCallView>)
    requires
        lists_by_slot(out, m),
    ensures
        merged_calls(out) == m,
{
    lemma_merge_of_sorted(out);
    let mo = merged_calls(out);
    assert forall|k: usize| #[trigger] mo.contains_key(k) implies m.contains_key(k) && mo[k] == m[k] by {
        let i = choose|i: int| 0 <= i < out.len() && chunk_key(out[i]) == k;
        assert(m.contains_key(chunk_key(out[i])));
    }
    assert forall|k: usize| #[trigger] m.contains_key(k) implies mo.contains_key(k) by {
        let i = choose|i: int| 0 <= i < out.len() && chunk_key(out[i]) == k;
        assert(mo.contains_key(chunk_key(out[i])));
    }
    assert(mo =~= m);
}

/// Merging part of a stream early changes nothing: merging the merged calls
/// of the first fragments together with the fragments that follow gives the
/// same calls as merging all the fragments at once.
pub proof fn law_merge_prefix_early(
    first: Seq<ToolCallView>,
    rest: Seq<ToolCallView>,
    merged_first: Seq<ToolCallView>,
    merged_then: Seq<ToolCallView>,
    merged_all: Seq<ToolCallView>,
)
    requires
        lists_by_slot(merged_first, merged_calls(first)),
        lists_by_slot(merged_then, merged_calls(merged_first + rest)),
        lists_by_slot(merged_all, merged_calls(first + rest)),
    ensures
        merged_then == merged_all,
{
    lemma_listing_merges_back(merged_first, merged_calls(first));
    lemma_merged_calls_concat(merged_first, rest);
    lemma_merged_calls_concat(first, rest);
    lemma_listing_unique(merged_then, merged_all, merged_calls(first + rest));
}

} // verus!
