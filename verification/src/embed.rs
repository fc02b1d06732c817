//! Splitting the values of an embedding request into calls and batches of
//! parallel calls, and the records that embedding returns.

use crate::headers::{distinct_keys, entries_map, lemma_entries_map_absent, Headers, KeyedMap};
use crate::tool::JsonValue;
use vstd::prelude::*;

verus! {

/// The concatenation of a list of sequences.
pub open spec fn concat_all<T>(ss: Seq<Seq<T>>) -> Seq<T>
    decreases ss.len(),
{
    if ss.len() == 0 {
        Seq::empty()
    } else {
        concat_all(ss.drop_last()) + ss.last()
    }
}

/// The contents of a list of vectors.
pub open spec fn vecs_view<T>(vs: Seq<Vec<T>>) -> Seq<Seq<T>> {
    vs.map_values(|v: Vec<T>| v@)
}

/// `chunks` cuts `s` into consecutive pieces of `size` elements, the last
/// of which may be shorter but is never empty.
pub open spec fn is_chunking<T>(s: Seq<T>, chunks: Seq<Seq<T>>, size: nat) -> bool {
    &&& concat_all(chunks) == s
    &&& forall|i: int| 0 <= i < chunks.len() ==> 1 <= #[trigger] chunks[i].len() <= size
    &&& forall|i: int| 0 <= i < chunks.len() - 1 ==> #[trigger] chunks[i].len() == size
}

/// Splits `array` into chunks of `chunk_size` elements (the last chunk may
/// be shorter). A chunk size of 0 gives the whole array as one chunk; an
/// empty array gives no chunks.
pub fn split_array<T>(array: Vec<T>, chunk_size: usize) -> (r: Vec<Vec<T>>)
    ensures
        chunk_size == 0 ==> vecs_view(r@) == seq![array@],
        chunk_size > 0 ==> is_chunking(array@, vecs_view(r@), chunk_size as nat),
{
    if chunk_size == 0 {
        let ghost a = array@;
        let mut r: Vec<Vec<T>> = Vec::new();
        r.push(array);
        assert(vecs_view(r@) =~= seq![a]);
        return r;
    }
    let ghost s = array@;
    let mut result: Vec<Vec<T>> = Vec::new();
    let mut current: Vec<T> = Vec::new();
    for x in it: array.into_iter()
        invariant
            chunk_size > 0,
            it.seq() == s,
            current@.len() < chunk_size,
            concat_all(vecs_view(result@)) + current@ == s.take(it.index()),
            forall|i: int|
                0 <= i < result@.len() ==> (#[trigger] vecs_view(result@)[i]).len()
                    == chunk_size,
    {
        let ghost before = current@;
        current.push(x);
        assert(s.take(it.index() + 1) =~= s.take(it.index()).push(x));
        assert(concat_all(vecs_view(result@)) + current@ =~= s.take(it.index() + 1));
        if current.len() == chunk_size {
            let ghost old_result = vecs_view(result@);
            let full = current;
            current = Vec::new();
            let ghost full_view = full@;
            result.push(full);
            assert(vecs_view(result@) =~= old_result.push(full_view));
            assert(vecs_view(result@).drop_last() =~= old_result);
            assert(concat_all(vecs_view(result@)) + current@ =~= concat_all(old_result)
                + full_view);
        }
    }
    assert(s.take(s.len() as int) =~= s);
    if current.len() > 0 {
        let ghost old_result = vecs_view(result@);
        let ghost cur = current@;
        result.push(current);
        assert(vecs_view(result@) =~= old_result.push(cur));
        assert(vecs_view(result@).drop_last() =~= old_result);
    } else {
        assert(current@ =~= Seq::<T>::empty());
        assert(concat_all(vecs_view(result@)) + current@ =~= concat_all(vecs_view(result@)));
    }
    result
}

/// The contents of a list of batches of chunks.
pub open spec fn batches_view<T>(bs: Seq<Vec<Vec<T>>>) -> Seq<Seq<Seq<T>>> {
    bs.map_values(|b: Vec<Vec<T>>| vecs_view(b@))
}

/// How many calls may run at once: the caller's limit (unbounded when not
/// given) if the model accepts parallel calls, one otherwise.
pub open spec fn spec_parallel_limit(supports_parallel_calls: bool, max_parallel_calls: Option<usize>) -> usize {
    if supports_parallel_calls {
        match max_parallel_calls {
            Some(m) => m,
            None => usize::MAX,
        }
    } else {
        1
    }
}

/// How the values of an embedding request are sent to the model.
pub enum EmbedCallPlan<V> {
    /// One call with all values.
    SingleCall(Vec<V>),
    /// Batches that run one after another; the chunks of a batch are sent
    /// in parallel calls, one chunk per call.
    Batches(Vec<Vec<Vec<V>>>),
}

/// Plans the calls of an embedding request: a model without a limit per
/// call (or with the limit `usize::MAX`) gets one call; otherwise the values
/// are cut into chunks of the limit, and the chunks into batches of the
/// parallel limit.
pub fn plan_embed_calls<V>(
    values: Vec<V>,
    max_embeddings_per_call: Option<usize>,
    supports_parallel_calls: bool,
    max_parallel_calls: Option<usize>,
) -> (r: EmbedCallPlan<V>)
    ensures
        match max_embeddings_per_call {
            None => r == EmbedCallPlan::SingleCall(values),
            Some(m) => if m == usize::MAX {
                r == EmbedCallPlan::SingleCall(values)
            } else {
                r matches EmbedCallPlan::Batches(b) && {
                    let bv = batches_view(b@);
                    let chunks = concat_all(bv);
                    let limit = spec_parallel_limit(supports_parallel_calls, max_parallel_calls);
                    &&& m == 0 ==> chunks == seq![values@]
                    &&& m > 0 ==> is_chunking(values@, chunks, m as nat)
                    &&& limit == 0 ==> bv == seq![chunks]
                    &&& limit > 0 ==> is_chunking(chunks, bv, limit as nat)
                }
            },
        },
{
    let m = match max_embeddings_per_call {
        None => {
            return EmbedCallPlan::SingleCall(values);
        },
        Some(m) => m,
    };
    if m == usize::MAX {
        return EmbedCallPlan::SingleCall(values);
    }
    let chunks = split_array(values, m);
    let limit = if supports_parallel_calls {
        match max_parallel_calls {
            Some(p) => p,
            None => usize::MAX,
        }
    } else {
        1
    };
    let ghost cv = vecs_view(chunks@);
    let batches = split_array(chunks, limit);
    proof {
        let bv = batches_view(batches@);
        let inner = vecs_view(batches@);
        assert forall|i: int| 0 <= i < bv.len() implies #[trigger] bv[i] == vecs_view(inner[i])
            by {}
        lemma_concat_map(inner);
        assert(bv =~= inner.map_values(|c: Seq<Vec<V>>| vecs_view(c)));
        if limit == 0 {
            assert(inner =~= seq![chunks@]);
            assert(bv =~= seq![cv]);
            lemma_concat_single(cv);
        } else {
            assert forall|i: int| 0 <= i < bv.len() implies 1 <= #[trigger] bv[i].len() <= limit
                by {}
            assert forall|i: int| 0 <= i < bv.len() - 1 implies #[trigger] bv[i].len() == limit
                by {}
        }
    }
    EmbedCallPlan::Batches(batches)
}

proof fn lemma_concat_single<T>(x: Seq<T>)
    ensures
        concat_all(seq![x]) == x,
{
    let s = seq![x];
    assert(s.drop_last() =~= Seq::<Seq<T>>::empty());
    assert(concat_all(s.drop_last()) == Seq::<T>::empty());
    assert(s.last() == x);
    assert(Seq::<T>::empty() + x =~= x);
}

/// Mapping each element of every piece commutes with concatenation.
proof fn lemma_concat_map<T>(ss: Seq<Seq<Vec<T>>>)
    ensures
        concat_all(ss.map_values(|c: Seq<Vec<T>>| vecs_view(c))) == vecs_view(concat_all(ss)),
    decreases ss.len(),
{
    let f = |c: Seq<Vec<T>>| vecs_view(c);
    if ss.len() > 0 {
        lemma_concat_map(ss.drop_last());
        assert(ss.map_values(f).drop_last() =~= ss.drop_last().map_values(f));
        assert(vecs_view(concat_all(ss.drop_last()) + ss.last()) =~= vecs_view(
            concat_all(ss.drop_last()),
        ) + vecs_view(ss.last()));
    } else {
        assert(vecs_view(Seq::<Vec<T>>::empty()) =~= Seq::<Seq<T>>::empty());
    }
}

/// The values of a planned request, read batch by batch and chunk by chunk,
/// are the request's values in their order: each value is embedded once.
pub proof fn lemma_plan_covers_values<V>(
    values: Seq<V>,
    batches: Seq<Seq<Seq<V>>>,
    max_per_call: nat,
    limit: nat,
)
    requires
        max_per_call == 0 ==> concat_all(batches) == seq![values],
        max_per_call > 0 ==> is_chunking(values, concat_all(batches), max_per_call),
        limit > 0 ==> is_chunking(concat_all(batches), batches, limit),
    ensures
        concat_all(concat_all(batches)) == values,
{
    if max_per_call == 0 {
        lemma_concat_single(values);
    }
}

/// The token count of a request made of several calls: the sum of the
/// counts that the calls reported (a call without a count adds nothing).
pub open spec fn spec_total_tokens(usages: Seq<Option<u32>>) -> nat
    decreases usages.len(),
{
    if usages.len() == 0 {
        0
    } else {
        spec_total_tokens(usages.drop_last()) + match usages.last() {
            Some(t) => t as nat,
            None => 0,
        }
    }
}

/// Sums the token counts of the calls of a request.
pub fn total_tokens(usages: &Vec<Option<u32>>) -> (t: u32)
    requires
        spec_total_tokens(usages@) <= u32::MAX,
    ensures
        t == spec_total_tokens(usages@),
{
    let mut total: u32 = 0;
    let mut i: usize = 0;
    while i < usages.len()
        invariant
            i <= usages@.len(),
            spec_total_tokens(usages@) <= u32::MAX,
            total == spec_total_tokens(usages@.take(i as int)),
        decreases usages@.len() - i,
    {
        proof {
            assert(usages@.take(i + 1).drop_last() =~= usages@.take(i as int));
            lemma_total_tokens_prefix(usages@, i + 1);
        }
        match usages[i] {
            Some(t) => {
                total = total + t;
            },
            None => {},
        }
        i = i + 1;
    }
    assert(usages@.take(usages@.len() as int) =~= usages@);
    total
}

proof fn lemma_total_tokens_prefix(s: Seq<Option<u32>>, k: int)
    requires
        0 <= k <= s.len(),
    ensures
        spec_total_tokens(s.take(k)) <= spec_total_tokens(s),
    decreases s.len(),
{
    if k < s.len() {
        lemma_total_tokens_prefix(s.drop_last(), k);
        assert(s.drop_last().take(k) =~= s.take(k));
    } else {
        assert(s.take(k) =~= s);
    }
}

/// What came back from an embedding call besides the embeddings.
#[derive(Debug, Clone)]
pub struct EmbedResultResponseData {
    pub headers: Option<Headers>,
    pub body: Option<serde_json::Value>,
}

impl EmbedResultResponseData {
    /// No headers and no body.
    pub fn new() -> (r: Self)
        ensures
            r.headers is None,
            r.body is None,
    {
        EmbedResultResponseData { headers: None, body: None }
    }

    /// Sets the headers.
    pub fn with_headers(self, headers: Headers) -> (r: Self)
        ensures
            r.headers == Some(headers),
            r.body == self.body,
    {
        EmbedResultResponseData { headers: Some(headers), body: self.body }
    }

    /// Sets the body.
    pub fn with_body(self, body: serde_json::Value) -> (r: Self)
        ensures
            r.headers == self.headers,
            r.body == Some(body),
    {
        EmbedResultResponseData { headers: self.headers, body: Some(body) }
    }
}

impl Default for EmbedResultResponseData {
    fn default() -> (r: Self)
        ensures
            r.headers is None,
            r.body is None,
    {
        EmbedResultResponseData::new()
    }
}

/// What came back from one of the calls of a batched embedding besides the
/// embeddings.
#[derive(Debug, Clone)]
pub struct EmbedManyResultResponseData {
    pub headers: Option<Headers>,
    pub body: Option<serde_json::Value>,
}

impl EmbedManyResultResponseData {
    /// No headers and no body.
    pub fn new() -> (r: Self)
        ensures
            r.headers is None,
            r.body is None,
    {
        EmbedManyResultResponseData { headers: None, body: None }
    }

    /// Sets the headers.
    pub fn with_headers(self, headers: Headers) -> (r: Self)
        ensures
            r.headers == Some(headers),
            r.body == self.body,
    {
        EmbedManyResultResponseData { headers: Some(headers), body: self.body }
    }

    /// Sets the body.
    pub fn with_body(self, body: serde_json::Value) -> (r: Self)
        ensures
            r.headers == self.headers,
            r.body == Some(body),
    {
        EmbedManyResultResponseData { headers: self.headers, body: Some(body) }
    }
}

impl Default for EmbedManyResultResponseData {
    fn default() -> (r: Self)
        ensures
            r.headers is None,
            r.body is None,
    {
        EmbedManyResultResponseData::new()
    }
}

/// Metadata of providers: for each provider, values by name.
pub type ProviderMetadata = KeyedMap<KeyedMap<JsonValue>>;

/// The metadata of several calls merged: each provider's values from
/// `later` are added to those from `earlier`, replacing values of the same
/// name.
pub open spec fn merged_metadata(
    earlier: Map<Seq<char>, Map<Seq<char>, JsonValue>>,
    later: Map<Seq<char>, Map<Seq<char>, JsonValue>>,
) -> Map<Seq<char>, Map<Seq<char>, JsonValue>> {
    Map::new(
        |p: Seq<char>| earlier.contains_key(p) || later.contains_key(p),
        |p: Seq<char>|
            if later.contains_key(p) {
                (if earlier.contains_key(p) {
                    earlier[p]
                } else {
                    Map::empty()
                }).union_prefer_right(later[p])
            } else {
                earlier[p]
            },
    )
}

/// Merges the metadata of a call into what earlier calls gave, if they
/// gave any.
pub fn merge_provider_metadata(combined: Option<ProviderMetadata>, metadata: ProviderMetadata) -> (r:
    ProviderMetadata)
    ensures
        r@ == match combined {
            Some(c) => merged_metadata(c@, metadata@),
            None => metadata@,
        },
{
    match combined {
        None => metadata,
        Some(c) => {
            let mut c = c;
            let ghost start = c@;
            let ghost m = metadata@;
            let entries = metadata.into_entries();
            let ghost ev = entries@.map_values(
                |e: (String, KeyedMap<JsonValue>)| (e.0@, e.1@),
            );
            let mut rest = entries;
            let n = rest.len();
            let mut k: usize = 0;
            assert(ev.subrange(0, 0) =~= Seq::<(Seq<char>, Map<Seq<char>, JsonValue>)>::empty());
            assert(merged_metadata(start, Map::empty()) =~= start);
            while k < n
                invariant
                    n == ev.len(),
                    k <= n,
                    distinct_keys(ev),
                    entries_map(ev) == m,
                    rest@.map_values(|e: (String, KeyedMap<JsonValue>)| (e.0@, e.1@))
                        == ev.subrange(k as int, n as int),
                    rest@.len() == n - k,
                    c@ == merged_metadata(start, entries_map(ev.subrange(0, k as int))),
                decreases n - k,
            {
                let ghost before = rest@;
                let (p, data) = rest.remove(0);
                let ghost bm = before.map_values(|e: (String, KeyedMap<JsonValue>)| (e.0@, e.1@));
                assert(bm[0] == ev.subrange(k as int, n as int)[0]);
                assert(ev[k as int] == (p@, data@));
                let ghost rm = rest@.map_values(|e: (String, KeyedMap<JsonValue>)| (e.0@, e.1@));
                assert forall|i: int| 0 <= i < rm.len() implies #[trigger] rm[i] == ev.subrange(
                    k as int + 1,
                    n as int,
                )[i] by {
                    assert(rest@[i] == before[i + 1]);
                    assert(bm[i + 1] == ev.subrange(k as int, n as int)[i + 1]);
                }
                assert(rm =~= ev.subrange(k as int + 1, n as int));
                let ghost pre = ev.subrange(0, k as int);
                let ghost pm = entries_map(pre);
                assert(ev.subrange(0, k as int + 1) =~= pre.push((p@, data@)));
                assert(ev.subrange(0, k as int + 1).drop_last() =~= pre);
                assert(!pm.contains_key(p@)) by {
                    assert forall|i: int| 0 <= i < pre.len() implies #[trigger] pre[i].0 != p@ by {
                        assert(pre[i] == ev[i]);
                        assert(ev[i].0 != ev[k as int].0);
                    }
                    lemma_entries_map_absent(pre, p@);
                }
                let existing = c.remove(p.as_str());
                let mut inner = match existing {
                    Some(e) => e,
                    None => KeyedMap::new(),
                };
                inner.extend(data);
                c.insert(p, inner);
                assert(c@ =~= merged_metadata(start, entries_map(ev.subrange(0, k as int + 1))));
                k = k + 1;
            }
            assert(ev.subrange(0, n as int) =~= ev);
            c
        },
    }
}

} // verus!
