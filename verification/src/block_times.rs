//! When blocks were made: asking the node for their headers, reading its answer, and keeping
//! what it said.
use vstd::prelude::*;
use std::collections::{HashMap, HashSet};
use crate::clock::{millis_of_rfc3339, rfc3339_millis};
use crate::json::{
    JsonTree, json_array, json_as_array, json_as_str, json_as_u64, json_from_slice, json_get,
    json_is_object, json_null, json_object, json_read, json_set, json_str, json_tree, json_u64,
    member, trees,
};
use crate::text::{trim_slashes, without_trailing_slashes};

verus! {

/// Block times by height: milliseconds since 1970, and the time as the node wrote it.
pub type BlockTimes = HashMap<u64, (i64, String)>;

/// Block times with their texts as sequences of characters.
pub open spec fn times_view(times: Map<u64, (i64, String)>) -> Map<u64, (i64, Seq<char>)> {
    times.map_values(|time: (i64, String)| (time.0, time.1@))
}

/// The heights that a block time is wanted for and known.
pub open spec fn known_of(cache: Map<u64, (i64, String)>, heights: Set<u64>) -> Set<u64> {
    Set::new(|height: u64| heights.contains(height) && height > 0 && cache.contains_key(height))
}

/// The heights that a block time is wanted for and not known.
pub open spec fn missing_of(cache: Map<u64, (i64, String)>, heights: Set<u64>) -> Set<u64> {
    Set::new(|height: u64| heights.contains(height) && height > 0 && !cache.contains_key(height))
}

/// What a cache holds; nothing if there is none to be had.
pub open spec fn cached(cache: Option<&BlockTimes>) -> Map<u64, (i64, String)> {
    match cache {
        Some(times) => times@,
        None => Map::empty(),
    }
}

/// The heights in a set, each once, in no order to be relied on.
pub fn heights_in(heights: &HashSet<u64>) -> (r: Vec<u64>)
    ensures
        r@.no_duplicates(),
        r@.to_set() =~= heights@,
{
    let mut r: Vec<u64> = Vec::new();
    for height in iter: heights.iter()
        invariant
            iter.seq().no_duplicates(),
            iter.seq().unref().to_set() == heights@,
            r@ == iter.seq().unref().take(iter.index() as int),
            iter.index() == iter.seq().len() ==> r@ =~= iter.seq().unref(),
    {
        let ghost all = iter.seq().unref();
        assert(all[iter.index() as int] == *height);
        r.push(*height);
        assert(all.take(iter.index() as int).push(*height) =~= all.take(iter.index() + 1));
    }
    r
}

/// The block times that are known for the heights wanted, and the heights left, in no order to
/// be relied on. Block zero is never asked for.
pub fn cached_block_times(cache: Option<&BlockTimes>, heights: &HashSet<u64>) -> (r: (
    BlockTimes,
    Vec<u64>,
))
    ensures
        taken_from(r.0@, cached(cache), heights@),
        r.1@.no_duplicates(),
        r.1@.to_set() =~= missing_of(cached(cache), heights@),
{
    let mut times: BlockTimes = HashMap::new();
    let mut missing: Vec<u64> = Vec::new();
    let ghost known = cached(cache);
    let all = heights_in(heights);
    let mut i: usize = 0;
    while i < all.len()
        invariant
            i <= all.len(),
            known == cached(cache),
            all@.no_duplicates(),
            times@.dom() =~= known_of(known, all@.take(i as int).to_set()),
            forall|h: u64| times@.contains_key(h) ==> #[trigger] times@[h] == known[h],
            missing@.no_duplicates(),
            missing@.to_set() =~= missing_of(known, all@.take(i as int).to_set()),
        decreases all.len() - i,
    {
        let height: u64 = all[i];
        let ghost before = all@.take(i as int);
        let ghost missing_before = missing@;
        assert(all@.take(i + 1) =~= before.push(height));
        assert(before.push(height).to_set() =~= before.to_set().insert(height)) by {
            broadcast use vstd::seq_lib::group_seq_properties;
        }
        assert(!before.to_set().contains(height)) by {
            if before.contains(height) {
                let j = choose|j: int| 0 <= j < before.len() && before[j] == height;
                assert(all@[j] == all@[i as int]);
            }
        }
        if height > 0 {
            let found = match cache {
                Some(times) => times.get(&height),
                None => None,
            };
            match found {
                Some(value) => {
                    times.insert(height, (value.0, value.1.clone()));
                },
                None => {
                    assert(!missing_before.to_set().contains(height));
                    assert(!missing_before.contains(height));
                    missing.push(height);
                    assert(missing@.to_set() =~= missing_before.to_set().insert(height)) by {
                        broadcast use vstd::seq_lib::group_seq_properties;
                    }
                },
            }
        }
        i = i + 1;
    }
    assert(all@.take(i as int) =~= all@);
    (times, missing)
}

/// Block times with those that the node gave, in place of older ones for the same heights.
pub open spec fn remembered(
    times: Map<u64, (i64, String)>,
    fetched: Map<u64, (i64, String)>,
) -> Map<u64, (i64, String)> {
    times.union_prefer_right(fetched)
}

/// Keeps block times that the node gave, in place of older ones for the same heights.
pub fn remember_block_times(times: &mut BlockTimes, fetched: &BlockTimes)
    ensures
        final(times)@ =~= remembered(old(times)@, fetched@),
{
    let ghost before = times@;
    for entry in iter: fetched.iter()
        invariant
            iter.seq().len() == fetched@.dom().len(),
            forall|h: u64| #[trigger]
                fetched@.contains_key(h) ==> iter.seq().contains((&h, &fetched@[h])),
            forall|i: int|
                0 <= i < iter.seq().len() ==> fetched@.contains_key(*(#[trigger] iter.seq()[i]).0)
                    && fetched@[*iter.seq()[i].0] == *iter.seq()[i].1,
            forall|h: u64| #[trigger]
                times@.contains_key(h) ==> (before.contains_key(h) || fetched@.contains_key(h)) && (
                times@[h] == fetched@[h] || (before.contains_key(h) && times@[h] == before[h])),
            forall|h: u64| #[trigger] before.contains_key(h) ==> times@.contains_key(h),
            forall|h: u64| #[trigger]
                times@.contains_key(h) && !fetched@.contains_key(h) ==> times@[h] == before[h],
            forall|i: int|
                0 <= i < iter.index() ==> times@.contains_key(*(#[trigger] iter.seq()[i]).0)
                    && times@[*iter.seq()[i].0] == fetched@[*iter.seq()[i].0],
    {
        let (height, value) = entry;
        assert(iter.seq()[iter.index() as int] == (height, value));
        times.insert(*height, (value.0, value.1.clone()));
    }
}

/// Heights that were asked for and given once are not asked for again: of what was missing, only
/// what the node did not give is.
pub proof fn law_given_block_times_are_not_asked_again(
    cache: Map<u64, (i64, String)>,
    fetched: Map<u64, (i64, String)>,
    heights: Set<u64>,
)
    ensures
        missing_of(cache.union_prefer_right(fetched), heights) =~= missing_of(
            cache,
            heights,
        ).difference(fetched.dom()),
        known_of(cache, heights).subset_of(
            known_of(cache.union_prefer_right(fetched), heights),
        ),
{
}

/// The endpoint of a node that block headers are asked of.
pub open spec fn endpoint_of(node_url: Seq<char>) -> Seq<char> {
    without_trailing_slashes(node_url) + "/v2/foreign"@
}

/// The endpoint of a node that block headers are asked of.
pub fn foreign_endpoint(node_url: &str) -> (url: String)
    ensures
        url@ == endpoint_of(node_url@),
{
    trim_slashes(node_url).concat("/v2/foreign")
}

/// The call that asks for one block header, told apart by its height.
pub open spec fn header_request_tree(height: u64) -> JsonTree {
    JsonTree::Object(
        Map::empty().insert("jsonrpc"@, JsonTree::Text("2.0"@)).insert(
            "method"@,
            JsonTree::Text("get_header"@),
        ).insert(
            "params"@,
            JsonTree::Array(
                seq![JsonTree::Int(height as int), JsonTree::Null, JsonTree::Null],
            ),
        ).insert("id"@, JsonTree::Int(height as int)),
    )
}

/// The call that asks for one block header.
pub fn header_request(height: u64) -> (r: serde_json::Value)
    ensures
        json_tree(r) == header_request_tree(height),
{
    let mut params: Vec<serde_json::Value> = Vec::new();
    params.push(json_u64(height));
    params.push(json_null());
    params.push(json_null());
    assert(trees(params@) =~= seq![JsonTree::Int(height as int), JsonTree::Null, JsonTree::Null]);
    let mut call = json_object();
    json_set(&mut call, "jsonrpc", json_str("2.0"));
    json_set(&mut call, "method", json_str("get_header"));
    json_set(&mut call, "params", json_array(params));
    json_set(&mut call, "id", json_u64(height));
    call
}

/// The calls that ask for the block headers of these heights, one for each, in this order.
pub open spec fn calls_for(heights: Seq<u64>) -> JsonTree {
    JsonTree::Array(heights.map_values(|height: u64| header_request_tree(height)))
}

/// The calls that ask for the block headers of these heights, one for each, in this order.
pub fn header_requests(heights: &Vec<u64>) -> (r: serde_json::Value)
    ensures
        json_tree(r) == calls_for(heights@),
{
    let mut calls: Vec<serde_json::Value> = Vec::new();
    let mut i: usize = 0;
    while i < heights.len()
        invariant
            i <= heights.len(),
            calls.len() == i,
            forall|j: int|
                0 <= j < i ==> json_tree(#[trigger] calls@[j]) == header_request_tree(heights@[j]),
        decreases heights.len() - i,
    {
        calls.push(header_request(heights[i]));
        i = i + 1;
    }
    assert(trees(calls@) =~= heights@.map_values(|height: u64| header_request_tree(height)));
    json_array(calls)
}

/// The whole number, not negative, that a member is.
pub open spec fn as_height(tree: Option<JsonTree>) -> Option<u64> {
    match tree {
        Some(JsonTree::Int(n)) => if 0 <= n <= u64::MAX {
            Some(n as u64)
        } else {
            None
        },
        _ => None,
    }
}

/// The text that a member is.
pub open spec fn as_text(tree: Option<JsonTree>) -> Option<Seq<char>> {
    match tree {
        Some(JsonTree::Text(text)) => Some(text),
        _ => None,
    }
}

/// The member of a member, if there is one.
pub open spec fn member_of(tree: Option<JsonTree>, key: Seq<char>) -> Option<JsonTree> {
    match tree {
        Some(tree) => member(tree, key),
        None => None,
    }
}

/// The header in an answer.
pub open spec fn header_of(answer: JsonTree) -> Option<JsonTree> {
    member_of(member(answer, "result"@), "Ok"@)
}

/// The height that an answer is about: the number of the call or, if the answer gives none, the
/// height in the header.
pub open spec fn height_of(answer: JsonTree) -> Option<u64> {
    match as_height(member(answer, "id"@)) {
        Some(height) => Some(height),
        None => as_height(member_of(header_of(answer), "height"@)),
    }
}

/// The time in an answer, as the node wrote it.
pub open spec fn timestamp_of(answer: JsonTree) -> Option<Seq<char>> {
    as_text(member_of(header_of(answer), "timestamp"@))
}

/// The block time in an answer; none if it lacks the height or the time, or the time cannot be
/// read.
pub open spec fn block_time_of(answer: JsonTree) -> Option<(u64, i64, Seq<char>)> {
    match height_of(answer) {
        Some(height) => match timestamp_of(answer) {
            Some(timestamp) => match rfc3339_millis(timestamp) {
                Some(millis) => Some((height, millis, timestamp)),
                None => None,
            },
            None => None,
        },
        None => None,
    }
}

/// The answers in a document: its items, or the document itself if it is a single answer.
pub open spec fn answers_in(document: JsonTree) -> Seq<JsonTree> {
    match document {
        JsonTree::Array(items) => items,
        JsonTree::Object(_) => seq![document],
        _ => Seq::empty(),
    }
}

/// The block times in a list of answers. The last answer about a height decides.
pub open spec fn block_times_of(answers: Seq<JsonTree>) -> Map<u64, (i64, Seq<char>)>
    decreases answers.len(),
{
    if answers.len() == 0 {
        Map::empty()
    } else {
        let before = block_times_of(answers.drop_last());
        match block_time_of(answers.last()) {
            Some((height, millis, timestamp)) => before.insert(height, (millis, timestamp)),
            None => before,
        }
    }
}

/// The block times that a node's answer gives.
pub open spec fn answered_times(body: Seq<u8>) -> Map<u64, (i64, Seq<char>)> {
    match json_read(body) {
        Some(document) => block_times_of(answers_in(document)),
        None => Map::empty(),
    }
}

/// Every date reads as the milliseconds that are kept beside it.
pub open spec fn dates_agree(times: Map<u64, (i64, Seq<char>)>) -> bool {
    forall|height: u64|
        times.contains_key(height) ==> rfc3339_millis((#[trigger] times[height]).1) == Some(
            times[height].0,
        )
}

/// Every date that is taken from a node's answers reads as the milliseconds that are kept beside
/// it.
pub proof fn law_dates_read_as_their_millis(answers: Seq<JsonTree>)
    ensures
        dates_agree(block_times_of(answers)),
    decreases answers.len(),
{
    if answers.len() > 0 {
        law_dates_read_as_their_millis(answers.drop_last());
    }
}

/// Dates go on reading as the milliseconds beside them: in a cache that a node's answer is added
/// to, and in what is taken out of a cache.
pub proof fn law_cache_keeps_dates_and_millis_together(
    cache: Map<u64, (i64, String)>,
    fetched: Map<u64, (i64, String)>,
    body: Seq<u8>,
    taken: Map<u64, (i64, String)>,
)
    requires
        dates_agree(times_view(cache)),
        times_view(fetched) == answered_times(body),
        taken.dom().subset_of(cache.dom()),
        forall|height: u64|
            taken.contains_key(height) ==> #[trigger] taken[height] == cache[height],
    ensures
        dates_agree(times_view(fetched)),
        dates_agree(times_view(cache.union_prefer_right(fetched))),
        dates_agree(times_view(taken)),
{
    if let Some(document) = json_read(body) {
        law_dates_read_as_their_millis(answers_in(document));
    }
    let all = cache.union_prefer_right(fetched);
    assert forall|height: u64| times_view(all).contains_key(height) implies rfc3339_millis(
        (#[trigger] times_view(all)[height]).1,
    ) == Some(times_view(all)[height].0) by {
        if fetched.contains_key(height) {
            assert(times_view(fetched).contains_key(height));
            assert(times_view(all)[height] == times_view(fetched)[height]);
        } else {
            assert(times_view(cache).contains_key(height));
            assert(times_view(all)[height] == times_view(cache)[height]);
        }
    }
    assert forall|height: u64| times_view(taken).contains_key(height) implies rfc3339_millis(
        (#[trigger] times_view(taken)[height]).1,
    ) == Some(times_view(taken)[height].0) by {
        assert(cache.contains_key(height));
        assert(times_view(taken)[height] == times_view(cache)[height]);
    }
}

/// The member of a member, if there is one.
fn get_of<'a>(value: Option<&'a serde_json::Value>, key: &str) -> (r: Option<
    &'a serde_json::Value,
>)
    ensures
        match value {
            Some(v) => match r {
                Some(item) => member(json_tree(*v), key@) == Some(json_tree(*item)),
                None => member(json_tree(*v), key@) is None,
            },
            None => r is None,
        },
{
    match value {
        Some(v) => json_get(v, key),
        None => None,
    }
}

/// The whole number, not negative, that a member is.
fn height_at(value: Option<&serde_json::Value>) -> (r: Option<u64>)
    ensures
        match value {
            Some(v) => r == as_height(Some(json_tree(*v))),
            None => r is None,
        },
{
    match value {
        Some(v) => json_as_u64(v),
        None => None,
    }
}

/// A block time: the height, milliseconds since 1970, and the time as the node wrote it.
pub struct DatedBlock {
    pub height: u64,
    pub millis: i64,
    pub timestamp: String,
}

/// The block time that is kept of an answer with this height and time, out of what the time was
/// read as: none if it could not be read.
pub fn dated_block(height: u64, timestamp: &str, millis: Option<i64>) -> (r: Option<
    DatedBlock,
>)
    ensures
        match millis {
            Some(ms) => r is Some && r->0.height == height && r->0.millis == ms
                && r->0.timestamp@ == timestamp@,
            None => r is None,
        },
{
    match millis {
        Some(ms) => Some(DatedBlock { height, millis: ms, timestamp: timestamp.to_owned() }),
        None => None,
    }
}

/// The block time in an answer.
pub fn block_time(answer: &serde_json::Value) -> (r: Option<DatedBlock>)
    ensures
        match block_time_of(json_tree(*answer)) {
            Some((height, millis, timestamp)) => r is Some && r->0.height == height && r->0.millis
                == millis && r->0.timestamp@ == timestamp,
            None => r is None,
        },
{
    let header = get_of(json_get(answer, "result"), "Ok");
    let height = match height_at(json_get(answer, "id")) {
        Some(height) => Some(height),
        None => height_at(get_of(header, "height")),
    };
    let height = match height {
        Some(height) => height,
        None => {
            return None;
        },
    };
    let timestamp = match get_of(header, "timestamp") {
        Some(value) => json_as_str(value),
        None => None,
    };
    let timestamp = match timestamp {
        Some(timestamp) => timestamp,
        None => {
            return None;
        },
    };
    dated_block(height, timestamp, millis_of_rfc3339(timestamp))
}

/// The block times in a list of answers.
fn block_times_in(answers: &Vec<serde_json::Value>) -> (r: BlockTimes)
    ensures
        times_view(r@) =~= block_times_of(trees(answers@)),
{
    let mut times: BlockTimes = HashMap::new();
    let ghost all = trees(answers@);
    let mut i: usize = 0;
    while i < answers.len()
        invariant
            i <= answers.len(),
            all == trees(answers@),
            times_view(times@) =~= block_times_of(all.take(i as int)),
        decreases answers.len() - i,
    {
        assert(all.take(i + 1).drop_last() =~= all.take(i as int));
        assert(all.take(i + 1).last() == json_tree(answers@[i as int]));
        if let Some(block) = block_time(&answers[i]) {
            let ghost before = times@;
            times.insert(block.height, (block.millis, block.timestamp));
            assert(times_view(times@) =~= times_view(before).insert(
                block.height,
                (block.millis, block.timestamp@),
            ));
        }
        i = i + 1;
    }
    assert(all.take(i as int) =~= all);
    times
}

/// The block times in a document that a node answered with.
pub fn block_times_in_document(document: &serde_json::Value) -> (r: BlockTimes)
    ensures
        times_view(r@) =~= block_times_of(answers_in(json_tree(*document))),
{
    if let Some(answers) = json_as_array(document) {
        return block_times_in(answers);
    }
    let mut times: BlockTimes = HashMap::new();
    if json_is_object(document) {
        let ghost answers = answers_in(json_tree(*document));
        assert(answers.drop_last() =~= Seq::<JsonTree>::empty());
        assert(block_times_of(answers.drop_last()) =~= Map::<u64, (i64, Seq<char>)>::empty());
        if let Some(block) = block_time(document) {
            times.insert(block.height, (block.millis, block.timestamp));
        }
    }
    times
}

/// The block times that a node's answer gives; none if it is not JSON.
pub fn fetched_block_times(body: &[u8]) -> (r: BlockTimes)
    ensures
        times_view(r@) =~= answered_times(body@),
{
    match json_from_slice(body) {
        Some(document) => block_times_in_document(&document),
        None => HashMap::new(),
    }
}

/// What follows from looking for block times in the cache.
pub enum Lookup {
    /// All that are wanted are known.
    Known(BlockTimes),
    /// Some are known, and the node at this endpoint is to be asked for the others with these
    /// calls.
    Ask { known: BlockTimes, url: String, calls: serde_json::Value },
}

/// `times` are the block times wanted that a cache holds.
pub open spec fn taken_from(
    times: Map<u64, (i64, String)>,
    cache: Map<u64, (i64, String)>,
    heights: Set<u64>,
) -> bool {
    &&& times.dom() =~= known_of(cache, heights)
    &&& forall|height: u64|
        times.contains_key(height) ==> #[trigger] times[height] == cache[height]
}

/// `calls` ask for the block headers of these heights, each once.
pub open spec fn asks_for(calls: JsonTree, heights: Set<u64>) -> bool {
    exists|order: Seq<u64>|
        {
            &&& order.no_duplicates()
            &&& order.to_set() =~= heights
            &&& calls == #[trigger] calls_for(order)
        }
}

/// Looks for the block times wanted in the cache, if there is one to be had. The node is asked
/// only where one is missing, and for those alone.
pub fn epic_block_times_by_height(
    node_url: &str,
    heights: &HashSet<u64>,
    cache: Option<&BlockTimes>,
) -> (r: Lookup)
    ensures
        match r {
            Lookup::Known(times) => {
                &&& missing_of(cached(cache), heights@) =~= Set::empty()
                &&& taken_from(times@, cached(cache), heights@)
            },
            Lookup::Ask { known, url, calls } => {
                &&& missing_of(cached(cache), heights@) != Set::<u64>::empty()
                &&& taken_from(known@, cached(cache), heights@)
                &&& url@ == endpoint_of(node_url@)
                &&& asks_for(json_tree(calls), missing_of(cached(cache), heights@))
            },
        },
{
    let (known, missing) = cached_block_times(cache, heights);
    if missing.is_empty() {
        assert(missing@.to_set() =~= Set::<u64>::empty());
        return Lookup::Known(known);
    }
    assert(missing@.to_set().contains(missing@[0]));
    let calls = header_requests(&missing);
    assert(json_tree(calls) == calls_for(missing@));
    Lookup::Ask { known, url: foreign_endpoint(node_url), calls }
}

/// The block times in what came back from the node; none if nothing did.
pub open spec fn times_in_answer(body: Option<&[u8]>) -> Map<u64, (i64, Seq<char>)> {
    match body {
        Some(bytes) => answered_times(bytes@),
        None => Map::empty(),
    }
}

/// All block times there are, and those to be remembered, out of those that were known and what
/// came back from the node, if anything did. What the node says now counts.
pub fn take_answer(known: BlockTimes, body: Option<&[u8]>) -> (r: (BlockTimes, BlockTimes))
    ensures
        r.0@ =~= remembered(known@, r.1@),
        times_view(r.1@) =~= times_in_answer(body),
{
    let fetched: BlockTimes = match body {
        Some(bytes) => fetched_block_times(bytes),
        None => HashMap::new(),
    };
    let mut times = known;
    remember_block_times(&mut times, &fetched);
    (times, fetched)
}

/// `r` is the greatest of a height and all heights in a set.
pub open spec fn is_greatest(heights: Set<u64>, last_confirmed_height: u64, r: u64) -> bool {
    &&& r >= last_confirmed_height
    &&& forall|height: u64| #[trigger] heights.contains(height) ==> r >= height
    &&& r == last_confirmed_height || heights.contains(r)
}

/// The greatest of a height and all heights in a set.
pub fn effective_height(heights: &HashSet<u64>, last_confirmed_height: u64) -> (r: u64)
    ensures
        is_greatest(heights@, last_confirmed_height, r),
{
    let all = heights_in(heights);
    let mut r: u64 = last_confirmed_height;
    let mut i: usize = 0;
    while i < all.len()
        invariant
            i <= all.len(),
            all@.to_set() == heights@,
            r >= last_confirmed_height,
            forall|j: int| 0 <= j < i ==> r >= #[trigger] all@[j],
            r == last_confirmed_height || heights@.contains(r),
        decreases all.len() - i,
    {
        if all[i] > r {
            r = all[i];
            assert(all@.to_set().contains(all@[i as int]));
        }
        i = i + 1;
    }
    assert forall|height: u64| #[trigger] heights@.contains(height) implies r >= height by {
        assert(all@.to_set().contains(height));
    }
    r
}

/// Of the heights wanted, but for block zero, each is known or asked for and none is both; it is
/// known exactly if the cache has it. No other height is either.
pub proof fn law_wanted_heights_are_known_or_asked_for(
    cache: Map<u64, (i64, String)>,
    heights: Set<u64>,
    height: u64,
)
    ensures
        height > 0 && heights.contains(height) && cache.contains_key(height) ==> known_of(
            cache,
            heights,
        ).contains(height) && !missing_of(cache, heights).contains(height),
        height > 0 && heights.contains(height) && !cache.contains_key(height) ==> missing_of(
            cache,
            heights,
        ).contains(height) && !known_of(cache, heights).contains(height),
        height == 0 || !heights.contains(height) ==> !known_of(cache, heights).contains(height)
            && !missing_of(cache, heights).contains(height),
{
}

/// What is taken out of the cache is what it holds, for every height that is wanted and known.
pub proof fn law_cached_times_are_taken_as_they_are(
    times: BlockTimes,
    missing: Vec<u64>,
    cache: BlockTimes,
    heights: HashSet<u64>,
    height: u64,
)
    requires
        call_ensures(cached_block_times, (Some(&cache), &heights), (times, missing)),
    ensures
        times@.contains_key(height) <==> height > 0 && heights@.contains(height)
            && cache@.contains_key(height),
        times@.contains_key(height) ==> times@[height] == cache@[height],
{
    assert(times@.dom().contains(height) <==> known_of(cache@, heights@).contains(height));
}

/// What the node says now counts, and what it says nothing of stays.
pub proof fn law_what_the_node_says_now_counts(
    times: Map<u64, (i64, String)>,
    fetched: Map<u64, (i64, String)>,
    height: u64,
)
    ensures
        fetched.contains_key(height) ==> remembered(times, fetched).contains_key(height)
            && remembered(times, fetched)[height] == fetched[height],
        !fetched.contains_key(height) ==> (remembered(times, fetched).contains_key(height)
            <==> times.contains_key(height)),
        !fetched.contains_key(height) && times.contains_key(height) ==> remembered(
            times,
            fetched,
        )[height] == times[height],
{
}

/// The endpoint stands behind the node's address with one slash, whether the address ends in
/// slashes or not.
pub proof fn law_endpoint_stands_behind_the_node(node_url: Seq<char>)
    ensures
        endpoint_of(node_url.push('/')) == endpoint_of(node_url),
        (node_url.len() == 0 || node_url.last() != '/') ==> endpoint_of(node_url) == node_url
            + "/v2/foreign"@,
{
    assert(node_url.push('/').drop_last() =~= node_url);
}

/// A call names its method and its height, as what is asked for and as its number.
pub proof fn law_calls_ask_for_one_header(height: u64)
    ensures
        ({
            let call = header_request_tree(height);
            &&& member(call, "jsonrpc"@) == Some(JsonTree::Text("2.0"@))
            &&& member(call, "method"@) == Some(JsonTree::Text("get_header"@))
            &&& member(call, "id"@) == Some(JsonTree::Int(height as int))
            &&& member(call, "params"@) matches Some(JsonTree::Array(params)) && params.len() == 3
                && params[0] == JsonTree::Int(height as int) && params[1] == JsonTree::Null
                && params[2] == JsonTree::Null
        }),
{
    reveal_strlit("jsonrpc");
    reveal_strlit("method");
    reveal_strlit("params");
    reveal_strlit("id");
    assert("jsonrpc"@.len() == 7 && "method"@.len() == 6 && "params"@.len() == 6 && "id"@.len()
        == 2);
    assert("method"@[0] == 'm' && "params"@[0] == 'p');
}

/// There is one call for each height that is asked for, and no other.
pub proof fn law_one_call_for_each_height(heights: Seq<u64>, i: int)
    ensures
        calls_for(heights) matches JsonTree::Array(calls) && calls.len() == heights.len() && (0 <= i
            < heights.len() ==> calls[i] == header_request_tree(heights[i])),
{
}

/// Calls that ask for some heights hold a call for each of them and for no other.
pub proof fn law_calls_ask_for_all_heights(calls: JsonTree, heights: Set<u64>, height: u64)
    requires
        asks_for(calls, heights),
    ensures
        calls is Array,
        heights.contains(height) <==> calls->Array_0.contains(header_request_tree(height)),
{
    let order = choose|order: Seq<u64>|
        {
            &&& order.no_duplicates()
            &&& order.to_set() =~= heights
            &&& calls == #[trigger] calls_for(order)
        };
    let list = calls->Array_0;
    if heights.contains(height) {
        assert(order.to_set().contains(height));
        let i = choose|i: int| 0 <= i < order.len() && order[i] == height;
        assert(list[i] == header_request_tree(height));
    }
    if list.contains(header_request_tree(height)) {
        let i = choose|i: int| 0 <= i < list.len() && list[i] == header_request_tree(height);
        law_calls_ask_for_one_header(order[i]);
        law_calls_ask_for_one_header(height);
        assert(order[i] == height);
        assert(order.to_set().contains(height));
    }
}

/// An answer gives the time in its header, as it is written, for the height that is its number
/// or, where it has no number that is a height, for the height in the header.
pub proof fn law_answers_give_the_time_in_their_header(
    answer: Map<Seq<char>, JsonTree>,
    result: Map<Seq<char>, JsonTree>,
    header: Map<Seq<char>, JsonTree>,
    timestamp: Seq<char>,
    height: u64,
)
    requires
        answer.contains_key("result"@),
        answer["result"@] == JsonTree::Object(result),
        result.contains_key("Ok"@),
        result["Ok"@] == JsonTree::Object(header),
        header.contains_key("timestamp"@),
        header["timestamp"@] == JsonTree::Text(timestamp),
    ensures
        ({
            let time = block_time_of(JsonTree::Object(answer));
            let numbered = answer.contains_key("id"@) && answer["id"@] == JsonTree::Int(
                height as int,
            );
            let unnumbered = !answer.contains_key("id"@) || !(answer["id"@] is Int)
                || answer["id"@]->Int_0 < 0;
            let in_header = header.contains_key("height"@) && header["height"@] == JsonTree::Int(
                height as int,
            );
            &&& numbered || (unnumbered && in_header) ==> (match rfc3339_millis(timestamp) {
                Some(millis) => time == Some((height, millis, timestamp)),
                None => time is None,
            })
            &&& unnumbered && !header.contains_key("height"@) ==> time is None
        }),
{
}

/// A time is taken only from an answer with a header in it, and is the one written there; an
/// answer without one, such as a refusal, gives none.
pub proof fn law_times_come_from_headers_alone(answer: JsonTree)
    ensures
        block_time_of(answer) matches Some((height, millis, timestamp)) ==> {
            let header = member_of(member(answer, "result"@), "Ok"@);
            &&& member_of(header, "timestamp"@) == Some(JsonTree::Text(timestamp))
            &&& rfc3339_millis(timestamp) == Some(millis)
            &&& member(answer, "id"@) == Some(JsonTree::Int(height as int)) || member_of(
                header,
                "height"@,
            ) == Some(JsonTree::Int(height as int))
        },
        !(answer is Object) ==> block_time_of(answer) is None,
        member(answer, "result"@) is None ==> block_time_of(answer) is None,
{
}

/// A document is a list of answers, each item one, or a single answer; anything else holds none.
pub proof fn law_answers_are_the_items(
    items: Seq<JsonTree>,
    members: Map<Seq<char>, JsonTree>,
    document: JsonTree,
)
    ensures
        answers_in(JsonTree::Array(items)) == items,
        answers_in(JsonTree::Object(members)) == seq![JsonTree::Object(members)],
        !(document is Array) && !(document is Object) ==> answers_in(document).len() == 0,
{
}

/// Each answer adds its time to those before it, or replaces that of the same height; one that
/// gives no time changes nothing.
pub proof fn law_later_answers_count(answers: Seq<JsonTree>, answer: JsonTree, other: u64)
    ensures
        ({
            let before = block_times_of(answers);
            let all = block_times_of(answers.push(answer));
            match block_time_of(answer) {
                Some((height, millis, timestamp)) => {
                    &&& all.contains_key(height) && all[height] == (millis, timestamp)
                    &&& other != height ==> (all.contains_key(other) <==> before.contains_key(
                        other,
                    )) && (before.contains_key(other) ==> all[other] == before[other])
                },
                None => all == before,
            }
        }),
        block_times_of(Seq::empty()) == Map::<u64, (i64, Seq<char>)>::empty(),
{
    assert(answers.push(answer).drop_last() =~= answers);
}

/// Nothing is learnt of a node that does not answer, or not in JSON.
pub proof fn law_no_answer_gives_no_times(body: &[u8])
    ensures
        times_in_answer(None) == Map::<u64, (i64, Seq<char>)>::empty(),
        json_read(body@) is None ==> times_in_answer(Some(body)) == Map::<
            u64,
            (i64, Seq<char>),
        >::empty(),
        json_read(body@) matches Some(document) ==> times_in_answer(Some(body)) == block_times_of(
            answers_in(document),
        ),
{
}

/// There is one greatest height, and none that is wanted or confirmed is beyond it.
pub proof fn law_no_height_is_beyond_the_greatest(
    heights: HashSet<u64>,
    last_confirmed_height: u64,
    r: u64,
    height: u64,
)
    requires
        call_ensures(effective_height, (&heights, last_confirmed_height), r),
    ensures
        heights@.contains(height) ==> height <= r,
        last_confirmed_height <= r,
        height > r ==> !heights@.contains(height) && height != last_confirmed_height,
        r != last_confirmed_height ==> heights@.contains(r),
{
}

} // verus!
