//! What the routes of the catalog decide: whether a search query is taken,
//! how many results it gets, what a patch sets in motion, and how the search
//! index is filled in batches.

use vstd::prelude::*;
use vstd::utf8::encode_utf8;
use crate::types::AnimeSeriesPatch;

verus! {

pub const DB_NAME: &'static str = "Kanime3";

pub const COLL_NAME: &'static str = "animes";

pub const ANIMES_INDEX: &'static str = "animes";

/// The number of entries sent to the search index at once.
pub const ANIMES_INDEX_BATCH_SIZE: usize = 32;

/// The least length of a search query, in bytes.
pub const ANIMES_SEARCH_QUERY_MIN_LEN: usize = 2;

/// The greatest length of a search query, in bytes.
pub const ANIMES_SEARCH_QUERY_MAX_LEN: usize = 128;

/// The number of results of a search that asks for none in particular.
pub const ANIMES_SEARCH_DEFAULT_LIMIT: u32 = 10;

/// The greatest number of results of a search.
pub const ANIMES_SEARCH_SOFT_LIMIT: u32 = 100;

/// The length of a document identifier as text.
pub const OBJECT_ID_LENGTH: usize = 24;

/// A search as a client asks for it.
#[derive(Debug, Clone)]
pub struct SearchQuery {
    query: String,
    offset: Option<u32>,
    limit: Option<u32>,
}

impl SearchQuery {
    pub closed spec fn query(&self) -> Seq<char> {
        self.query@
    }

    pub closed spec fn offset(&self) -> Option<u32> {
        self.offset
    }

    pub closed spec fn limit(&self) -> Option<u32> {
        self.limit
    }

    pub fn new(query: String, offset: Option<u32>, limit: Option<u32>) -> (q: Self)
        ensures
            q.query() == query@,
            q.offset() == offset,
            q.limit() == limit,
    {
        Self { query, offset, limit }
    }

    /// Whether the query is taken: its text has between 2 and 128 bytes of
    /// UTF-8.
    pub fn validate(&self) -> (valid: bool)
        ensures
            valid == (ANIMES_SEARCH_QUERY_MIN_LEN <= encode_utf8(self.query()).len()
                <= ANIMES_SEARCH_QUERY_MAX_LEN),
    {
        let len = self.query.as_str().as_bytes().len();
        len >= ANIMES_SEARCH_QUERY_MIN_LEN && len <= ANIMES_SEARCH_QUERY_MAX_LEN
    }

    /// The text to search for.
    pub fn text(&self) -> (text: &str)
        ensures
            text@ == self.query(),
    {
        self.query.as_str()
    }

    /// The number of results to skip: what the query asks for, or none.
    pub fn effective_offset(&self) -> (offset: u32)
        ensures
            offset == match self.offset() {
                Some(o) => o,
                None => 0,
            },
    {
        match self.offset {
            Some(o) => o,
            None => 0,
        }
    }

    /// The number of results to give: what the query asks for, or 10, and
    /// never more than 100.
    pub fn effective_limit(&self) -> (limit: u32)
        ensures
            limit == match self.limit() {
                Some(l) => if l <= ANIMES_SEARCH_SOFT_LIMIT {
                    l
                } else {
                    ANIMES_SEARCH_SOFT_LIMIT
                },
                None => ANIMES_SEARCH_DEFAULT_LIMIT,
            },
    {
        match self.limit {
            Some(l) => if l <= ANIMES_SEARCH_SOFT_LIMIT {
                l
            } else {
                ANIMES_SEARCH_SOFT_LIMIT
            },
            None => ANIMES_SEARCH_DEFAULT_LIMIT,
        }
    }
}

/// The number of bytes of a document identifier.
pub const OBJECT_ID_BYTES: usize = 12;

/// The number that a hexadecimal digit stands for, in either case.
pub open spec fn hex_value(c: char) -> Option<nat> {
    if '0' <= c <= '9' {
        Some((c as nat - 48) as nat)
    } else if 'a' <= c <= 'f' {
        Some((c as nat - 87) as nat)
    } else if 'A' <= c <= 'F' {
        Some((c as nat - 55) as nat)
    } else {
        None
    }
}

/// Whether a text is a document identifier: 24 hexadecimal digits.
pub open spec fn is_object_id(id: Seq<char>) -> bool {
    id.len() == OBJECT_ID_LENGTH && forall|i: int|
        0 <= i < id.len() ==> hex_value(#[trigger] id[i]) is Some
}

/// The bytes that a document identifier denotes: each pair of digits is one
/// byte, the first digit the high half.
pub open spec fn object_id_bytes(id: Seq<char>) -> Seq<u8> {
    Seq::new(
        OBJECT_ID_BYTES as nat,
        |i: int| (16 * hex_value(id[2 * i]).unwrap() + hex_value(id[2 * i + 1]).unwrap()) as u8,
    )
}

/// `mongodb::bson::oid::ObjectId::parse_str`, then `ObjectId::bytes` on the
/// identifier where the text is one: a text of 24 hexadecimal digits, upper
/// or lower case, denotes twelve bytes; any other text is refused.
#[verifier::external_body]
fn parse_object_id(id: &str) -> (bytes: Option<[u8; 12]>)
    ensures
        bytes is Some <==> is_object_id(id@),
        bytes matches Some(b) ==> b@ == object_id_bytes(id@),
{
    mongodb::bson::oid::ObjectId::parse_str(id).ok().map(|oid| oid.bytes())
}

/// Whether a text has the length of a document identifier, in bytes.
pub fn has_object_id_length(id: &str) -> (yes: bool)
    ensures
        yes == (encode_utf8(id@).len() == OBJECT_ID_LENGTH),
{
    id.as_bytes().len() == OBJECT_ID_LENGTH
}

/// Reads a document identifier. A text of another length than 24 bytes is
/// refused before anything tries to parse it.
pub fn to_oid(id: &str) -> (bytes: Option<[u8; 12]>)
    ensures
        bytes is Some <==> is_object_id(id@),
        bytes matches Some(b) ==> b@ == object_id_bytes(id@),
{
    if !has_object_id_length(id) {
        proof {
            if is_object_id(id@) {
                assert(vstd::utf8::is_ascii_chars(id@)) by {
                    assert forall|i: int| 0 <= i < id@.len() implies '\0' <= #[trigger] id@[i]
                        <= '\u{7f}' by {
                        assert(hex_value(id@[i]) is Some);
                    }
                }
                vstd::utf8::is_ascii_chars_encode_utf8(id@);
            }
        }
        return None;
    }
    parse_object_id(id)
}

/// The name of the file that keeps a deleted series: `{id}.deleted.json`.
pub fn backup_file_name(id: &str) -> (name: String)
    ensures
        name@ == id@ + ".deleted.json"@,
{
    let mut name = String::from_str(id);
    name.append(".deleted.json");
    name
}

/// What a patch request sets in motion before the patch is applied.
#[derive(Debug, Clone, Copy, PartialEq, Eq, Structural)]
pub enum PatchRoute {
    /// The request changes nothing and is refused.
    RejectEmpty,
    /// The request brings a poster: its artifacts are made anew, and the
    /// presenter after them.
    ReplacePoster,
    /// The request changes what the presenter shows: the presenter is made
    /// anew.
    RefreshPresenter,
    /// The patch is applied and nothing else is done.
    ApplyOnly,
}

/// What a patch request sets in motion.
pub open spec fn route_of(patch: AnimeSeriesPatch, has_poster: bool) -> PatchRoute {
    if has_poster {
        PatchRoute::ReplacePoster
    } else if patch.spec_is_empty() {
        PatchRoute::RejectEmpty
    } else if patch.spec_has_presenter_changes() {
        PatchRoute::RefreshPresenter
    } else {
        PatchRoute::ApplyOnly
    }
}

/// Decides what a patch request sets in motion, given whether a poster came
/// with it.
pub fn plan_patch(patch: &AnimeSeriesPatch, has_poster: bool) -> (route: PatchRoute)
    ensures
        route == route_of(*patch, has_poster),
{
    if has_poster {
        PatchRoute::ReplacePoster
    } else if patch.is_empty() {
        PatchRoute::RejectEmpty
    } else if patch.has_presenter_changes() {
        PatchRoute::RefreshPresenter
    } else {
        PatchRoute::ApplyOnly
    }
}

/// Whether a patch is still applied after the poster that came with it could
/// not be processed: it is if it changes anything else.
pub fn survives_poster_failure(patch: &AnimeSeriesPatch) -> (yes: bool)
    ensures
        yes == !patch.spec_is_empty(),
{
    !patch.is_empty()
}

/// Whether the search index has to be filled again: it has if it does not
/// hold as many entries as there are series.
pub fn needs_sync(indexed: usize, stored: usize) -> (yes: bool)
    ensures
        yes == (indexed != stored),
{
    indexed != stored
}

/// The entries that wait to be sent to the search index. They leave in
/// batches of 32, in the order in which they came.
pub struct BatchQueue<T> {
    queue: Vec<T>,
}

impl<T> BatchQueue<T> {
    #[verifier::type_invariant]
    spec fn below_batch_size(&self) -> bool {
        self.queue@.len() < ANIMES_INDEX_BATCH_SIZE
    }

    /// The entries that wait, oldest first.
    pub closed spec fn pending(&self) -> Seq<T> {
        self.queue@
    }

    /// A queue in which nothing waits.
    pub fn new() -> (q: Self)
        ensures
            q.pending() == Seq::<T>::empty(),
    {
        BatchQueue { queue: Vec::new() }
    }

    /// Adds an entry. With the 32nd entry the batch is complete: it is handed
    /// out and the queue is empty again.
    pub fn push(self, item: T) -> (r: (Self, Option<Vec<T>>))
        ensures
            self.pending().len() < ANIMES_INDEX_BATCH_SIZE,
            match r.1 {
                Some(batch) => {
                    &&& batch@ == self.pending().push(item)
                    &&& batch@.len() == ANIMES_INDEX_BATCH_SIZE
                    &&& r.0.pending() == Seq::<T>::empty()
                },
                None => {
                    &&& r.0.pending() == self.pending().push(item)
                    &&& r.0.pending().len() < ANIMES_INDEX_BATCH_SIZE
                },
            },
    {
        proof {
            use_type_invariant(&self);
        }
        let mut queue = self.queue;
        queue.push(item);
        if queue.len() == ANIMES_INDEX_BATCH_SIZE {
            (BatchQueue { queue: Vec::new() }, Some(queue))
        } else {
            (BatchQueue { queue }, None)
        }
    }

    /// Hands out what still waits, as the last batch, if anything does.
    pub fn finish(self) -> (last: Option<Vec<T>>)
        ensures
            self.pending().len() == 0 ==> last is None,
            self.pending().len() > 0 ==> (last matches Some(batch) && batch@ == self.pending()),
    {
        if self.queue.len() == 0 {
            None
        } else {
            Some(self.queue)
        }
    }
}

} // verus!
