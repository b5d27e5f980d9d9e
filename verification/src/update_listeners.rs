//! The cursor-tracking poller and the batch adapters layered over it.
//!
//! The poller repeatedly asks the remote service for a batch of
//! entries, starting each request at its cursor. A batch entry is
//! either a well-formed [`Update`] or a malformed record from which
//! only the identity could be recovered. After a successful batch the
//! cursor moves to one past the largest identity seen — malformed
//! entries included, because the remote redelivers every entry at or
//! past the cursor on each call, so an entry skipped by the cursor
//! would be retried forever. A transport failure leaves the cursor
//! untouched, so no entry is lost; an entry whose identity cannot be
//! recovered at all aborts the cycle, because the cursor can no longer
//! be advanced safely.
//!
//! The network call itself and the lazy-stream plumbing around it live
//! outside this crate: the caller builds a request from
//! [`Poller::next_request`], performs it, and hands the outcome to
//! [`Poller::apply_batch`].

use vstd::prelude::*;

use crate::errors::{PollError, TransportError};
use crate::types::{AllowedUpdate, Update, UpdateKind};

verus! {

/// One entry of a retrieved batch: a well-formed update, or a
/// malformed record reduced to the identity that could still be
/// recovered from its raw data (`None` when not even that).
#[derive(Clone, Debug, PartialEq)]
pub enum BatchEntry {
    /// An entry that parsed into a typed update.
    Parsed(Update),
    /// An entry that failed to parse; the payload is the update
    /// identity recovered from the raw record, if any.
    Malformed(Option<i32>),
}

/// Whether the entry's identity is known, which the cursor depends on.
pub open spec fn id_known(e: BatchEntry) -> bool {
    !(e matches BatchEntry::Malformed(None))
}

/// The identity of an entry; meaningful only when `id_known(e)`.
pub open spec fn id_of(e: BatchEntry) -> int {
    match e {
        BatchEntry::Parsed(u) => u.id as int,
        BatchEntry::Malformed(Some(id)) => id as int,
        BatchEntry::Malformed(None) => -1,
    }
}

/// Whether every entry of the batch has a recoverable identity.
pub open spec fn all_ids_known(s: Seq<BatchEntry>) -> bool {
    forall|i: int| 0 <= i < s.len() ==> id_known(#[trigger] s[i])
}

/// The largest identity in the batch; meaningful only for a non-empty
/// batch whose identities are all known.
pub open spec fn max_id(s: Seq<BatchEntry>) -> int
    decreases s.len(),
{
    if s.len() == 0 {
        -1
    } else if s.len() == 1 {
        id_of(s[0])
    } else if id_of(s.last()) > max_id(s.drop_last()) {
        id_of(s.last())
    } else {
        max_id(s.drop_last())
    }
}

/// The well-formed updates of the batch, in batch order.
pub open spec fn parsed_updates(s: Seq<BatchEntry>) -> Seq<Update>
    decreases s.len(),
{
    if s.len() == 0 {
        Seq::empty()
    } else {
        parsed_updates(s.drop_last()) + (match s.last() {
            BatchEntry::Parsed(u) => seq![u],
            BatchEntry::Malformed(_) => Seq::empty(),
        })
    }
}

/// The recovered identities of the batch's malformed entries, in batch
/// order, for the caller's diagnostic sink.
pub open spec fn malformed_ids(s: Seq<BatchEntry>) -> Seq<i32>
    decreases s.len(),
{
    if s.len() == 0 {
        Seq::empty()
    } else {
        malformed_ids(s.drop_last()) + (match s.last() {
            BatchEntry::Malformed(Some(id)) => seq![id],
            _ => Seq::empty(),
        })
    }
}

/// The maximum of a batch is at least each of its identities.
pub proof fn lemma_max_id_ge(s: Seq<BatchEntry>, i: int)
    requires
        0 <= i < s.len(),
    ensures
        max_id(s) >= id_of(s[i]),
    decreases s.len(),
{
    if s.len() > 1 && i < s.len() - 1 {
        lemma_max_id_ge(s.drop_last(), i);
    }
}

/// The request parameters for one retrieval call, as the poller wants
/// them issued: the current cursor, the batch size limit, the
/// long-poll timeout in seconds, and the kinds asked for.
#[derive(Clone, Debug, PartialEq)]
pub struct GetUpdatesParams {
    /// The identity the remote should start redelivering from.
    pub offset: i64,
    /// How many entries one batch may hold, between 1 and 100.
    pub limit: Option<u8>,
    /// How long the remote may hold the call open, in seconds.
    pub timeout: Option<u32>,
    /// The update kinds asked for; `None` keeps the remote's default.
    pub allowed_updates: Option<Vec<AllowedUpdate>>,
}

/// What one successful polling cycle produced: the well-formed updates
/// to yield, and the identities of the malformed entries the cursor
/// advanced past — dropped from the event stream, but handed back so
/// the caller can surface each to its error handlers first.
#[derive(Clone, Debug, PartialEq)]
pub struct BatchOutcome {
    /// The well-formed updates of the batch, in batch order.
    pub updates: Vec<Update>,
    /// The recovered identities of the malformed entries, in batch
    /// order.
    pub malformed: Vec<i32>,
}

/// The state of one polling sequence: a cursor that starts at zero and
/// the configuration every request is issued with. Each listener built
/// by [`polling`] is fresh and independent, with its own cursor.
pub struct Poller {
    /// The cursor: one past the largest identity acknowledged so far.
    pub offset: i64,
    /// The batch size limit, between 1 and 100 when present.
    pub limit: Option<u8>,
    /// The long-poll timeout in seconds.
    pub timeout: Option<u32>,
    /// The kinds to ask for; every request carries them.
    pub allowed_updates: Option<Vec<AllowedUpdate>>,
}

/// Builds a long/short polling listener with the given options.
///
/// - `timeout`: how long the remote may hold each call open, in whole
///   seconds; at most `u32::MAX`.
/// - `limit`: how many entries one batch may hold; values between 1
///   and 100 are accepted.
/// - `allowed_updates`: the kinds of updates to receive.
pub fn polling(
    timeout: Option<u64>,
    limit: Option<u8>,
    allowed_updates: Option<Vec<AllowedUpdate>>,
) -> (r: Poller)
    requires
        timeout matches Some(t) ==> t <= u32::MAX,
        limit matches Some(l) ==> 1 <= l <= 100,
    ensures
        r.offset == 0,
        match timeout {
            Some(t) => r.timeout == Some(t as u32),
            None => r.timeout is None,
        },
        r.limit == limit,
        r.allowed_updates == allowed_updates,
{
    let timeout: Option<u32> = match timeout {
        Some(t) => Some(t as u32),
        None => None,
    };
    Poller { offset: 0, limit, timeout, allowed_updates }
}

/// Builds a long polling listener with a timeout of 10 seconds.
///
/// See also: [`polling`].
pub fn default_polling() -> (r: Poller)
    ensures
        r.offset == 0,
        r.timeout == Some(10u32),
        r.limit is None,
        r.allowed_updates is None,
{
    polling(Some(10), None, None)
}

/// An older name for [`default_polling`], kept for callers that still
/// use it.
pub fn polling_default() -> (r: Poller)
    ensures
        r.offset == 0,
        r.timeout == Some(10u32),
        r.limit is None,
        r.allowed_updates is None,
{
    default_polling()
}

impl Poller {
    /// The parameters the next retrieval call must be issued with:
    /// the current cursor and the configuration the listener was built
    /// with, the allowed kinds included — every request carries the
    /// filter.
    pub fn next_request(&self) -> (p: GetUpdatesParams)
        ensures
            p.offset == self.offset,
            p.limit == self.limit,
            p.timeout == self.timeout,
            match (p.allowed_updates, self.allowed_updates) {
                (Some(pa), Some(sa)) => pa@ == sa@,
                (None, None) => true,
                _ => false,
            },
    {
        let allowed_updates = match &self.allowed_updates {
            Some(v) => {
                let c = v.clone();
                proof {
                    assert(c@ =~= v@);
                }
                Some(c)
            },
            None => None,
        };
        GetUpdatesParams {
            offset: self.offset,
            limit: self.limit,
            timeout: self.timeout,
            allowed_updates,
        }
    }

    /// Consumes the outcome of one retrieval call and advances the
    /// cursor.
    ///
    /// On a transport failure the cursor is unchanged and the error is
    /// passed on, so the next cycle retries from the same place. On a
    /// successful non-empty batch the cursor becomes one past the
    /// largest identity seen over all entries, malformed ones
    /// included; exactly the well-formed updates come back, in batch
    /// order, beside the malformed entries' identities, so the caller
    /// surfaces those to its error handlers before they are dropped.
    /// An empty batch leaves the cursor unchanged. An entry with no
    /// recoverable identity aborts the cycle with an integrity fault
    /// and leaves the cursor unchanged, since the cursor cannot safely
    /// advance past it.
    #[verifier::loop_isolation(false)]
    pub fn apply_batch(&mut self, batch: Result<Vec<BatchEntry>, TransportError>) -> (r: Result<
        BatchOutcome,
        PollError,
    >)
        ensures
            final(self).limit == old(self).limit,
            final(self).timeout == old(self).timeout,
            final(self).allowed_updates == old(self).allowed_updates,
            match batch {
                Err(e) => final(self).offset == old(self).offset && r == Err::<
                    BatchOutcome,
                    PollError,
                >(PollError::Transport(e)),
                Ok(entries) => if !all_ids_known(entries@) {
                    final(self).offset == old(self).offset && r == Err::<
                        BatchOutcome,
                        PollError,
                    >(PollError::Integrity)
                } else {
                    &&& (match r {
                        Ok(o) => o.updates@ == parsed_updates(entries@) && o.malformed@
                            == malformed_ids(entries@),
                        Err(_) => false,
                    })
                    &&& final(self).offset == if entries@.len() == 0 {
                        old(self).offset as int
                    } else {
                        max_id(entries@) + 1
                    }
                },
            },
    {
        let mut entries = match batch {
            Ok(entries) => entries,
            Err(e) => {
                return Err(PollError::Transport(e));
            },
        };
        let ghost orig: Seq<BatchEntry> = entries@;
        if entries.len() == 0 {
            assert(parsed_updates(orig) =~= Seq::<Update>::empty());
            assert(malformed_ids(orig) =~= Seq::<i32>::empty());
            return Ok(BatchOutcome { updates: Vec::new(), malformed: Vec::new() });
        }
        let n: usize = entries.len();
        let mut updates: Vec<Update> = Vec::new();
        let mut malformed: Vec<i32> = Vec::new();
        let mut max_seen: i32 = 0;
        let mut i: usize = 0;
        while entries.len() > 0
            invariant
                orig.len() == n,
                i + entries@.len() == orig.len(),
                entries@ == orig.subrange(i as int, orig.len() as int),
                forall|j: int| 0 <= j < i ==> id_known(#[trigger] orig[j]),
                updates@ == parsed_updates(orig.take(i as int)),
                malformed@ == malformed_ids(orig.take(i as int)),
                i > 0 ==> max_seen as int == max_id(orig.take(i as int)),
            decreases entries@.len(),
        {
            let e = entries.remove(0);
            proof {
                assert(e == orig[i as int]);
                assert(entries@ =~= orig.subrange(i as int + 1, orig.len() as int));
                assert(orig.take(i as int + 1).drop_last() =~= orig.take(i as int));
                assert(orig.take(i as int + 1).last() == orig[i as int]);
            }
            match e {
                BatchEntry::Parsed(u) => {
                    let uid = u.id;
                    updates.push(u);
                    if i == 0 || uid > max_seen {
                        max_seen = uid;
                    }
                },
                BatchEntry::Malformed(recovered) => match recovered {
                    Some(uid) => {
                        malformed.push(uid);
                        if i == 0 || uid > max_seen {
                            max_seen = uid;
                        }
                    },
                    None => {
                        proof {
                            assert(!id_known(orig[i as int]));
                            assert(!all_ids_known(orig));
                        }
                        return Err(PollError::Integrity);
                    },
                },
            }
            i = i + 1;
        }
        proof {
            assert(orig.take(i as int) =~= orig);
        }
        self.offset = (max_seen as i64) + 1;
        Ok(BatchOutcome { updates, malformed })
    }
}

/// With a remote that redelivers only entries at or past the cursor,
/// the advanced cursor strictly grows: the cursor never decreases over
/// the life of a polling sequence.
pub proof fn lemma_cursor_monotone(entries: Seq<BatchEntry>, offset: int)
    requires
        entries.len() > 0,
        forall|i: int| 0 <= i < entries.len() ==> id_of(#[trigger] entries[i]) >= offset,
    ensures
        max_id(entries) + 1 > offset,
{
    lemma_max_id_ge(entries, 0);
}

/// Whether the batch's entries come in strictly increasing identity
/// order, as the remote yields them.
pub open spec fn ids_increasing(s: Seq<BatchEntry>) -> bool {
    forall|i: int, j: int| 0 <= i < j < s.len() ==> id_of(#[trigger] s[i]) < id_of(#[trigger] s[j])
}

/// The poller preserves identity order: out of a batch whose entries
/// arrive in increasing identity order, the updates it yields are in
/// increasing identity order too, each at most the batch's last
/// identity.
pub proof fn lemma_updates_increasing(s: Seq<BatchEntry>)
    requires
        ids_increasing(s),
    ensures
        forall|i: int, j: int|
            0 <= i < j < parsed_updates(s).len() ==> (#[trigger] parsed_updates(s)[i]).id < (
            #[trigger] parsed_updates(s)[j]).id,
        forall|k: int|
            0 <= k < parsed_updates(s).len() ==> s.len() > 0 && (#[trigger] parsed_updates(
                s,
            )[k]).id <= id_of(s.last()),
    decreases s.len(),
{
    if s.len() > 0 {
        let prefix = s.drop_last();
        assert(ids_increasing(prefix)) by {
            assert(forall|i: int| 0 <= i < prefix.len() ==> prefix[i] == s[i]);
        }
        lemma_updates_increasing(prefix);
        if prefix.len() > 0 {
            assert(id_of(prefix.last()) == id_of(s[s.len() - 2]));
            assert(id_of(s[s.len() - 2]) < id_of(s[s.len() - 1]));
        }
        match s.last() {
            BatchEntry::Parsed(u) => {
                assert(parsed_updates(s) =~= parsed_updates(prefix).push(u));
                assert(u.id == id_of(s.last()));
            },
            BatchEntry::Malformed(_) => {
                assert(parsed_updates(s) =~= parsed_updates(prefix));
            },
        }
    }
}

/// The successful updates of a polled sequence, in order.
pub open spec fn ok_updates(s: Seq<Result<Update, TransportError>>) -> Seq<Update>
    decreases s.len(),
{
    if s.len() == 0 {
        Seq::empty()
    } else {
        ok_updates(s.drop_last()) + (match s.last() {
            Ok(u) => seq![u],
            Err(_) => Seq::empty(),
        })
    }
}

/// The transport errors of a polled sequence, in order.
pub open spec fn err_items(s: Seq<Result<Update, TransportError>>) -> Seq<TransportError>
    decreases s.len(),
{
    if s.len() == 0 {
        Seq::empty()
    } else {
        err_items(s.drop_last()) + (match s.last() {
            Ok(_) => Seq::<TransportError>::empty(),
            Err(e) => seq![e],
        })
    }
}

/// Splits a polled sequence into its updates and its errors, each in
/// the relative order they arrived in.
///
/// The errors come back to the caller so its error handler sees every
/// one of them before the items are dropped from the event stream;
/// only the updates flow on toward conversation logic.
pub fn discard_errors(items: Vec<Result<Update, TransportError>>) -> (r: (
    Vec<Update>,
    Vec<TransportError>,
))
    ensures
        r.0@ == ok_updates(items@),
        r.1@ == err_items(items@),
{
    let ghost orig: Seq<Result<Update, TransportError>> = items@;
    let mut items = items;
    let n: usize = items.len();
    let mut updates: Vec<Update> = Vec::new();
    let mut errors: Vec<TransportError> = Vec::new();
    let mut i: usize = 0;
    while items.len() > 0
        invariant
            orig.len() == n,
            i + items@.len() == orig.len(),
            items@ == orig.subrange(i as int, orig.len() as int),
            updates@ == ok_updates(orig.take(i as int)),
            errors@ == err_items(orig.take(i as int)),
        decreases items@.len(),
    {
        let item = items.remove(0);
        proof {
            assert(item == orig[i as int]);
            assert(items@ =~= orig.subrange(i as int + 1, orig.len() as int));
            assert(orig.take(i as int + 1).drop_last() =~= orig.take(i as int));
            assert(orig.take(i as int + 1).last() == orig[i as int]);
        }
        match item {
            Ok(u) => updates.push(u),
            Err(e) => errors.push(e),
        }
        i = i + 1;
    }
    proof {
        assert(orig.take(i as int) =~= orig);
    }
    (updates, errors)
}

/// The payload kinds of a sequence of updates, in order.
pub open spec fn kinds_of(s: Seq<Update>) -> Seq<UpdateKind> {
    s.map_values(|u: Update| u.kind)
}

/// The default pipeline over one polled sequence: drops the transport
/// errors (returning them for the caller's diagnostic sink) and
/// projects each surviving update to its payload kind, preserving
/// relative order throughout.
pub fn default_config(items: Vec<Result<Update, TransportError>>) -> (r: (
    Vec<UpdateKind>,
    Vec<TransportError>,
))
    ensures
        r.0@ == kinds_of(ok_updates(items@)),
        r.1@ == err_items(items@),
{
    let ghost orig: Seq<Result<Update, TransportError>> = items@;
    let (updates, errors) = discard_errors(items);
    let ghost oks: Seq<Update> = updates@;
    let mut updates = updates;
    let n: usize = updates.len();
    let mut kinds: Vec<UpdateKind> = Vec::new();
    let mut i: usize = 0;
    while updates.len() > 0
        invariant
            oks.len() == n,
            i + updates@.len() == oks.len(),
            updates@ == oks.subrange(i as int, oks.len() as int),
            kinds@ == kinds_of(oks.take(i as int)),
        decreases updates@.len(),
    {
        let u = updates.remove(0);
        proof {
            assert(u == oks[i as int]);
            assert(updates@ =~= oks.subrange(i as int + 1, oks.len() as int));
        }
        kinds.push(u.kind);
        proof {
            assert(kinds@ =~= kinds_of(oks.take(i as int + 1)));
        }
        i = i + 1;
    }
    proof {
        assert(oks.take(i as int) =~= oks);
    }
    (kinds, errors)
}

} // verus!
