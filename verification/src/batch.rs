//! From a raw payload to a batch of fragments, and on to the sink.
//!
//! A payload holds one record per line. Each record is read as text, decoded,
//! and handed to the rule for its kind. A record that cannot be decoded or
//! mapped is left out; the others are not affected. The whole batch, empty or
//! not, is handed to the sink in one call.

use vstd::prelude::*;
use crate::event::{DecodeError, TelemetryEvent, TelemetryEventView};
use crate::graph::{GraphFragment, GraphFragmentView};
use crate::rules::{event_outcome, map_event};

verus! {

/// The byte that ends a record: a line feed.
pub const RECORD_SEPARATOR: u8 = 10;

/// The records of a payload: the runs of bytes between separators, empty runs
/// included. A payload without a separator is one record.
pub open spec fn records_of(payload: Seq<u8>) -> Seq<Seq<u8>>
    decreases payload.len(),
{
    if payload.len() == 0 {
        seq![Seq::empty()]
    } else {
        let before = records_of(payload.drop_last());
        if payload.last() == RECORD_SEPARATOR {
            before.push(Seq::empty())
        } else {
            before.update(before.len() - 1, before.last().push(payload.last()))
        }
    }
}

/// The models of a run of records, in order.
pub open spec fn record_views(records: Seq<Vec<u8>>) -> Seq<Seq<u8>> {
    records.map_values(|r: Vec<u8>| r@)
}

/// The models of a run of fragments, in order.
pub open spec fn fragment_views(fragments: Seq<GraphFragment>) -> Seq<GraphFragmentView> {
    fragments.map_values(|g: GraphFragment| g@)
}

/// A payload has at least one record.
pub proof fn lemma_records_not_empty(payload: Seq<u8>)
    ensures
        records_of(payload).len() >= 1,
    decreases payload.len(),
{
    if payload.len() > 0 {
        lemma_records_not_empty(payload.drop_last());
    }
}

/// How many separators a payload holds.
pub open spec fn separators(payload: Seq<u8>) -> nat
    decreases payload.len(),
{
    if payload.len() == 0 {
        0
    } else {
        separators(payload.drop_last()) + if payload.last() == RECORD_SEPARATOR {
            1nat
        } else {
            0nat
        }
    }
}

/// A payload has one record more than it has separators.
pub proof fn lemma_records_count(payload: Seq<u8>)
    ensures
        records_of(payload).len() == separators(payload) + 1,
    decreases payload.len(),
{
    if payload.len() > 0 {
        lemma_records_count(payload.drop_last());
    }
}

/// No record holds a separator.
pub proof fn lemma_records_hold_no_separator(payload: Seq<u8>)
    ensures
        forall|i: int, j: int|
            0 <= i < records_of(payload).len() && 0 <= j < records_of(payload)[i].len()
                ==> #[trigger] records_of(payload)[i][j] != RECORD_SEPARATOR,
    decreases payload.len(),
{
    if payload.len() > 0 {
        lemma_records_hold_no_separator(payload.drop_last());
        lemma_records_not_empty(payload.drop_last());
    }
}

/// Records written one behind the other, with a separator between each two.
pub open spec fn joined(records: Seq<Seq<u8>>) -> Seq<u8>
    decreases records.len(),
{
    if records.len() == 0 {
        Seq::empty()
    } else if records.len() == 1 {
        records[0]
    } else {
        joined(records.drop_last()).push(RECORD_SEPARATOR) + records.last()
    }
}

/// Splitting loses nothing: the records of a payload, joined, are the payload.
pub proof fn lemma_records_rejoin(payload: Seq<u8>)
    ensures
        joined(records_of(payload)) == payload,
    decreases payload.len(),
{
    if payload.len() == 0 {
        assert(joined(records_of(payload)) =~= payload);
    } else {
        let shorter = payload.drop_last();
        let before = records_of(shorter);
        let records = records_of(payload);
        lemma_records_rejoin(shorter);
        lemma_records_not_empty(shorter);
        if payload.last() == RECORD_SEPARATOR {
            assert(records.drop_last() =~= before);
            assert(records.last() =~= Seq::<u8>::empty());
            assert(joined(records) == joined(before).push(RECORD_SEPARATOR) + records.last());
            assert(joined(records) =~= payload);
        } else if before.len() == 1 {
            assert(joined(records) =~= payload);
        } else {
            assert(records.drop_last() =~= before.drop_last());
            assert(records.last() == before.last().push(payload.last()));
            assert(joined(before) == joined(before.drop_last()).push(RECORD_SEPARATOR)
                + before.last());
            assert(joined(records) == joined(records.drop_last()).push(RECORD_SEPARATOR)
                + records.last());
            assert(joined(records) =~= shorter.push(payload.last()));
            assert(shorter.push(payload.last()) =~= payload);
        }
    }
}

/// Splits a payload into its records.
pub fn split_records(payload: &[u8]) -> (records: Vec<Vec<u8>>)
    ensures
        record_views(records@) == records_of(payload@),
{
    let mut records: Vec<Vec<u8>> = Vec::new();
    let mut current: Vec<u8> = Vec::new();
    let n = payload.len();
    let mut i: usize = 0;
    assert(payload@.take(0) =~= Seq::empty());
    assert(record_views(records@).push(current@) =~= seq![Seq::empty()]);
    while i < n
        invariant
            n == payload@.len(),
            i <= n,
            record_views(records@).push(current@) == records_of(payload@.take(i as int)),
        decreases n - i,
    {
        let byte = payload[i];
        let ghost done = record_views(records@);
        let ghost open = current@;
        proof {
            let next = payload@.take(i + 1);
            assert(next.drop_last() =~= payload@.take(i as int));
            assert(next.last() == byte);
            assert(done.push(open).last() == open);
        }
        if byte == RECORD_SEPARATOR {
            records.push(current);
            current = Vec::new();
            assert(record_views(records@) =~= done.push(open));
        } else {
            current.push(byte);
            assert(record_views(records@).push(current@) =~= done.push(open).update(
                done.push(open).len() - 1,
                open.push(byte),
            ));
        }
        i += 1;
    }
    let ghost done = record_views(records@);
    let ghost open = current@;
    records.push(current);
    assert(record_views(records@) =~= done.push(open));
    assert(payload@.take(n as int) =~= payload@);
    records
}

/// The text that `String::from_utf8_lossy` reads out of `bytes`: the text that
/// the bytes encode, with the replacement character where they encode none.
pub uninterp spec fn utf8_lossy(bytes: Seq<u8>) -> Seq<char>;

/// Calls `String::from_utf8_lossy` and takes the text as an owned `String`.
///
/// Trusted: the text is a function of the bytes alone.
#[verifier::external_body]
fn lossy_text(bytes: &[u8]) -> (text: String)
    ensures
        text@ == utf8_lossy(bytes@),
{
    String::from_utf8_lossy(bytes).into_owned()
}

/// The model of what a decoder answered.
pub open spec fn decoded_view(decoded: Result<TelemetryEvent, DecodeError>) -> Option<
    TelemetryEventView,
> {
    match decoded {
        Ok(event) => Some(event@),
        Err(_) => None,
    }
}

/// The fragment that a record contributes to the batch, given what the decoder
/// made of it: none where it was not decoded or its rule failed.
pub open spec fn fragment_of(decoded: Option<TelemetryEventView>) -> Option<GraphFragmentView> {
    match decoded {
        None => None,
        Some(event) => match event_outcome(event) {
            Ok(graph) => Some(graph),
            Err(_) => None,
        },
    }
}

/// The batch that a run of decoded records gives: the fragments of those that
/// contribute one, in the order of the records.
pub open spec fn batch_of(decoded: Seq<Option<TelemetryEventView>>) -> Seq<GraphFragmentView>
    decreases decoded.len(),
{
    if decoded.len() == 0 {
        Seq::empty()
    } else {
        let before = batch_of(decoded.drop_last());
        match fragment_of(decoded.last()) {
            Some(graph) => before.push(graph),
            None => before,
        }
    }
}

/// The model of an optional fragment.
pub open spec fn fragment_view(fragment: Option<GraphFragment>) -> Option<GraphFragmentView> {
    match fragment {
        Some(graph) => Some(graph@),
        None => None,
    }
}

/// Maps what the decoder made of one record: a decoded event goes to the rule
/// for its kind, and a failure of either step leaves the record out.
pub fn map_decoded(decoded: Result<TelemetryEvent, DecodeError>) -> (fragment: Option<
    GraphFragment,
>)
    ensures
        fragment_view(fragment) == fragment_of(decoded_view(decoded)),
        fragment matches Some(graph) ==> graph@.well_formed(),
{
    match decoded {
        Err(_) => None,
        Ok(event) => match map_event(event) {
            Ok(graph) => Some(graph),
            Err(_) => None,
        },
    }
}

/// The sink did not take the batch. Nothing of the batch was delivered.
#[derive(Clone, Debug, PartialEq, Eq)]
pub struct SinkError {
    /// What the sink said.
    pub message: String,
}

/// Maps payloads to batches of fragments and hands each batch to a sink.
///
/// The decoder turns the text of one record into an event; the sink takes a
/// finished batch. Both belong to the caller.
#[derive(Clone)]
pub struct SysmonSubgraphGenerator<D, S> {
    decoder: D,
    output_handler: S,
}

impl<D, S> SysmonSubgraphGenerator<D, S> where
    D: Fn(String) -> Result<TelemetryEvent, DecodeError>,
    S: Fn(Vec<GraphFragment>) -> Result<(), SinkError>,
 {
    /// The decoder that records are handed to.
    pub closed spec fn decoder(&self) -> D {
        self.decoder
    }

    /// The sink that batches are handed to.
    pub closed spec fn output_handler(&self) -> S {
        self.output_handler
    }

    /// The decoder takes every text and the sink every batch.
    pub open spec fn ready(&self) -> bool {
        &&& forall|text: String| call_requires(self.decoder(), (text,))
        &&& forall|batch: Vec<GraphFragment>| call_requires(self.output_handler(), (batch,))
    }

    /// `outcome` is something that the decoder may answer for `text`.
    pub open spec fn decodes(&self, text: Seq<char>, outcome: Option<TelemetryEventView>) -> bool {
        exists|input: String, decoded: Result<TelemetryEvent, DecodeError>|
            input@ == text && call_ensures(self.decoder(), (input,), decoded) && decoded_view(
                decoded,
            ) == outcome
    }

    /// `decoded` holds, record by record, something that the decoder may answer
    /// for the text of that record of `payload`.
    pub open spec fn decodes_payload(
        &self,
        payload: Seq<u8>,
        decoded: Seq<Option<TelemetryEventView>>,
    ) -> bool {
        &&& decoded.len() == records_of(payload).len()
        &&& forall|i: int|
            0 <= i < decoded.len() ==> self.decodes(
                utf8_lossy(#[trigger] records_of(payload)[i]),
                decoded[i],
            )
    }

    /// `result` is something that the sink may answer when it is handed `batch`.
    pub open spec fn delivers(
        &self,
        batch: Seq<GraphFragmentView>,
        result: Result<(), SinkError>,
    ) -> bool {
        exists|handed: Vec<GraphFragment>|
            fragment_views(handed@) == batch && call_ensures(
                self.output_handler(),
                (handed,),
                result,
            )
    }

    /// A generator that decodes with `decoder` and delivers to `output_handler`.
    pub fn new(decoder: D, output_handler: S) -> (r: Self)
        ensures
            r.decoder() == decoder,
            r.output_handler() == output_handler,
    {
        SysmonSubgraphGenerator { decoder, output_handler }
    }

    /// Maps the records of `payload` to the batch of their fragments: each
    /// record is read as text, decoded and mapped, and the records that fail are
    /// left out.
    pub fn map_records(&self, payload: &[u8]) -> (batch: Vec<GraphFragment>)
        requires
            self.ready(),
        ensures
            exists|decoded: Seq<Option<TelemetryEventView>>|
                self.decodes_payload(payload@, decoded) && fragment_views(batch@) == batch_of(
                    decoded,
                ),
            batch@.len() <= records_of(payload@).len(),
            forall|k: int| 0 <= k < batch@.len() ==> (#[trigger] batch@[k])@.well_formed(),
    {
        let records = split_records(payload);
        let mut batch: Vec<GraphFragment> = Vec::new();
        let ghost mut decoded: Seq<Option<TelemetryEventView>> = Seq::empty();
        let n = records.len();
        let mut i: usize = 0;
        assert(fragment_views(batch@) =~= Seq::empty());
        while i < n
            invariant
                self.ready(),
                n == records@.len(),
                record_views(records@) == records_of(payload@),
                i <= n,
                decoded.len() == i,
                forall|k: int|
                    0 <= k < i ==> self.decodes(
                        utf8_lossy(#[trigger] records_of(payload@)[k]),
                        decoded[k],
                    ),
                fragment_views(batch@) == batch_of(decoded),
                batch@.len() <= i,
                forall|k: int| 0 <= k < batch@.len() ==> (#[trigger] batch@[k])@.well_formed(),
            decreases n - i,
        {
            let text = lossy_text(records[i].as_slice());
            let ghost input = text;
            assert(call_requires(self.decoder(), (text,)));
            let answer = (self.decoder)(text);
            let ghost outcome = decoded_view(answer);
            let ghost before = decoded;
            let ghost mapped = fragment_views(batch@);
            proof {
                assert(record_views(records@)[i as int] == records@[i as int]@);
                assert(call_ensures(self.decoder(), (input,), answer));
                assert(self.decodes(utf8_lossy(records_of(payload@)[i as int]), outcome));
                decoded = decoded.push(outcome);
                assert(decoded.drop_last() =~= before);
            }
            match map_decoded(answer) {
                Some(graph) => {
                    batch.push(graph);
                    assert(fragment_views(batch@) =~= mapped.push(graph@));
                },
                None => {},
            }
            i += 1;
        }
        batch
    }

    /// Hands `batch` to the sink, once, and returns what the sink answered.
    pub fn hand_off(&self, batch: Vec<GraphFragment>) -> (result: Result<(), SinkError>)
        requires
            self.ready(),
        ensures
            call_ensures(self.output_handler(), (batch,), result),
    {
        assert(call_requires(self.output_handler(), (batch,)));
        (self.output_handler)(batch)
    }

    /// Maps the records of `event` and hands the batch to the sink, once, whether
    /// or not any record gave a fragment. A failure of the sink is the failure of
    /// the whole call.
    pub fn handle_event(&self, event: Vec<u8>) -> (result: Result<(), SinkError>)
        requires
            self.ready(),
        ensures
            exists|decoded: Seq<Option<TelemetryEventView>>|
                self.decodes_payload(event@, decoded) && self.delivers(batch_of(decoded), result),
    {
        let batch = self.map_records(event.as_slice());
        let ghost handed = batch;
        let result = self.hand_off(batch);
        proof {
            let decoded = choose|decoded: Seq<Option<TelemetryEventView>>|
                self.decodes_payload(event@, decoded) && fragment_views(handed@) == batch_of(
                    decoded,
                );
            assert(self.delivers(batch_of(decoded), result));
        }
        result
    }
}

} // verus!
