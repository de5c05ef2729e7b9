//! A response body as the sequence of reads that delivers it, and what an
//! exchange keeps and logs of it.

use crate::exchange::{
    after_chunk, head, report_of, reported, summarize, BodyReport, BodyReportView, ExchangeView,
    Stage, BODY_LIMIT,
};
use vstd::prelude::*;
use vstd::utf8::{decode_utf8, valid_utf8};

verus! {

/// The exchange after the reads `chunks`, in order.
pub open spec fn after_chunks(v: ExchangeView, chunks: Seq<Seq<u8>>) -> ExchangeView
    decreases chunks.len(),
{
    if chunks.len() == 0 {
        v
    } else {
        after_chunk(after_chunks(v, chunks.drop_last()), chunks.last())
    }
}

/// What is logged during the reads `chunks`: the first report that one of
/// them gives rise to.
pub open spec fn reported_during(v: ExchangeView, chunks: Seq<Seq<u8>>) -> Option<BodyReportView>
    decreases chunks.len(),
{
    if chunks.len() == 0 {
        None
    } else {
        match reported_during(v, chunks.drop_last()) {
            Some(report) => Some(report),
            None => reported(after_chunks(v, chunks.drop_last()), chunks.last()),
        }
    }
}

/// The bytes that the reads `chunks` deliver, in order.
pub open spec fn joined(chunks: Seq<Seq<u8>>) -> Seq<u8>
    decreases chunks.len(),
{
    if chunks.len() == 0 {
        Seq::empty()
    } else {
        joined(chunks.drop_last()) + chunks.last()
    }
}

/// Reads that each deliver something: a body under way, before its end.
pub open spec fn all_deliver(chunks: Seq<Seq<u8>>) -> bool {
    forall|i: int| 0 <= i < chunks.len() ==> (#[trigger] chunks[i]).len() > 0
}

/// An exchange that has been answered and has not read from the body yet.
pub open spec fn awaits_body(v: ExchangeView) -> bool {
    v.stage == Stage::Filling && v.captured.len() == 0
}

/// `embedded_svc::utils::io::try_read_full`, reading from bytes in memory:
/// it fills `buffer` from its start with the first bytes of `source`, as
/// many as `source` has and `buffer` has room for, returns their number, and
/// leaves the rest of `buffer` as it was.
#[verifier::external_body]
fn read_full(source: &[u8], buffer: &mut Vec<u8>) -> (n: usize)
    ensures
        n == if source@.len() <= old(buffer)@.len() {
            source@.len()
        } else {
            old(buffer)@.len()
        },
        final(buffer)@.len() == old(buffer)@.len(),
        final(buffer)@.take(n as int) == source@.take(n as int),
        final(buffer)@.skip(n as int) == old(buffer)@.skip(n as int),
{
    match embedded_svc::utils::io::try_read_full(source, buffer.as_mut_slice()) {
        Ok(n) => n,
        Err((_, n)) => n,
    }
}

/// What is logged of a response body that is at hand as a whole: the
/// report on its head.
pub fn report_for(body: &[u8]) -> (r: BodyReport)
    ensures
        r@ == report_of(head(body@)),
{
    let mut buffer: Vec<u8> = Vec::new();
    buffer.resize(BODY_LIMIT, 0u8);
    let n: usize = read_full(body, &mut buffer);
    buffer.truncate(n);
    assert(buffer@ =~= head(body@));
    summarize(buffer.as_slice())
}

/// While a body is under way, an exchange holds the head of what was
/// delivered so far, goes on filling as long as that is less than
/// `BODY_LIMIT` bytes and drops everything from then on, and has logged the
/// report on the head if and only if the filling is over.
pub proof fn lemma_head_is_kept(v: ExchangeView, chunks: Seq<Seq<u8>>)
    requires
        awaits_body(v),
        all_deliver(chunks),
    ensures
        after_chunks(v, chunks) == (ExchangeView {
            stage: if joined(chunks).len() >= BODY_LIMIT {
                Stage::Draining
            } else {
                Stage::Filling
            },
            captured: head(joined(chunks)),
            ..v
        }),
        reported_during(v, chunks) == if joined(chunks).len() >= BODY_LIMIT {
            Some(report_of(head(joined(chunks))))
        } else {
            None
        },
    decreases chunks.len(),
{
    if chunks.len() == 0 {
        assert(v.captured =~= head(joined(chunks)));
    } else {
        let earlier = chunks.drop_last();
        lemma_head_is_kept(v, earlier);
        let last = chunks.last();
        assert(last.len() > 0);
        assert(after_chunks(v, chunks).captured =~= head(joined(chunks)));
    }
}

/// A body is read to its end, whatever it holds and however the reads cut
/// it up. The end of a body under way is a read of no bytes. Where the body
/// has fewer than `BODY_LIMIT` bytes, that read ends the filling, all of
/// the body is kept and reported, and one more read of no bytes ends the
/// exchange. Where it has `BODY_LIMIT` bytes or more, its first `BODY_LIMIT`
/// bytes are kept and reported, the others are dropped, and that read ends
/// the exchange. Either way one report is logged, on the head of the body,
/// and the exchange ends finished, not failed.
pub proof fn lemma_body_is_read_to_its_end(v: ExchangeView, chunks: Seq<Seq<u8>>)
    requires
        awaits_body(v),
        all_deliver(chunks),
    ensures
        ({
            let body = joined(chunks);
            let end = Seq::<u8>::empty();
            let stream = if body.len() < BODY_LIMIT {
                chunks.push(end).push(end)
            } else {
                chunks.push(end)
            };
            &&& after_chunks(v, stream) == (ExchangeView {
                stage: Stage::Finished,
                captured: head(body),
                ..v
            })
            &&& reported_during(v, stream) == Some(report_of(head(body)))
            &&& reported_during(v, chunks.push(end)) == Some(report_of(head(body)))
            &&& body.len() <= BODY_LIMIT ==> head(body) == body
            &&& body.len() > BODY_LIMIT ==> head(body) == body.take(BODY_LIMIT as int)
                && report_of(head(body)).bytes_read == BODY_LIMIT
        }),
{
    let body = joined(chunks);
    let end = Seq::<u8>::empty();
    lemma_head_is_kept(v, chunks);
    let once = chunks.push(end);
    assert(once.drop_last() == chunks);
    assert(once.last() == end);
    let at_end = after_chunks(v, once);
    assert(at_end.captured =~= head(body));
    if body.len() < BODY_LIMIT {
        let twice = once.push(end);
        assert(twice.drop_last() == once);
        assert(twice.last() == end);
    }
}

/// How the reads cut a body up is immaterial: two runs of reads that
/// deliver the same bytes leave the exchange in the same state and log the
/// same report, the one that `report_for` gives for the body as a whole.
pub proof fn lemma_reads_may_cut_anywhere(
    v: ExchangeView,
    first: Seq<Seq<u8>>,
    second: Seq<Seq<u8>>,
)
    requires
        awaits_body(v),
        all_deliver(first),
        all_deliver(second),
        joined(first) == joined(second),
    ensures
        after_chunks(v, first) == after_chunks(v, second),
        reported_during(v, first) == reported_during(v, second),
        reported_during(v, first.push(Seq::empty())) == Some(report_of(head(joined(first)))),
        reported_during(v, second.push(Seq::empty())) == Some(report_of(head(joined(first)))),
{
    lemma_head_is_kept(v, first);
    lemma_head_is_kept(v, second);
    lemma_body_is_read_to_its_end(v, first);
    lemma_body_is_read_to_its_end(v, second);
}

/// A body of valid text that fits the limit is logged whole: the text of the
/// report is the text that the body encodes.
pub proof fn lemma_short_text_is_logged_whole(v: ExchangeView, chunks: Seq<Seq<u8>>)
    requires
        awaits_body(v),
        all_deliver(chunks),
        joined(chunks).len() <= BODY_LIMIT,
        valid_utf8(joined(chunks)),
    ensures
        reported_during(v, chunks.push(Seq::empty())) == Some(
            BodyReportView {
                bytes_read: joined(chunks).len(),
                text: Some(decode_utf8(joined(chunks))),
            },
        ),
{
    lemma_body_is_read_to_its_end(v, chunks);
}

/// A head that is no valid UTF-8 is reported without text, and the exchange
/// goes on to its end all the same.
pub proof fn lemma_undecodable_head_is_not_fatal(v: ExchangeView, chunks: Seq<Seq<u8>>)
    requires
        awaits_body(v),
        all_deliver(chunks),
        !valid_utf8(head(joined(chunks))),
    ensures
        reported_during(v, chunks.push(Seq::empty())) == Some(
            BodyReportView { bytes_read: head(joined(chunks)).len(), text: None },
        ),
        after_chunks(v, chunks.push(Seq::empty()).push(Seq::empty())).stage == Stage::Finished,
{
    lemma_body_is_read_to_its_end(v, chunks);
    let end = Seq::<u8>::empty();
    let once = chunks.push(end);
    let twice = once.push(end);
    assert(twice.drop_last() == once);
    assert(twice.last() == end);
}

} // verus!
