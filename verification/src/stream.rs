//! The streaming executor's batching core. Rows arrive one at a time from a
//! cursor held outside; this machine decides which events the sink sees:
//! one metadata event before any batch, batches of exactly the bound while
//! rows keep coming, a final partial batch and one completion on finish —
//! and nothing further once cancelled. The ghost history records every event
//! handed out, so the accounting (the rows of all batches concatenate to
//! exactly the rows fed; the completion's total equals their count) is
//! proved, not sampled.
use vstd::prelude::*;

use crate::types::{JsonScalar, StreamingBatch, StreamingComplete, StreamingMetadata};

verus! {

/// The row bound of one streaming batch.
pub const STREAM_BATCH_SIZE: usize = 1000;

/// One event of a streaming query, in the order the sink receives them.
#[derive(Debug, Clone, PartialEq)]
pub enum StreamEvent {
    Metadata(StreamingMetadata),
    Batch(StreamingBatch),
    Complete(StreamingComplete),
}

/// The mathematical shadow of a stream event.
#[verifier::ext_equal]
pub ghost enum EventView {
    Meta { qid: int, columns: Seq<String> },
    Batch { qid: int, rows: Seq<Vec<JsonScalar>> },
    Complete { qid: int, total: int },
}

impl View for StreamEvent {
    type V = EventView;

    open spec fn view(&self) -> EventView {
        match *self {
            StreamEvent::Metadata(ref m) => EventView::Meta {
                qid: m.query_id as int,
                columns: m.columns@,
            },
            StreamEvent::Batch(ref b) => EventView::Batch {
                qid: b.query_id as int,
                rows: b.rows@,
            },
            StreamEvent::Complete(ref c) => EventView::Complete {
                qid: c.query_id as int,
                total: c.total_rows as int,
            },
        }
    }
}

pub open spec fn views_of(evs: Seq<StreamEvent>) -> Seq<EventView> {
    evs.map_values(|e: StreamEvent| e@)
}

/// The rows of all batch events, concatenated in order.
pub open spec fn batch_rows(h: Seq<EventView>) -> Seq<Vec<JsonScalar>>
    decreases h.len(),
{
    if h.len() == 0 {
        Seq::empty()
    } else {
        batch_rows(h.drop_last()) + (match h.last() {
            EventView::Batch { rows, .. } => rows,
            _ => Seq::empty(),
        })
    }
}

/// A batch event of this query whose rows number `len` at most, every row
/// `ncols` wide.
pub open spec fn batch_shaped(e: EventView, qid: int, len_at_most: int, ncols: int) -> bool {
    match e {
        EventView::Batch { qid: q, rows } => q == qid && 0 < rows.len() <= len_at_most
            && (forall|i: int| 0 <= i < rows.len() ==> (#[trigger] rows[i])@.len() == ncols),
        _ => false,
    }
}

/// The batching state of one streaming query.
pub struct StreamBatcher {
    query_id: u128,
    batch_size: usize,
    ncols: usize,
    metadata_sent: bool,
    batch: Vec<Vec<JsonScalar>>,
    total_rows: u64,
    cols: Ghost<Seq<String>>,
    fed: Ghost<Seq<Vec<JsonScalar>>>,
    history: Ghost<Seq<EventView>>,
}

impl StreamBatcher {
    pub closed spec fn qid(&self) -> int {
        self.query_id as int
    }

    pub closed spec fn batch_bound(&self) -> int {
        self.batch_size as int
    }

    pub closed spec fn meta_sent(&self) -> bool {
        self.metadata_sent
    }

    pub closed spec fn ncols_spec(&self) -> int {
        self.ncols as int
    }

    pub closed spec fn columns_spec(&self) -> Seq<String> {
        self.cols@
    }

    /// Every row fed so far, in order.
    pub closed spec fn fed_rows(&self) -> Seq<Vec<JsonScalar>> {
        self.fed@
    }

    /// Every event handed out so far, in order.
    pub closed spec fn history_spec(&self) -> Seq<EventView> {
        self.history@
    }

    /// Rows accepted but not yet flushed in a batch event.
    pub closed spec fn pending(&self) -> Seq<Vec<JsonScalar>> {
        self.batch@
    }

    pub closed spec fn inv(&self) -> bool {
        &&& self.batch_size > 0
        &&& self.total_rows == self.fed@.len()
        &&& self.batch@.len() < self.batch_size
        &&& batch_rows(self.history@) + self.batch@ == self.fed@
        &&& (!self.metadata_sent ==> self.history@.len() == 0 && self.fed@.len() == 0
            && self.batch@.len() == 0)
        &&& (self.metadata_sent ==> self.history@.len() >= 1 && self.history@[0] == (
        EventView::Meta { qid: self.query_id as int, columns: self.cols@ })
            && self.cols@.len() == self.ncols)
        &&& (forall|i: int|
            1 <= i < self.history@.len() ==> batch_shaped(
                #[trigger] self.history@[i],
                self.query_id as int,
                self.batch_size as int,
                self.ncols as int,
            ))
        &&& (forall|i: int|
            0 <= i < self.fed@.len() ==> (#[trigger] self.fed@[i])@.len() == self.ncols)
    }

    /// A fresh machine for one query; nothing fed, nothing emitted.
    pub fn new(query_id: u128, batch_size: usize) -> (r: Self)
        requires
            batch_size > 0,
        ensures
            r.inv(),
            !r.meta_sent(),
            r.qid() == query_id as int,
            r.batch_bound() == batch_size as int,
            r.fed_rows() == Seq::<Vec<JsonScalar>>::empty(),
            r.history_spec() == Seq::<EventView>::empty(),
    {
        StreamBatcher {
            query_id,
            batch_size,
            ncols: 0,
            metadata_sent: false,
            batch: Vec::new(),
            total_rows: 0,
            cols: Ghost(Seq::empty()),
            fed: Ghost(Seq::empty()),
            history: Ghost(Seq::empty()),
        }
    }

    /// Emits the single metadata event, carrying the column names derived
    /// from the first row. Exactly once, before any batch.
    pub fn start_columns(&mut self, columns: Vec<String>) -> (ev: StreamEvent)
        requires
            old(self).inv(),
            !old(self).meta_sent(),
        ensures
            final(self).inv(),
            final(self).meta_sent(),
            final(self).qid() == old(self).qid(),
            final(self).batch_bound() == old(self).batch_bound(),
            final(self).ncols_spec() == columns@.len(),
            final(self).columns_spec() == columns@,
            final(self).fed_rows() == old(self).fed_rows(),
            ev@ == (EventView::Meta { qid: old(self).qid(), columns: columns@ }),
            final(self).history_spec() == old(self).history_spec().push(ev@),
    {
        self.ncols = columns.len();
        self.metadata_sent = true;
        proof {
            self.cols@ = columns@;
        }
        let ev = StreamEvent::Metadata(StreamingMetadata { query_id: self.query_id, columns });
        proof {
            self.history@ = self.history@.push(ev@);
            assert(batch_rows(self.history@) =~= batch_rows(self.history@.drop_last()) + Seq::<
                Vec<JsonScalar>,
            >::empty());
            assert(self.history@.drop_last() =~= old(self).history@);
            assert(batch_rows(self.history@) + self.batch@ =~= self.fed@);
        }
        ev
    }

    /// Accepts one row. When the pending batch reaches the bound, it is
    /// flushed as a batch event of exactly `batch_bound` rows.
    pub fn push_row(&mut self, row: Vec<JsonScalar>) -> (ev: Option<StreamEvent>)
        requires
            old(self).inv(),
            old(self).meta_sent(),
            row@.len() == old(self).ncols_spec(),
            old(self).fed_rows().len() < 0xffff_ffff_ffff_ffffu64,
        ensures
            final(self).inv(),
            final(self).meta_sent(),
            final(self).qid() == old(self).qid(),
            final(self).batch_bound() == old(self).batch_bound(),
            final(self).ncols_spec() == old(self).ncols_spec(),
            final(self).columns_spec() == old(self).columns_spec(),
            final(self).fed_rows() == old(self).fed_rows().push(row),
            match ev {
                Option::Some(e) => e@ == (EventView::Batch {
                    qid: old(self).qid(),
                    rows: old(self).pending().push(row),
                }) && final(self).history_spec() == old(self).history_spec().push(e@)
                    && final(self).pending() == Seq::<Vec<JsonScalar>>::empty()
                    && old(self).pending().push(row).len() == old(self).batch_bound(),
                Option::None => final(self).history_spec() == old(self).history_spec()
                    && final(self).pending() == old(self).pending().push(row),
            },
    {
        self.batch.push(row);
        proof {
            self.fed@ = self.fed@.push(self.batch@.last());
        }
        self.total_rows = self.total_rows + 1;
        if self.batch.len() >= self.batch_size {
            let mut rows: Vec<Vec<JsonScalar>> = Vec::new();
            core::mem::swap(&mut rows, &mut self.batch);
            let ghost evv = EventView::Batch { qid: self.query_id as int, rows: rows@ };
            let ev = StreamEvent::Batch(StreamingBatch { query_id: self.query_id, rows });
            proof {
                self.history@ = self.history@.push(evv);
                assert(self.history@.drop_last() =~= old(self).history@);
                assert(batch_rows(self.history@) + self.batch@ =~= self.fed@);
                let off = batch_rows(old(self).history@).len() as int;
                assert forall|i: int| 0 <= i < rows@.len() implies (#[trigger] rows@[i])@.len()
                    == self.ncols by {
                    assert(rows@[i] == self.fed@[off + i]);
                }
            }
            Option::Some(ev)
        } else {
            proof {
                assert(batch_rows(self.history@) + self.batch@ =~= self.fed@);
            }
            Option::None
        }
    }

    /// Finishes the stream: flushes the partial batch, if any, and emits the
    /// single completion whose total is exactly the number of rows fed. The
    /// machine is consumed; nothing can follow.
    pub fn finish(self, execution_time_ms: u64) -> (evs: Vec<StreamEvent>)
        requires
            self.inv(),
        ensures
            views_of(evs@) == (if self.pending().len() > 0 {
                seq![
                    EventView::Batch { qid: self.qid(), rows: self.pending() },
                    EventView::Complete { qid: self.qid(), total: self.fed_rows().len() as int },
                ]
            } else {
                seq![
                    EventView::Complete { qid: self.qid(), total: self.fed_rows().len() as int },
                ]
            }),
            batch_rows(self.history_spec() + views_of(evs@)) == self.fed_rows(),
    {
        let StreamBatcher { query_id, batch, total_rows, .. } = self;
        let ghost hist = self.history@;
        let mut evs: Vec<StreamEvent> = Vec::new();
        let pending_len = batch.len();
        if pending_len > 0 {
            evs.push(StreamEvent::Batch(StreamingBatch { query_id, rows: batch }));
        }
        evs.push(
            StreamEvent::Complete(
                StreamingComplete { query_id, execution_time_ms, total_rows },
            ),
        );
        proof {
            if pending_len > 0 {
                assert(views_of(evs@) =~= seq![
                    EventView::Batch { qid: self.qid(), rows: self.pending() },
                    EventView::Complete { qid: self.qid(), total: self.fed_rows().len() as int },
                ]);
                let full = hist + views_of(evs@);
                assert(full.drop_last() =~= hist.push(views_of(evs@)[0]));
                assert(full.drop_last().drop_last() =~= hist);
                assert(full.last() == (EventView::Complete {
                    qid: self.qid(),
                    total: self.fed_rows().len() as int,
                }));
                assert(batch_rows(full) =~= batch_rows(full.drop_last()));
                assert(full.drop_last().last() == (EventView::Batch {
                    qid: self.qid(),
                    rows: self.pending(),
                }));
                assert(batch_rows(full.drop_last()) =~= batch_rows(hist) + self.pending());
                assert(batch_rows(full) =~= self.fed_rows());
            } else {
                assert(views_of(evs@) =~= seq![
                    EventView::Complete { qid: self.qid(), total: self.fed_rows().len() as int },
                ]);
                let full = hist + views_of(evs@);
                assert(full.drop_last() =~= hist);
                assert(batch_rows(full) =~= batch_rows(hist) + Seq::<Vec<JsonScalar>>::empty());
                assert(self.pending().len() == 0);
                assert(batch_rows(hist) + self.pending() =~= batch_rows(hist));
                assert(batch_rows(full) =~= self.fed_rows());
            }
        }
        evs
    }

    /// Abandons the stream after a cancellation: the machine is consumed
    /// and no completion event exists for it, so the sink sees nothing
    /// further for this query id.
    pub fn cancel(self)
    {
    }
}


impl StreamBatcher {
    pub fn metadata_sent(&self) -> (r: bool)
        ensures
            r == self.meta_sent(),
    {
        self.metadata_sent
    }
}

/// A batch event of this query holding between one row and `bound` rows.
pub open spec fn batch_sized(e: EventView, qid: int, bound: int) -> bool {
    match e {
        EventView::Batch { qid: q, rows } => q == qid && 0 < rows.len() <= bound,
        _ => false,
    }
}

proof fn lemma_views_concat(a: Seq<StreamEvent>, b: Seq<StreamEvent>)
    ensures
        views_of(a + b) == views_of(a) + views_of(b),
{
    assert(views_of(a + b) =~= views_of(a) + views_of(b));
}

/// Drives a whole result set through the batching machine, uninterrupted:
/// the sink's view of one successful streaming query. The events are one
/// metadata first when any row exists, then batches, in fetch order, whose
/// rows concatenate to exactly the input rows, each batch within the bound,
/// and a single completion at the end whose total is the number of rows.
pub fn run_stream(
    query_id: u128,
    columns: Vec<String>,
    rows: Vec<Vec<JsonScalar>>,
    batch_size: usize,
    execution_time_ms: u64,
) -> (evs: Vec<StreamEvent>)
    requires
        batch_size > 0,
        forall|i: int| 0 <= i < rows@.len() ==> (#[trigger] rows@[i])@.len() == columns@.len(),
    ensures
        views_of(evs@).len() >= 1,
        views_of(evs@).last() == (EventView::Complete {
            qid: query_id as int,
            total: rows@.len() as int,
        }),
        batch_rows(views_of(evs@)) == rows@,
        rows@.len() == 0 ==> views_of(evs@).len() == 1,
        rows@.len() > 0 ==> views_of(evs@)[0] == (EventView::Meta {
            qid: query_id as int,
            columns: columns@,
        }),
        forall|i: int|
            1 <= i < views_of(evs@).len() - 1 ==> batch_sized(
                #[trigger] views_of(evs@)[i],
                query_id as int,
                batch_size as int,
            ),
{
    let ghost orig = rows@;
    let ghost cols_view = columns@;
    let mut evs: Vec<StreamEvent> = Vec::new();
    let mut machine = StreamBatcher::new(query_id, batch_size);
    let mut cols_holder: Option<Vec<String>> = Option::Some(columns);
    let mut remaining = rows;
    let n_rows = remaining.len();
    proof {
        assert(orig.len() == n_rows);
    }
    while remaining.len() > 0
        invariant
            machine.inv(),
            machine.qid() == query_id as int,
            machine.batch_bound() == batch_size as int,
            views_of(evs@) == machine.history_spec(),
            machine.fed_rows() + remaining@ == orig,
            orig.len() <= usize::MAX,
            forall|i: int| 0 <= i < orig.len() ==> (#[trigger] orig[i])@.len() == cols_view.len(),
            machine.meta_sent() ==> machine.columns_spec() == cols_view && machine.ncols_spec()
                == cols_view.len() && machine.fed_rows().len() >= 1,
            !machine.meta_sent() ==> machine.fed_rows().len() == 0 && (match cols_holder {
                Option::Some(ref c) => c@ == cols_view,
                Option::None => false,
            }),
        decreases remaining@.len(),
    {
        let ghost fed_before = machine.fed_rows();
        let row = remaining.remove(0);
        proof {
            assert(row == orig[fed_before.len() as int]);
        }
        if !machine.metadata_sent() {
            let mut tmp: Option<Vec<String>> = Option::None;
            core::mem::swap(&mut tmp, &mut cols_holder);
            match tmp {
                Option::Some(c) => {
                    let ev = machine.start_columns(c);
                    evs.push(ev);
                    proof {
                        assert(views_of(evs@) =~= machine.history_spec());
                    }
                },
                Option::None => {
                    proof {
                        assert(false);
                    }
                },
            }
        }
        proof {
            assert(row@.len() == machine.ncols_spec());
            assert(machine.fed_rows().len() < orig.len());
        }
        let ev = machine.push_row(row);
        if let Option::Some(e) = ev {
            evs.push(e);
        }
        proof {
            assert(views_of(evs@) =~= machine.history_spec());
            assert(machine.fed_rows() + remaining@ =~= orig);
        }
    }
    let ghost hist = machine.history_spec();
    let ghost pend = machine.pending();
    let ghost fed = machine.fed_rows();
    let ghost nc = machine.ncols_spec();
    proof {
        assert(forall|i: int|
            1 <= i < hist.len() ==> batch_shaped(
                #[trigger] hist[i],
                query_id as int,
                batch_size as int,
                nc,
            ));
    }
    proof {
        assert(machine.fed_rows() =~= orig);
    }
    let mut tail = machine.finish(execution_time_ms);
    proof {
        lemma_views_concat(evs@, tail@);
    }
    evs.append(&mut tail);
    proof {
        let h = views_of(evs@);
        assert(h =~= hist + (if pend.len() > 0 {
            seq![
                EventView::Batch { qid: query_id as int, rows: pend },
                EventView::Complete { qid: query_id as int, total: fed.len() as int },
            ]
        } else {
            seq![EventView::Complete { qid: query_id as int, total: fed.len() as int }]
        }));
        assert(h.last() == (EventView::Complete {
            qid: query_id as int,
            total: orig.len() as int,
        }));
        assert(batch_rows(h) =~= orig) by {
            assert(batch_rows(hist + (if pend.len() > 0 {
                seq![
                    EventView::Batch { qid: query_id as int, rows: pend },
                    EventView::Complete { qid: query_id as int, total: fed.len() as int },
                ]
            } else {
                seq![EventView::Complete { qid: query_id as int, total: fed.len() as int }]
            })) == fed);
        }
        if orig.len() == 0 {
            assert(hist.len() == 0);
            assert(h.len() == 1);
        } else {
            assert(hist.len() >= 1);
            assert(h[0] == hist[0]);
        }
        assert forall|i: int| 1 <= i < h.len() - 1 implies batch_sized(
            #[trigger] h[i],
            query_id as int,
            batch_size as int,
        ) by {
            if i < hist.len() {
                assert(batch_shaped(hist[i], query_id as int, batch_size as int, nc));
                assert(h[i] == hist[i]);
            } else {
                assert(pend.len() > 0);
                assert(i == hist.len());
                assert(h[i] == (EventView::Batch { qid: query_id as int, rows: pend }));
            }
        }
    }
    evs
}


} // verus!
