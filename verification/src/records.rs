//! Normalization of upstream payloads: each log stream carries a label map
//! and an ordered list of entries; one normalized record is emitted per
//! entry, in source order, with the enclosing stream's labels attached.

use vstd::prelude::*;

use crate::errors::DecodeError;

verus! {

/// The mathematical model of one log entry.
pub struct EntryView {
    pub ts: Seq<char>,
    pub line: Seq<char>,
}

/// The mathematical model of one upstream-reported log stream.
pub struct StreamView {
    pub labels: Seq<(Seq<char>, Seq<char>)>,
    pub entries: Seq<EntryView>,
}

/// The mathematical model of one normalized record.
pub struct RecordView {
    pub ts: Seq<char>,
    pub line: Seq<char>,
    pub labels: Seq<(Seq<char>, Seq<char>)>,
}

/// One log line as reported upstream: a nanosecond-epoch timestamp kept as
/// an opaque string, and the line itself.
#[derive(Debug, PartialEq, Eq, Clone)]
pub struct LogEntry {
    pub ts: String,
    pub line: String,
}

/// One upstream-reported log stream: its label map (kept as an association
/// list in upstream order) and its ordered entries.
#[derive(Debug, PartialEq, Eq, Clone)]
pub struct RawStream {
    pub labels: Vec<(String, String)>,
    pub entries: Vec<LogEntry>,
}

/// The flattened, sink-ready representation of one log line plus its
/// stream's labels and timestamp.
#[derive(Debug, PartialEq, Eq, Clone)]
pub struct NormalizedRecord {
    pub ts: String,
    pub line: String,
    pub labels: Vec<(String, String)>,
}

impl View for LogEntry {
    type V = EntryView;

    open spec fn view(&self) -> EntryView {
        EntryView { ts: self.ts@, line: self.line@ }
    }
}

impl DeepView for LogEntry {
    type V = EntryView;

    open spec fn deep_view(&self) -> EntryView {
        self@
    }
}

impl View for RawStream {
    type V = StreamView;

    open spec fn view(&self) -> StreamView {
        StreamView { labels: self.labels.deep_view(), entries: self.entries.deep_view() }
    }
}

impl DeepView for RawStream {
    type V = StreamView;

    open spec fn deep_view(&self) -> StreamView {
        self@
    }
}

impl View for NormalizedRecord {
    type V = RecordView;

    open spec fn view(&self) -> RecordView {
        RecordView { ts: self.ts@, line: self.line@, labels: self.labels.deep_view() }
    }
}

impl DeepView for NormalizedRecord {
    type V = RecordView;

    open spec fn deep_view(&self) -> RecordView {
        self@
    }
}

/// The records one stream contributes: one per entry, in entry order, each
/// carrying the stream's labels.
pub open spec fn records_of_stream(s: StreamView) -> Seq<RecordView> {
    s.entries.map_values(|e: EntryView| RecordView { ts: e.ts, line: e.line, labels: s.labels })
}

/// The records of a whole payload: the streams' contributions concatenated
/// in stream order.
pub open spec fn flatten_streams(ss: Seq<StreamView>) -> Seq<RecordView>
    decreases ss.len(),
{
    if ss.len() == 0 {
        Seq::empty()
    } else {
        records_of_stream(ss[0]) + flatten_streams(ss.drop_first())
    }
}

/// Appending one stream appends exactly its records.
pub proof fn lemma_flatten_snoc(ss: Seq<StreamView>, s: StreamView)
    ensures
        flatten_streams(ss.push(s)) == flatten_streams(ss) + records_of_stream(s),
    decreases ss.len(),
{
    let p = ss.push(s);
    if ss.len() == 0 {
        assert(p[0] == s);
        assert(p.drop_first() =~= Seq::<StreamView>::empty());
        assert(flatten_streams(p) == records_of_stream(s) + flatten_streams(
            Seq::<StreamView>::empty(),
        ));
        assert(flatten_streams(Seq::<StreamView>::empty()) =~= Seq::<RecordView>::empty());
        assert(flatten_streams(ss) =~= Seq::<RecordView>::empty());
        assert(flatten_streams(p) =~= flatten_streams(ss) + records_of_stream(s));
    } else {
        assert(p[0] == ss[0]);
        assert(p.drop_first() =~= ss.drop_first().push(s));
        lemma_flatten_snoc(ss.drop_first(), s);
        assert(flatten_streams(p) == records_of_stream(ss[0]) + (flatten_streams(ss.drop_first())
            + records_of_stream(s)));
        assert(records_of_stream(ss[0]) + (flatten_streams(ss.drop_first()) + records_of_stream(s))
            =~= (records_of_stream(ss[0]) + flatten_streams(ss.drop_first()))
            + records_of_stream(s));
        assert(flatten_streams(p) =~= flatten_streams(ss) + records_of_stream(s));
    }
}

/// Clones an association list of labels, value for value.
fn clone_labels(labels: &Vec<(String, String)>) -> (r: Vec<(String, String)>)
    ensures
        r.deep_view() == labels.deep_view(),
{
    let mut out: Vec<(String, String)> = Vec::new();
    let mut i: usize = 0;
    while i < labels.len()
        invariant
            i <= labels.len(),
            out@ =~= labels@.take(i as int),
        decreases labels.len() - i,
    {
        let pair = &labels[i];
        out.push((pair.0.clone(), pair.1.clone()));
        i = i + 1;
    }
    assert(out@ =~= labels@);
    assert(out.deep_view() =~= labels.deep_view());
    out
}

/// Turns the streams of one payload into normalized records: one record per
/// entry, in source order, each carrying a copy of its stream's labels.
pub fn normalize(streams: &Vec<RawStream>) -> (r: Vec<NormalizedRecord>)
    ensures
        r.deep_view() == flatten_streams(streams.deep_view()),
{
    let mut out: Vec<NormalizedRecord> = Vec::new();
    let mut i: usize = 0;
    while i < streams.len()
        invariant
            i <= streams.len(),
            out.deep_view() == flatten_streams(streams.deep_view().take(i as int)),
        decreases streams.len() - i,
    {
        let s = &streams[i];
        let mut j: usize = 0;
        while j < s.entries.len()
            invariant
                i < streams.len(),
                j <= s.entries.len(),
                s == &streams[i as int],
                out.deep_view() == flatten_streams(streams.deep_view().take(i as int))
                    + records_of_stream(s.deep_view()).take(j as int),
            decreases s.entries.len() - j,
        {
            let e = &s.entries[j];
            let rec = NormalizedRecord {
                ts: e.ts.clone(),
                line: e.line.clone(),
                labels: clone_labels(&s.labels),
            };
            let ghost pre = out@;
            let ghost predv = out.deep_view();
            proof {
                assert(rec.deep_view() == records_of_stream(s.deep_view())[j as int]);
                assert(records_of_stream(s.deep_view()).take(j + 1) =~= records_of_stream(
                    s.deep_view(),
                ).take(j as int).push(records_of_stream(s.deep_view())[j as int]));
            }
            out.push(rec);
            proof {
                assert(out@ == pre.push(rec));
                assert(out.deep_view() =~= predv.push(rec.deep_view()));
                assert(predv.push(rec.deep_view()) =~= flatten_streams(
                    streams.deep_view().take(i as int),
                ) + records_of_stream(s.deep_view()).take(j + 1));
            }
            j = j + 1;
        }
        proof {
            assert(records_of_stream(s.deep_view()).take(s.entries.len() as int)
                =~= records_of_stream(s.deep_view()));
            assert(streams.deep_view().take(i + 1) =~= streams.deep_view().take(i as int).push(
                streams.deep_view()[i as int],
            ));
            lemma_flatten_snoc(streams.deep_view().take(i as int), streams.deep_view()[i as int]);
            assert(s.deep_view() == streams.deep_view()[i as int]);
        }
        i = i + 1;
    }
    proof {
        assert(streams.deep_view().take(streams.len() as int) =~= streams.deep_view());
    }
    out
}

/// The outcome of decoding one payload whose envelope parse has already run:
/// a failed parse is a non-fatal `DecodeError`, a recognized envelope yields
/// the normalized records of its streams.
pub fn decode_parsed(parsed: &Option<Vec<RawStream>>, detail: String) -> (r: Result<
    Vec<NormalizedRecord>,
    DecodeError,
>)
    ensures
        r is Err <==> parsed is None,
        parsed matches Some(ss) ==> r matches Ok(recs) && recs.deep_view() == flatten_streams(
            ss.deep_view(),
        ),
        parsed is None ==> r == Err::<Vec<NormalizedRecord>, DecodeError>(DecodeError { detail }),
{
    match parsed {
        Some(streams) => Ok(normalize(streams)),
        None => Err(DecodeError { detail }),
    }
}

/// Label propagation: in a payload of two streams, every record derived
/// from the first stream's entries carries exactly the first stream's
/// labels, and every record derived from the second stream's entries
/// carries exactly the second stream's labels, in source order.
pub proof fn lemma_label_propagation(s1: StreamView, s2: StreamView)
    ensures
        flatten_streams(seq![s1, s2]).len() == s1.entries.len() + s2.entries.len(),
        forall|i: int|
            0 <= i < s1.entries.len() ==> flatten_streams(seq![s1, s2])[i] == (RecordView {
                ts: s1.entries[i].ts,
                line: s1.entries[i].line,
                labels: s1.labels,
            }),
        forall|i: int|
            s1.entries.len() <= i < s1.entries.len() + s2.entries.len() ==> flatten_streams(
                seq![s1, s2],
            )[i] == (RecordView {
                ts: s2.entries[i - s1.entries.len()].ts,
                line: s2.entries[i - s1.entries.len()].line,
                labels: s2.labels,
            }),
{
    let ss = seq![s1, s2];
    assert(ss[0] == s1);
    assert(ss.drop_first() =~= seq![s2]);
    assert(seq![s2][0] == s2);
    assert(seq![s2].drop_first() =~= Seq::<StreamView>::empty());
    assert(flatten_streams(seq![s2]) == records_of_stream(s2) + flatten_streams(
        Seq::<StreamView>::empty(),
    ));
    assert(flatten_streams(Seq::<StreamView>::empty()) =~= Seq::<RecordView>::empty());
    assert(flatten_streams(seq![s2]) =~= records_of_stream(s2));
    assert(flatten_streams(ss) == records_of_stream(s1) + flatten_streams(seq![s2]));
    assert(flatten_streams(ss) == records_of_stream(s1) + records_of_stream(s2));
}

} // verus!
