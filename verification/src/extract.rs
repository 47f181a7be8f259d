//! The extraction: from the records of a window to the rows of its table.
//!
//! Each record is decoded and, where it decodes, expanded; the rows come in
//! the order of the records. A record that does not decode is passed over
//! and is no error.

use vstd::prelude::*;
use vstd::seq_lib::*;

use crate::decode::{decode, has_wrappers, lemma_wrappers_needed, uplink_of};
use crate::expand::{expand, rows_of, rows_view, CsvRow, CsvRowView};
use crate::json::{Json, JsonView};
use crate::model::{Uplink, UplinkView};
use crate::time::Instant;

verus! {

/// A message as the store holds it.
#[derive(Debug, PartialEq)]
pub struct RawRecord {
    /// The identifier that the store gave the message.
    pub id: i64,
    /// When the message was stored.
    pub received_at: Instant,
    /// The message itself.
    pub document: Json,
}

/// The mathematical content of a [`RawRecord`].
pub struct RawRecordView {
    pub id: i64,
    pub received_at: Instant,
    pub document: JsonView,
}

impl View for RawRecord {
    type V = RawRecordView;

    open spec fn view(&self) -> RawRecordView {
        RawRecordView { id: self.id, received_at: self.received_at, document: self.document@ }
    }
}

/// The content of a list of records, record by record.
pub open spec fn records_view(records: Seq<RawRecord>) -> Seq<RawRecordView> {
    records.map_values(|record: RawRecord| record@)
}

/// The content of a list of decoded messages, each with the identifier of
/// its record.
pub open spec fn messages_view(messages: Seq<(i64, Uplink)>) -> Seq<(i64, UplinkView)> {
    messages.map_values(|m: (i64, Uplink)| (m.0, m.1@))
}

/// The message that a record decodes to, with the record's identifier.
pub open spec fn message_of_record(record: RawRecordView) -> Option<(i64, UplinkView)> {
    match uplink_of(record.document) {
        Some(uplink) => Some((record.id, uplink)),
        None => None,
    }
}

/// The messages of the records that decode, in the order of the records.
pub open spec fn decoded(records: Seq<RawRecordView>) -> Seq<(i64, UplinkView)> {
    records.filter_map(|record: RawRecordView| message_of_record(record))
}

/// The rows of one decoded message.
pub open spec fn rows_of_message(message: (i64, UplinkView)) -> Seq<CsvRowView> {
    rows_of(message.0, message.1.uplink_message)
}

/// The rows of a list of decoded messages: those of each, one after another.
pub open spec fn table_of(messages: Seq<(i64, UplinkView)>) -> Seq<CsvRowView> {
    messages.map_values(|m: (i64, UplinkView)| rows_of_message(m)).flatten()
}

/// The rows that one record contributes: those of its message, and none
/// where it does not decode.
pub open spec fn rows_of_record(record: RawRecordView) -> Seq<CsvRowView> {
    match message_of_record(record) {
        Some(message) => rows_of_message(message),
        None => Seq::empty(),
    }
}

/// The table of a list of records: the rows of each, one after another.
pub open spec fn table(records: Seq<RawRecordView>) -> Seq<CsvRowView> {
    records.map_values(|record: RawRecordView| rows_of_record(record)).flatten()
}

/// Decodes the records of a window and keeps the messages of those that
/// decode, each with the identifier of its record, in the order of the
/// records.
pub fn dataset(records: &Vec<RawRecord>) -> (messages: Vec<(i64, Uplink)>)
    ensures
        messages_view(messages@) == decoded(records_view(records@)),
{
    let mut messages: Vec<(i64, Uplink)> = Vec::new();
    let mut i: usize = 0;
    let ghost all = records_view(records@);
    while i < records.len()
        invariant
            i <= records.len(),
            all == records_view(records@),
            messages_view(messages@) == decoded(all.take(i as int)),
        decreases records.len() - i,
    {
        proof {
            assert(all.take(i + 1).drop_last() =~= all.take(i as int));
        }
        let record = &records[i];
        match decode(&record.document) {
            Some(uplink) => {
                messages.push((record.id, uplink));
            },
            None => {},
        }
        i += 1;
    }
    assert(all.take(i as int) =~= all);
    messages
}

/// Expands every message of a list into its rows, in the order of the list.
pub fn expand_all(messages: &Vec<(i64, Uplink)>) -> (rows: Vec<CsvRow>)
    ensures
        rows_view(rows@) == table_of(messages_view(messages@)),
{
    let mut rows: Vec<CsvRow> = Vec::new();
    let mut i: usize = 0;
    let ghost all = messages_view(messages@);
    let ghost f = |m: (i64, UplinkView)| rows_of_message(m);
    while i < messages.len()
        invariant
            i <= messages.len(),
            all == messages_view(messages@),
            f == |m: (i64, UplinkView)| rows_of_message(m),
            rows_view(rows@) == all.take(i as int).map_values(f).flatten(),
        decreases messages.len() - i,
    {
        let message = &messages[i];
        let mut more = expand(message.0, &message.1.uplink_message);
        let ghost added = rows_view(more@);
        rows.append(&mut more);
        proof {
            assert(all.take(i + 1).map_values(f) =~= all.take(i as int).map_values(f).push(added));
            all.take(i as int).map_values(f).lemma_flatten_push(added);
        }
        i += 1;
    }
    assert(all.take(i as int) =~= all);
    rows
}

/// The rows of the decoded messages of a list of records are the table of
/// the records.
pub proof fn lemma_table_of_decoded(records: Seq<RawRecordView>)
    ensures
        table_of(decoded(records)) == table(records),
    decreases records.len(),
{
    let f = |m: (i64, UplinkView)| rows_of_message(m);
    let g = |record: RawRecordView| rows_of_record(record);
    if records.len() > 0 {
        let rest = records.drop_last();
        let last = records.last();
        lemma_table_of_decoded(rest);
        assert(records.map_values(g) =~= rest.map_values(g).push(rows_of_record(last)));
        rest.map_values(g).lemma_flatten_push(rows_of_record(last));
        match message_of_record(last) {
            Some(message) => {
                assert(decoded(records).map_values(f) =~= decoded(rest).map_values(f).push(
                    rows_of_message(message),
                ));
                decoded(rest).map_values(f).lemma_flatten_push(rows_of_message(message));
            },
            None => {},
        }
    }
}

/// Extracts the table of a list of records: decodes each record and expands
/// each message that comes of it, in the order of the records.
pub fn extract(records: &Vec<RawRecord>) -> (rows: Vec<CsvRow>)
    ensures
        rows_view(rows@) == table(records_view(records@)),
{
    let messages = dataset(records);
    proof {
        lemma_table_of_decoded(records_view(records@));
    }
    expand_all(&messages)
}

/// The table of two lists of records, one after the other, is the table of
/// the first followed by the table of the second.
pub proof fn lemma_table_concat(a: Seq<RawRecordView>, b: Seq<RawRecordView>)
    ensures
        table(a + b) == table(a) + table(b),
{
    let g = |record: RawRecordView| rows_of_record(record);
    assert((a + b).map_values(g) =~= a.map_values(g) + b.map_values(g));
    lemma_flatten_concat(a.map_values(g), b.map_values(g));
}

/// The table of a list of records is made of the table of those before the
/// record at `i`, the rows of that record, and the table of those behind it.
pub proof fn lemma_table_split(records: Seq<RawRecordView>, i: int)
    requires
        0 <= i < records.len(),
    ensures
        table(records) == table(records.take(i)) + rows_of_record(records[i]) + table(
            records.skip(i + 1),
        ),
        table(records.remove(i)) == table(records.take(i)) + table(records.skip(i + 1)),
{
    let g = |record: RawRecordView| rows_of_record(record);
    let one = seq![records[i]];
    assert(records =~= records.take(i) + one + records.skip(i + 1));
    lemma_table_concat(records.take(i) + one, records.skip(i + 1));
    lemma_table_concat(records.take(i), one);
    lemma_table_concat(records.take(i), records.skip(i + 1));
    assert(one.map_values(g) =~= seq![rows_of_record(records[i])]);
    seq![rows_of_record(records[i])].lemma_flatten_singleton();
}

/// A record that does not decode contributes no row: the table is the same
/// without it.
pub proof fn lemma_absent_contributes_nothing(records: Seq<RawRecordView>, i: int)
    requires
        0 <= i < records.len(),
        uplink_of(records[i].document) is None,
    ensures
        rows_of_record(records[i]) == Seq::<CsvRowView>::empty(),
        table(records) == table(records.remove(i)),
{
    lemma_table_split(records, i);
}

/// A record whose document lacks one of the wrappers of an uplink does not
/// decode and contributes no row.
pub proof fn lemma_unwrapped_contributes_nothing(records: Seq<RawRecordView>, i: int)
    requires
        0 <= i < records.len(),
        !has_wrappers(records[i].document),
    ensures
        uplink_of(records[i].document) is None,
        rows_of_record(records[i]) == Seq::<CsvRowView>::empty(),
        table(records) == table(records.remove(i)),
{
    lemma_wrappers_needed(records[i].document);
    lemma_absent_contributes_nothing(records, i);
}

/// The rows of a table do not depend on the order of the records: two lists
/// that hold the same records, each as often in the one as in the other,
/// give the same rows, each as often in the one table as in the other. The
/// order of the rows follows that of the records.
pub proof fn lemma_table_order(a: Seq<RawRecordView>, b: Seq<RawRecordView>)
    requires
        a.to_multiset() == b.to_multiset(),
    ensures
        table(a).to_multiset() == table(b).to_multiset(),
    decreases a.len(),
{
    broadcast use {to_multiset_contains, to_multiset_build, to_multiset_remove};

    if a.len() == 0 {
        to_multiset_len(a);
        to_multiset_len(b);
    } else {
        let last = a.last();
        let rest = a.drop_last();
        assert(a =~= rest.push(last));
        assert(a.to_multiset().count(last) > 0);
        let i = choose|i: int| 0 <= i < b.len() && b[i] == last;
        assert(b.remove(i).to_multiset() =~= rest.to_multiset());
        lemma_table_order(rest, b.remove(i));
        lemma_table_split(a, a.len() - 1);
        lemma_table_split(b, i);
        let rows = rows_of_record(last);
        let front = table(b.take(i));
        let back = table(b.skip(i + 1));
        lemma_multiset_commutative(table(rest), rows);
        lemma_multiset_commutative(front + rows, back);
        lemma_multiset_commutative(front, rows);
        lemma_multiset_commutative(front, back);
    }
}

} // verus!
