//! The BSON metrics document of a stage and its updates.

use vstd::prelude::*;

use bson::Document;

use crate::bson_doc::{
    bson_bytes_decode, bson_decode, doc_from_bytes, doc_get_i64, doc_insert_bson, doc_insert_i64, doc_into_entries,
    document_fields, lemma_get_after_insert, lemma_insert_idempotent, spec_get, spec_insert, BsonValue,
};
use crate::stage_context::MetricUpdate;

verus! {

/// `i64::saturating_add`.
pub open spec fn sat_add(a: i64, b: i64) -> i64 {
    if a + b > i64::MAX {
        i64::MAX
    } else if a + b < i64::MIN {
        i64::MIN
    } else {
        (a + b) as i64
    }
}

fn saturating_add_i64(a: i64, b: i64) -> (r: i64)
    ensures
        r == sat_add(a, b),
{
    if b > 0 && a > i64::MAX - b {
        i64::MAX
    } else if b < 0 && a < i64::MIN - b {
        i64::MIN
    } else {
        a + b
    }
}

/// The 64-bit integer under `key`, 0 when missing or of another type.
pub open spec fn int64_or_zero(fields: Seq<(Seq<char>, BsonValue)>, key: Seq<char>) -> i64 {
    match spec_get(fields, key) {
        Some(BsonValue::Int64(v)) => v,
        _ => 0,
    }
}

/// The fields after one metric update.
pub open spec fn spec_apply(fields: Seq<(Seq<char>, BsonValue)>, u: MetricUpdate) -> Seq<(Seq<char>, BsonValue)> {
    match u {
        MetricUpdate::Inc { key, delta } => spec_insert(
            fields,
            key@,
            BsonValue::Int64(sat_add(int64_or_zero(fields, key@), delta)),
        ),
        MetricUpdate::RecordTime { key, elapsed_ns } => spec_insert(fields, key@, BsonValue::Int64(elapsed_ns as i64)),
    }
}

/// The fields after updates applied in order.
pub open spec fn spec_apply_all(fields: Seq<(Seq<char>, BsonValue)>, us: Seq<MetricUpdate>) -> Seq<(Seq<char>, BsonValue)>
    decreases us.len(),
{
    if us.len() == 0 {
        fields
    } else {
        spec_apply_all(spec_apply(fields, us[0]), us.drop_first())
    }
}

/// A metric update reads back: after an increment the key holds the old 64-bit count plus the
/// delta (saturating), after a time record it holds the recorded nanoseconds; every other key
/// keeps its value.
pub proof fn lemma_update_reads_back(fields: Seq<(Seq<char>, BsonValue)>, u: MetricUpdate, other: Seq<char>)
    ensures
        match u {
            MetricUpdate::Inc { key, delta } => spec_get(spec_apply(fields, u), key@) == Some(
                BsonValue::Int64(sat_add(int64_or_zero(fields, key@), delta)),
            ),
            MetricUpdate::RecordTime { key, elapsed_ns } => spec_get(spec_apply(fields, u), key@) == Some(
                BsonValue::Int64(elapsed_ns as i64),
            ),
        },
        other != (match u {
            MetricUpdate::Inc { key, .. } => key@,
            MetricUpdate::RecordTime { key, .. } => key@,
        }) ==> spec_get(spec_apply(fields, u), other) == spec_get(fields, other),
{
    match u {
        MetricUpdate::Inc { key, delta } => {
            lemma_get_after_insert(
                fields,
                key@,
                BsonValue::Int64(sat_add(int64_or_zero(fields, key@), delta)),
                other,
            );
        },
        MetricUpdate::RecordTime { key, elapsed_ns } => {
            lemma_get_after_insert(fields, key@, BsonValue::Int64(elapsed_ns as i64), other);
        },
    }
}

/// Recording the same time under the same key twice leaves the document of one record.
pub proof fn lemma_record_time_idempotent(fields: Seq<(Seq<char>, BsonValue)>, key: String, elapsed_ns: u64)
    ensures
        spec_apply(
            spec_apply(fields, MetricUpdate::RecordTime { key, elapsed_ns }),
            MetricUpdate::RecordTime { key, elapsed_ns },
        ) == spec_apply(fields, MetricUpdate::RecordTime { key, elapsed_ns }),
{
    lemma_insert_idempotent(fields, key@, BsonValue::Int64(elapsed_ns as i64));
}

/// Two increments of one key add up, as long as the running count stays within 64 bits.
pub proof fn lemma_increments_add_up(fields: Seq<(Seq<char>, BsonValue)>, key: String, a: i64, b: i64)
    requires
        i64::MIN <= int64_or_zero(fields, key@) + a <= i64::MAX,
        i64::MIN <= int64_or_zero(fields, key@) + a + b <= i64::MAX,
    ensures
        int64_or_zero(
            spec_apply_all(fields, seq![MetricUpdate::Inc { key, delta: a }, MetricUpdate::Inc { key, delta: b }]),
            key@,
        ) == int64_or_zero(fields, key@) + a + b,
{
    let u1 = MetricUpdate::Inc { key, delta: a };
    let u2 = MetricUpdate::Inc { key, delta: b };
    let us = seq![u1, u2];
    let f1 = spec_apply(fields, u1);
    lemma_update_reads_back(fields, u1, key@);
    lemma_update_reads_back(f1, u2, key@);
    assert(us.drop_first() =~= seq![u2]);
    assert(us.drop_first().drop_first() =~= Seq::<MetricUpdate>::empty());
    assert(spec_apply_all(fields, us) == spec_apply_all(f1, seq![u2]));
    assert(seq![u2].drop_first() =~= Seq::<MetricUpdate>::empty());
    assert(spec_apply_all(f1, seq![u2]) == spec_apply_all(spec_apply(f1, u2), Seq::<MetricUpdate>::empty()));
}

/// Applies one metric update: an increment adds (saturating) to the 64-bit integer under the
/// key, counting a missing or non-64-bit value as 0; a time record stores the nanoseconds
/// (reinterpreted as a signed 64-bit integer).
pub fn apply_metric_update(doc: &mut Document, u: &MetricUpdate)
    ensures
        document_fields(*final(doc)) == spec_apply(document_fields(*old(doc)), *u),
{
    match u {
        MetricUpdate::Inc { key, delta } => {
            let prev = match doc_get_i64(doc, key.as_str()) {
                Some(v) => v,
                None => 0,
            };
            let next = saturating_add_i64(prev, *delta);
            doc_insert_i64(doc, key.as_str(), next);
        },
        MetricUpdate::RecordTime { key, elapsed_ns } => {
            doc_insert_i64(doc, key.as_str(), *elapsed_ns as i64);
        },
    }
}

/// Applies metric updates in order.
pub fn apply_metric_updates(doc: &mut Document, updates: &Vec<MetricUpdate>)
    ensures
        document_fields(*final(doc)) == spec_apply_all(document_fields(*old(doc)), updates@),
{
    let ghost start = document_fields(*doc);
    let mut i: usize = 0;
    assert(updates@.skip(0) =~= updates@);
    while i < updates.len()
        invariant
            i <= updates@.len(),
            spec_apply_all(start, updates@) == spec_apply_all(document_fields(*doc), updates@.skip(i as int)),
        decreases updates@.len() - i,
    {
        proof {
            assert(updates@.skip(i as int).drop_first() =~= updates@.skip(i + 1));
            assert(updates@.skip(i as int)[0] == updates@[i as int]);
        }
        apply_metric_update(doc, &updates[i]);
        i = i + 1;
    }
    proof {
        assert(updates@.skip(i as int) =~= Seq::<MetricUpdate>::empty());
    }
}

/// The fields after inserting `extra` one by one, in order.
pub open spec fn spec_merge(fields: Seq<(Seq<char>, BsonValue)>, extra: Seq<(Seq<char>, BsonValue)>) -> Seq<(Seq<char>, BsonValue)>
    decreases extra.len(),
{
    if extra.len() == 0 {
        fields
    } else {
        spec_merge(spec_insert(fields, extra[0].0, extra[0].1), extra.drop_first())
    }
}

/// Merges a host metrics patch (BSON bytes) into the metrics document: an empty patch or one that
/// does not decode leaves the document as it is; otherwise each patch field is inserted in order.
pub fn merge_metrics_patch(doc: &mut Document, patch: &[u8])
    ensures
        patch@.len() == 0 || !bson_bytes_decode(patch@) ==> document_fields(*final(doc)) == document_fields(*old(doc)),
        patch@.len() > 0 ==> match bson_decode(patch@) {
            Some(extra) => document_fields(*final(doc)) == spec_merge(document_fields(*old(doc)), document_fields(extra)),
            None => document_fields(*final(doc)) == document_fields(*old(doc)),
        },
{
    if patch.len() == 0 {
        return;
    }
    let extra = match doc_from_bytes(patch) {
        Ok(d) => d,
        Err(_) => return,
    };
    let ghost extra_fields = document_fields(extra);
    let ghost start = document_fields(*doc);
    let mut entries = doc_into_entries(extra);
    let ghost all = entries@;
    let n = entries.len();
    let mut i: usize = 0;
    assert(extra_fields.skip(0) =~= extra_fields);
    assert(all.skip(0) =~= all);
    while i < n
        invariant
            n == all.len(),
            n == extra_fields.len(),
            i <= n,
            entries@ == all.skip(i as int),
            forall|k: int| 0 <= k < n ==> (#[trigger] all[k]).0@ == extra_fields[k].0
                && crate::bson_doc::bson_value(all[k].1) == extra_fields[k].1,
            spec_merge(start, extra_fields) == spec_merge(document_fields(*doc), extra_fields.skip(i as int)),
        decreases n - i,
    {
        proof {
            assert(extra_fields.skip(i as int).drop_first() =~= extra_fields.skip(i + 1));
            assert(extra_fields.skip(i as int)[0] == extra_fields[i as int]);
        }
        let (k, v) = entries.remove(0);
        assert(entries@ =~= all.skip(i + 1));
        doc_insert_bson(doc, k, v);
        i = i + 1;
    }
    proof {
        assert(extra_fields.skip(i as int) =~= Seq::<(Seq<char>, BsonValue)>::empty());
    }
}

} // verus!
