use vecindex::batch::BatchAccumulator;
use vecindex::ident::PointId;
use vecindex::normalize::{IdentifierSource, RawRecord};
use vecindex::pipeline::IngestPipeline;
use vecindex::query::search_plan;
use vecindex::{DEFAULT_BATCH_CAPACITY, DEFAULT_TOP_K};

/// Stand-in for the embedding adapter: a fixed-length vector derived from the
/// text, deterministic for identical input.
fn fake_embed(text: &str) -> Vec<f32> {
    let mut v = vec![0.0f32; 4];
    for (i, b) in text.bytes().enumerate() {
        v[i % 4] += b as f32;
    }
    v
}

fn record(row_id: u64, searchable: &str) -> RawRecord {
    RawRecord {
        row_id,
        payload_id: None,
        searchable: Some(searchable.to_string()),
    }
}

#[test]
fn seven_adds_at_capacity_three_deliver_three_batches() {
    let mut acc: BatchAccumulator<u64> = BatchAccumulator::new(3);
    let mut batches: Vec<Vec<u64>> = Vec::new();
    for p in 0..7u64 {
        if let Some(b) = acc.add(p) {
            batches.push(b);
        }
    }
    if let Some(b) = acc.flush_remaining() {
        batches.push(b);
    }
    // ceil(7 / 3) = 3 deliveries: two full, one final partial.
    assert_eq!(batches.len(), 3);
    assert_eq!(batches[0], vec![0, 1, 2]);
    assert_eq!(batches[1], vec![3, 4, 5]);
    assert_eq!(batches[2], vec![6]);
}

#[test]
fn exact_multiple_leaves_nothing_to_flush() {
    let mut acc: BatchAccumulator<u32> = BatchAccumulator::new(2);
    let mut count = 0;
    for p in 0..4u32 {
        if acc.add(p).is_some() {
            count += 1;
        }
    }
    assert_eq!(count, 2);
    assert!(acc.flush_remaining().is_none());
}

#[test]
fn empty_accumulator_flushes_nothing() {
    let mut acc: BatchAccumulator<u8> = BatchAccumulator::new(5);
    assert!(acc.flush_remaining().is_none());
}

#[test]
fn accepted_row_seven_lands_in_next_batch() {
    let mut pipe: IngestPipeline<Vec<f32>, String> =
        IngestPipeline::new(IdentifierSource::RowColumn, 1);
    let rec = record(7, "hello");
    let accepted = pipe.screen(&rec).unwrap();
    assert_eq!(accepted.text, "hello");
    let vector = fake_embed(&accepted.text);
    let batch = pipe
        .accept(accepted.raw_identifier, vector.clone(), "payload".to_string())
        .expect("capacity one closes a batch at once");
    assert_eq!(batch.len(), 1);
    assert_eq!(batch[0].identifier, PointId::Num(7));
    assert_eq!(batch[0].vector, vector);
    assert_eq!(batch[0].vector, fake_embed("hello"));
    assert_eq!(batch[0].payload, "payload");
    assert_eq!(pipe.summary.accepted, 1);
}

#[test]
fn null_content_row_produces_no_point() {
    let mut pipe: IngestPipeline<Vec<f32>, String> =
        IngestPipeline::new(IdentifierSource::RowColumn, 10);
    assert!(pipe.screen(&record(3, "null")).is_err());
    assert_eq!(pipe.summary.rejected, 1);
    assert_eq!(pipe.summary.accepted, 0);
    assert!(pipe.finish().is_none());
}

#[test]
fn failed_delivery_does_not_stop_later_batches() {
    let mut pipe: IngestPipeline<Vec<f32>, u8> =
        IngestPipeline::new(IdentifierSource::RowColumn, 2);
    let mut first = None;
    let mut second = None;
    for i in 0..4u64 {
        let accepted = pipe.screen(&record(i, "text")).unwrap();
        let vector = fake_embed(&accepted.text);
        if let Some(b) = pipe.accept(accepted.raw_identifier, vector, 0u8) {
            if first.is_none() {
                first = Some(b);
                // The store refuses the first batch; the run must go on.
                pipe.note_delivery(false);
            } else {
                second = Some(b);
                pipe.note_delivery(true);
            }
        }
    }
    let first = first.unwrap();
    let second = second.expect("a batch after the failed one");
    assert_eq!(first[0].identifier, PointId::Num(0));
    assert_eq!(first[1].identifier, PointId::Num(1));
    assert_eq!(second[0].identifier, PointId::Num(2));
    assert_eq!(second[1].identifier, PointId::Num(3));
    assert_eq!(pipe.summary.batches_failed, 1);
    assert_eq!(pipe.summary.batches_delivered, 1);
    assert_eq!(pipe.summary.accepted, 4);
}

#[test]
fn mixed_run_counts_accepted_and_rejected() {
    let mut pipe: IngestPipeline<Vec<f32>, ()> =
        IngestPipeline::new(IdentifierSource::RowColumn, DEFAULT_BATCH_CAPACITY);
    let rows = [
        (1u64, Some("first")),
        (2, Some("")),
        (3, Some("null")),
        (4, None),
        (5, Some("second")),
    ];
    for (id, text) in rows {
        let rec = RawRecord {
            row_id: id,
            payload_id: None,
            searchable: text.map(|s| s.to_string()),
        };
        if let Ok(a) = pipe.screen(&rec) {
            let v = fake_embed(&a.text);
            assert!(pipe.accept(a.raw_identifier, v, ()).is_none());
        }
    }
    assert_eq!(pipe.summary.accepted, 2);
    assert_eq!(pipe.summary.rejected, 3);
    let tail = pipe.finish().unwrap();
    assert_eq!(tail.len(), 2);
    assert_eq!(tail[0].identifier, PointId::Num(1));
    assert_eq!(tail[1].identifier, PointId::Num(5));
}

#[test]
fn query_plan_is_top_ten_exact_with_payload() {
    let p = search_plan();
    assert_eq!(p.limit, 10);
    assert_eq!(p.limit, DEFAULT_TOP_K);
    assert!(p.exact);
    assert!(p.with_payload);
}

#[test]
fn default_batch_capacity_is_one_hundred() {
    assert_eq!(DEFAULT_BATCH_CAPACITY, 100);
}
