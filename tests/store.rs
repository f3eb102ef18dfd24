use nvim_llama::error::PipelineError;
use nvim_llama::store::{Collection, Distance, IndexedPoint, Similarity};

fn point(id: u64, vector: Vec<i16>, payload: &str) -> IndexedPoint {
    IndexedPoint { id, vector, payload: payload.to_string() }
}

#[test]
fn search_after_recreate_is_empty() {
    let c = Collection::recreate("code".to_string(), 3, Distance::Dot);
    assert_eq!(c.len(), 0);
    assert_eq!(c.name(), "code");
    assert_eq!(c.dimension(), 3);
    let hits = c.search(&vec![1, 2, 3], 10, true).unwrap();
    assert!(hits.is_empty());
}

#[test]
fn search_finds_single_point_just_written() {
    let mut c = Collection::recreate("code".to_string(), 3, Distance::Dot);
    c.upsert(point(7, vec![1, -2, 3], "p")).unwrap();
    let hits = c.search(&vec![1, -2, 3], 1, true).unwrap();
    assert_eq!(hits.len(), 1);
    assert_eq!(hits[0].id, 7);
    assert_eq!(hits[0].score, Similarity { num: 14, den: 1 });
    assert_eq!(hits[0].payload, "p");
}

#[test]
fn upsert_same_id_overwrites() {
    let mut c = Collection::recreate("code".to_string(), 2, Distance::Dot);
    c.upsert(point(1, vec![1, 0], "old")).unwrap();
    c.upsert(point(1, vec![0, 1], "new")).unwrap();
    assert_eq!(c.len(), 1);
    let hits = c.search(&vec![0, 1], 5, true).unwrap();
    assert_eq!(hits.len(), 1);
    assert_eq!(hits[0].payload, "new");
    assert_eq!(hits[0].score, Similarity { num: 1, den: 1 });
}

#[test]
fn upsert_wrong_dimension_is_rejected() {
    let mut c = Collection::recreate("code".to_string(), 2, Distance::Dot);
    let r = c.upsert(point(1, vec![1, 0, 0], "x"));
    assert_eq!(r, Err(PipelineError::Config { expected: 2, found: 3 }));
    assert_eq!(c.len(), 0);
}

#[test]
fn search_wrong_dimension_is_rejected() {
    let c = Collection::recreate("code".to_string(), 2, Distance::Dot);
    let r = c.search(&vec![1], 3, true);
    assert_eq!(r.err(), Some(PipelineError::Config { expected: 2, found: 1 }));
}

#[test]
fn search_orders_by_score_then_id_and_cuts_at_top_k() {
    let mut c = Collection::recreate("code".to_string(), 2, Distance::Dot);
    c.upsert(point(5, vec![1, 1], "a")).unwrap();
    c.upsert(point(2, vec![3, 0], "b")).unwrap();
    c.upsert(point(9, vec![0, -4], "c")).unwrap();
    c.upsert(point(1, vec![2, 0], "d")).unwrap();
    let hits = c.search(&vec![1, 0], 3, true).unwrap();
    let ids: Vec<u64> = hits.iter().map(|h| h.id).collect();
    let scores: Vec<i128> = hits.iter().map(|h| h.score.num).collect();
    assert_eq!(ids, vec![2, 1, 5]);
    assert_eq!(scores, vec![3, 2, 1]);
}

#[test]
fn search_breaks_ties_by_ascending_id() {
    let mut c = Collection::recreate("code".to_string(), 1, Distance::Dot);
    c.upsert(point(30, vec![2], "x")).unwrap();
    c.upsert(point(10, vec![2], "y")).unwrap();
    c.upsert(point(20, vec![2], "z")).unwrap();
    let hits = c.search(&vec![1], 10, true).unwrap();
    let ids: Vec<u64> = hits.iter().map(|h| h.id).collect();
    assert_eq!(ids, vec![10, 20, 30]);
}

#[test]
fn search_with_zero_top_k_is_empty() {
    let mut c = Collection::recreate("code".to_string(), 1, Distance::Dot);
    c.upsert(point(1, vec![2], "x")).unwrap();
    assert!(c.search(&vec![1], 0, true).unwrap().is_empty());
}

#[test]
fn search_scores_extreme_components_exactly() {
    let mut c = Collection::recreate("code".to_string(), 2, Distance::Dot);
    c.upsert(point(1, vec![i16::MIN, i16::MIN], "x")).unwrap();
    let hits = c.search(&vec![i16::MIN, i16::MIN], 1, true).unwrap();
    assert_eq!(hits[0].score, Similarity { num: 1i128 << 31, den: 1 });
}

#[test]
fn cosine_prefers_direction_over_length() {
    let mut c = Collection::recreate("code".to_string(), 2, Distance::Cosine);
    assert_eq!(c.distance(), Distance::Cosine);
    c.upsert(point(1, vec![3, 3], "long")).unwrap();
    c.upsert(point(2, vec![1, 0], "aligned")).unwrap();
    let hits = c.search(&vec![1, 0], 2, true).unwrap();
    assert_eq!(hits[0].payload, "aligned");
    assert_eq!(hits[0].score, Similarity { num: 1, den: 1 });
    assert_eq!(hits[1].payload, "long");
    assert_eq!(hits[1].score, Similarity { num: 9, den: 18 });
}

#[test]
fn cosine_ranks_opposite_direction_last() {
    let mut c = Collection::recreate("code".to_string(), 2, Distance::Cosine);
    c.upsert(point(1, vec![-1, 0], "opposite")).unwrap();
    c.upsert(point(2, vec![0, 0], "zero")).unwrap();
    c.upsert(point(3, vec![0, 5], "orthogonal")).unwrap();
    let hits = c.search(&vec![2, 0], 3, true).unwrap();
    let ids: Vec<u64> = hits.iter().map(|h| h.id).collect();
    assert_eq!(ids, vec![2, 3, 1]);
    assert_eq!(hits[0].score, Similarity { num: 0, den: 1 });
    assert_eq!(hits[2].score, Similarity { num: -4, den: 1 });
}

#[test]
fn search_without_payload_leaves_it_empty() {
    let mut c = Collection::recreate("code".to_string(), 1, Distance::Dot);
    c.upsert(point(1, vec![2], "x")).unwrap();
    let hits = c.search(&vec![1], 1, false).unwrap();
    assert_eq!(hits[0].id, 1);
    assert_eq!(hits[0].payload, "");
}
