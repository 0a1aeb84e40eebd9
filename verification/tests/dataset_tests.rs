use varys::dataset::DatasetSize;
use varys::store::Interaction;

fn interaction(id: u32, query: &str) -> Interaction {
    Interaction::create(id, 1, query.to_string(), 100)
}

#[test]
fn dataset_sizes() {
    assert_eq!(DatasetSize::Full.queries().len(), 227);
    assert_eq!(DatasetSize::Small.queries().len(), 13);
    assert_eq!(DatasetSize::Binary.queries().len(), 2);
}

#[test]
fn default_is_the_full_dataset() {
    assert_eq!(DatasetSize::default(), DatasetSize::Full);
}

#[test]
fn binary_queries_are_the_two_calls() {
    assert_eq!(
        DatasetSize::Binary.queries(),
        vec!["Hey Siri. Call John Doe", "Hey Siri. Call Mary Poppins"]
    );
}

#[test]
fn small_queries_cover_the_categories() {
    let small = DatasetSize::Small.queries();
    assert!(small.contains(&"Hey Siri. Roll a die"));
    assert!(small.contains(&"Hey Siri. What’s 2330 dollars in euros?"));
    assert!(!small.contains(&"Hey Siri. Call John Doe"));
}

#[test]
fn the_small_queries_are_not_in_the_full_set() {
    // the small dataset's queries are excluded from the full dataset so their
    // higher sample count cannot skew training
    let full = DatasetSize::Full.queries();
    for q in DatasetSize::Small.queries() {
        assert!(!full.contains(&q), "{q} should not be in the full dataset");
    }
}

#[test]
fn contains_query_matches_membership() {
    assert!(DatasetSize::Binary.contains_query("Hey Siri. Call John Doe"));
    assert!(!DatasetSize::Binary.contains_query("Hey Siri. Roll a die"));
    assert!(DatasetSize::Small.contains_query("Hey Siri. Roll a die"));
}

#[test]
fn full_filter_keeps_everything() {
    let rows = vec![interaction(1, "anything"), interaction(2, "at all")];
    let kept = DatasetSize::Full.filter(rows);
    assert_eq!(kept.len(), 2);
    assert_eq!(kept[0].query, "anything");
    assert_eq!(kept[1].query, "at all");
}

#[test]
fn binary_filter_keeps_only_its_queries_in_order() {
    let rows = vec![
        interaction(1, "Hey Siri. Call John Doe"),
        interaction(2, "Hey Siri. Roll a die"),
        interaction(3, "Hey Siri. Call Mary Poppins"),
        interaction(4, "Hey Siri. Call John Doe"),
    ];
    let kept = DatasetSize::Binary.filter(rows);
    assert_eq!(kept.len(), 3);
    assert_eq!(kept[0].id, 1);
    assert_eq!(kept[1].id, 3);
    assert_eq!(kept[2].id, 4);
}

#[test]
fn small_filter_drops_unknown_queries() {
    let rows = vec![interaction(1, "Hey Siri. Unheard of")];
    let kept = DatasetSize::Small.filter(rows);
    assert!(kept.is_empty());
}
