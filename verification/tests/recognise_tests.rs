use varys::recognise::{assemble_transcript, Model, Recogniser, MODEL_LARGE, MODEL_MEDIUM_EN};

#[test]
fn model_selectors_map_to_their_files() {
    let large = Recogniser::with_model(Model::Large);
    assert_eq!(large.model_path, MODEL_LARGE);
    let medium = Recogniser::with_model(Model::Medium);
    assert_eq!(medium.model_path, MODEL_MEDIUM_EN);
    let custom = Recogniser::with_model_path("models/custom.bin");
    assert_eq!(custom.model_path, "models/custom.bin");
}

#[test]
fn model_names_for_the_session_row() {
    assert_eq!(Model::Large.name(), "large");
    assert_eq!(Model::Medium.name(), "medium");
}

#[test]
fn transcripts_concatenate_segments_in_order() {
    let segments = vec![" Roll".to_string(), " a".to_string(), " die.".to_string()];
    assert_eq!(assemble_transcript(&segments), " Roll a die.");
    assert_eq!(assemble_transcript(&Vec::new()), "");
}
