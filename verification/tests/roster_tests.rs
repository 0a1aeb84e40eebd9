use varys::engine::Interactor;
use varys::error::Error;
use varys::recognise::Model;

fn engine(voices: &[&str]) -> Interactor {
    Interactor::new(
        "en0".to_string(),
        voices.iter().map(|v| v.to_string()).collect(),
        10000,
        Model::Medium,
        "./data".to_string(),
    )
}

fn counts(voices: &[&str], sessions: usize) -> Vec<usize> {
    let mut engine = engine(voices);
    let mut used = vec![0usize; voices.len()];
    for _ in 0..sessions {
        let v = engine.next_voice().unwrap();
        let slot = voices.iter().position(|w| *w == v).unwrap();
        used[slot] += 1;
    }
    used
}

#[test]
fn each_voice_is_used_floor_or_ceiling_of_k_over_n_times() {
    // seven sessions over three voices: 3, 2, 2
    assert_eq!(counts(&["A", "B", "C"], 7), vec![3, 2, 2]);
    // six sessions over three voices: exactly two each
    assert_eq!(counts(&["A", "B", "C"], 6), vec![2, 2, 2]);
    // one session over four voices: only the head voice spoke
    assert_eq!(counts(&["A", "B", "C", "D"], 1), vec![1, 0, 0, 0]);
}

#[test]
fn rotation_walks_the_roster_in_order() {
    let mut engine = engine(&["A", "B"]);
    assert_eq!(engine.next_voice().unwrap(), "A");
    assert_eq!(engine.next_voice().unwrap(), "B");
    assert_eq!(engine.next_voice().unwrap(), "A");
    assert_eq!(engine.next_voice().unwrap(), "B");
}

#[test]
fn an_empty_roster_has_no_voice_to_give() {
    let mut engine = engine(&[]);
    assert_eq!(engine.next_voice().unwrap_err(), Error::NoVoiceProvided);
}
