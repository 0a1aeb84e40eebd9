use varys::digits::u64_to_string;
use varys::files::file_name_or_full;
use varys::naming::{audio_file_name, capture_file_name, data_file_name_with, parse_artifact_name};
use varys::store::{Interaction, Session, InteractorConfig};

fn config() -> InteractorConfig {
    InteractorConfig {
        interface: "en0".to_string(),
        voice: "Zoe".to_string(),
        sensitivity: "10000".to_string(),
        model: "large".to_string(),
    }
}

#[test]
fn decimal_formatting() {
    assert_eq!(u64_to_string(0), "0");
    assert_eq!(u64_to_string(7), "7");
    assert_eq!(u64_to_string(1234567890), "1234567890");
    assert_eq!(u64_to_string(u64::MAX), "18446744073709551615");
}

#[test]
fn data_file_name_has_the_documented_shape() {
    let session = Session::create(3, config(), 100);
    let interaction = Interaction::create(7, 3, "Hey Siri. Roll a die".to_string(), 101);
    let name = data_file_name_with(&session, &interaction, "query-audio", "opus", "2024-01-02-03-04-05-678");
    assert_eq!(name, "s3i7-query-audio-2024-01-02-03-04-05-678.opus");
}

#[test]
fn parse_reads_the_prefix_back() {
    assert_eq!(parse_artifact_name("s3i7-query-audio-2024-01-02-03-04-05-678.opus"), Some((3, 7)));
    assert_eq!(parse_artifact_name("s123i456-capture-x.pcap"), Some((123, 456)));
}

#[test]
fn parse_rejects_names_without_the_prefix() {
    assert_eq!(parse_artifact_name(""), None);
    assert_eq!(parse_artifact_name("x3i7-a"), None);
    assert_eq!(parse_artifact_name("s3x7-a"), None);
    assert_eq!(parse_artifact_name("si7-a"), None);
    assert_eq!(parse_artifact_name("s3i-a"), None);
    assert_eq!(parse_artifact_name("s3i7x"), None);
}

#[test]
fn stamped_names_still_carry_their_row() {
    let session = Session::create(41, config(), 100);
    let interaction = Interaction::create(5, 41, "q".to_string(), 101);
    let query_name = audio_file_name(&session, &interaction, "query");
    let response_name = audio_file_name(&session, &interaction, "response");
    let capture_name = capture_file_name(&session, &interaction);
    assert_eq!(parse_artifact_name(&query_name), Some((41, 5)));
    assert_eq!(parse_artifact_name(&response_name), Some((41, 5)));
    assert_eq!(parse_artifact_name(&capture_name), Some((41, 5)));
    assert!(query_name.ends_with(".opus"));
    assert!(capture_name.ends_with(".pcap"));
    assert!(query_name.starts_with("s41i5-query-audio-"));
    assert!(response_name.starts_with("s41i5-response-audio-"));
    assert!(capture_name.starts_with("s41i5-capture-"));
}

#[test]
fn file_name_or_full_takes_the_last_component() {
    assert_eq!(file_name_or_full("path/to/text.txt"), "text.txt");
    assert_eq!(file_name_or_full("text.txt"), "text.txt");
    assert_eq!(file_name_or_full("/abs/file.pcap"), "file.pcap");
    // trailing slashes are ignored, as the host's path handling does
    assert_eq!(file_name_or_full("a/b/"), "b");
    assert_eq!(file_name_or_full("a//"), "a");
    // nothing usable is left of these, so the full path comes back
    assert_eq!(file_name_or_full(""), "");
    assert_eq!(file_name_or_full("/"), "/");
    assert_eq!(file_name_or_full("path/.."), "path/..");
}

#[test]
fn parse_reads_digit_runs_as_numbers() {
    // leading zeros still denote the same ids
    assert_eq!(parse_artifact_name("s007i1-capture-x.pcap"), Some((7, 1)));
    // a run too large for the id type cannot belong to any row
    assert_eq!(parse_artifact_name("s99999999999999999999999i1-a"), None);
    assert_eq!(parse_artifact_name("s1i99999999999999999999999-a"), None);
}
