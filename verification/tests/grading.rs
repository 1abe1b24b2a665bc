use grader::compare::bytes_equal;
use grader::compare::channel_passes;
use grader::compare::grade_case;
use grader::engine::GradingEngine;
use grader::lifecycle::ContainerState;
use grader::lifecycle::entrypoint_env;
use grader::lifecycle::image_name;
use grader::lifecycle::volume_spec;
use grader::mux::Chunk;
use grader::mux::ChunkSource;
use grader::mux::StreamError;
use grader::mux::accumulate;
use grader::mux::demux;
use grader::recipe::Recipe;
use grader::recipe::TestCase;
use grader::report::summary_line;
use grader::resolve::ConfigurationError;
use grader::resolve::resolve_entrypoint;

fn strings(items: &[&str]) -> Vec<String> {
    items.iter().map(|s| s.to_string()).collect()
}

// ---- entrypoint resolution ----

#[test]
fn resolve_picks_first_existing_candidate() {
    let candidates = strings(&["main.py", "app.py"]);
    let present = vec![false, true];
    let r = resolve_entrypoint(None, &candidates, &present);
    assert_eq!(r, Ok("app.py".to_string()));
}

#[test]
fn resolve_prefers_earlier_candidate() {
    let candidates = strings(&["main.py", "app.py"]);
    let present = vec![true, true];
    let r = resolve_entrypoint(None, &candidates, &present);
    assert_eq!(r, Ok("main.py".to_string()));
}

#[test]
fn resolve_fails_when_nothing_exists() {
    let candidates = strings(&["main.py", "app.py"]);
    let present = vec![false, false];
    let r = resolve_entrypoint(None, &candidates, &present);
    assert_eq!(r, Err(ConfigurationError::NoEntrypoint));
}

#[test]
fn resolve_override_wins_over_metadata() {
    let candidates = strings(&["main.py", "app.py"]);
    let present = vec![true, true];
    let r = resolve_entrypoint(Some("custom.py".to_string()), &candidates, &present);
    assert_eq!(r, Ok("custom.py".to_string()));
}

#[test]
fn resolve_override_skips_existence_check() {
    let candidates = strings(&["main.py"]);
    let present = vec![false];
    let r = resolve_entrypoint(Some("missing.py".to_string()), &candidates, &present);
    assert_eq!(r, Ok("missing.py".to_string()));
}

// ---- byte-exact comparison ----

#[test]
fn bytes_equal_is_exact() {
    assert!(bytes_equal(&b"9\n".to_vec(), &b"9\n".to_vec()));
    assert!(!bytes_equal(&b"9".to_vec(), &b"9\n".to_vec()));
    assert!(!bytes_equal(&b"9\n".to_vec(), &b"9".to_vec()));
    assert!(bytes_equal(&Vec::new(), &Vec::new()));
}

#[test]
fn trailing_newline_difference_fails() {
    let case = TestCase::new(None, Some(b"9\n".to_vec()), None);
    assert!(!grade_case(&case, &b"9".to_vec(), &Vec::new()));
    let case = TestCase::new(None, Some(b"9".to_vec()), None);
    assert!(!grade_case(&case, &b"9\n".to_vec(), &Vec::new()));
}

#[test]
fn exact_output_passes() {
    let case = TestCase::new(None, Some(b"9\n".to_vec()), Some(b"warn\n".to_vec()));
    assert!(grade_case(&case, &b"9\n".to_vec(), &b"warn\n".to_vec()));
}

#[test]
fn no_expectations_always_passes() {
    let case = TestCase::new(Some(b"3\n".to_vec()), None, None);
    assert!(grade_case(&case, &b"anything at all".to_vec(), &b"noise".to_vec()));
    assert!(grade_case(&case, &Vec::new(), &Vec::new()));
}

#[test]
fn stderr_mismatch_fails_case() {
    let case = TestCase::new(None, None, Some(b"ValueError\n".to_vec()));
    assert!(!grade_case(&case, &b"9\n".to_vec(), &b"TypeError\n".to_vec()));
}

#[test]
fn undeclared_channel_is_never_checked() {
    assert!(channel_passes(&None, &b"whatever".to_vec()));
    assert!(!channel_passes(&Some(b"a".to_vec()), &b"b".to_vec()));
}

// ---- stream demultiplexing ----

fn frame(tag: u8, payload: &[u8]) -> Vec<u8> {
    let mut f = vec![tag, 0, 0, 0];
    f.extend_from_slice(&(payload.len() as u32).to_be_bytes());
    f.extend_from_slice(payload);
    f
}

#[test]
fn demux_splits_tagged_frames() {
    let mut bytes = frame(1, b"9\n");
    bytes.extend_from_slice(&frame(2, b"x"));
    let chunks = demux(&bytes).unwrap();
    assert_eq!(chunks.len(), 2);
    assert_eq!(chunks[0].source, ChunkSource::Stdout);
    assert_eq!(chunks[0].payload, b"9\n".to_vec());
    assert_eq!(chunks[1].source, ChunkSource::Stderr);
    assert_eq!(chunks[1].payload, b"x".to_vec());
}

#[test]
fn demux_preserves_emission_order() {
    let mut bytes = frame(1, b"one ");
    bytes.extend_from_slice(&frame(2, b"err1 "));
    bytes.extend_from_slice(&frame(1, b"two"));
    bytes.extend_from_slice(&frame(2, b"err2"));
    let chunks = demux(&bytes).unwrap();
    let sources: Vec<ChunkSource> = chunks.iter().map(|c| c.source).collect();
    assert_eq!(
        sources,
        vec![
            ChunkSource::Stdout,
            ChunkSource::Stderr,
            ChunkSource::Stdout,
            ChunkSource::Stderr
        ]
    );
    let (out, err) = accumulate(&chunks);
    assert_eq!(out, b"one two".to_vec());
    assert_eq!(err, b"err1 err2".to_vec());
}

#[test]
fn demux_of_empty_channel_is_empty() {
    let chunks = demux(&Vec::new()).unwrap();
    assert!(chunks.is_empty());
    let (out, err) = accumulate(&chunks);
    assert!(out.is_empty());
    assert!(err.is_empty());
}

#[test]
fn demux_rejects_truncated_header() {
    let bytes = vec![1u8, 0, 0];
    assert_eq!(demux(&bytes).err(), Some(StreamError::Truncated));
}

#[test]
fn demux_rejects_truncated_payload() {
    let mut bytes = frame(1, b"hello");
    bytes.pop();
    assert_eq!(demux(&bytes).err(), Some(StreamError::Truncated));
}

#[test]
fn demux_rejects_unknown_stream_tag() {
    let bytes = frame(7, b"hm");
    assert_eq!(demux(&bytes).err(), Some(StreamError::UnknownStream));
}

#[test]
fn demux_keeps_stdin_frames_but_accumulate_ignores_them() {
    let mut bytes = frame(0, b"3\n");
    bytes.extend_from_slice(&frame(1, b"9\n"));
    let chunks = demux(&bytes).unwrap();
    assert_eq!(chunks.len(), 2);
    assert_eq!(chunks[0].source, ChunkSource::Stdin);
    let (out, err) = accumulate(&chunks);
    assert_eq!(out, b"9\n".to_vec());
    assert!(err.is_empty());
}

#[test]
fn demux_accepts_empty_payload_frame() {
    let bytes = frame(2, b"");
    let chunks = demux(&bytes).unwrap();
    assert_eq!(chunks.len(), 1);
    assert!(chunks[0].payload.is_empty());
}

#[test]
fn accumulate_never_merges_channels() {
    let chunks = vec![
        Chunk { source: ChunkSource::Stderr, payload: b"E1".to_vec() },
        Chunk { source: ChunkSource::Stdout, payload: b"O1".to_vec() },
        Chunk { source: ChunkSource::Stderr, payload: b"E2".to_vec() },
    ];
    let (out, err) = accumulate(&chunks);
    assert_eq!(out, b"O1".to_vec());
    assert_eq!(err, b"E1E2".to_vec());
}

// ---- summary rendering ----

#[test]
fn summary_line_renders_decimal_counters() {
    assert_eq!(summary_line(2, 2), "2/2 cases passed");
    assert_eq!(summary_line(0, 2), "0/2 cases passed");
    assert_eq!(summary_line(10, 123), "10/123 cases passed");
    assert_eq!(summary_line(0, 0), "0/0 cases passed");
}

// ---- orchestrator configuration values ----

#[test]
fn image_name_is_prefix_language_tag() {
    assert_eq!(image_name("python"), "cheese-grader/runner-python:latest");
}

#[test]
fn entrypoint_env_carries_resolved_entrypoint() {
    assert_eq!(entrypoint_env("app.py"), "ENTRYPOINT=app.py");
}

#[test]
fn volume_spec_mounts_code_read_only() {
    assert_eq!(volume_spec("/home/me/code"), "/home/me/code:/usr/src/code:ro");
}

// ---- the grading session ----

fn squaring_recipe() -> Recipe {
    let case1 = TestCase::new(Some(b"3\n".to_vec()), Some(b"9\n".to_vec()), None);
    let case2 = TestCase::new(Some(b"-1\n".to_vec()), None, Some(b"ValueError\n".to_vec()));
    Recipe::new(vec![case1, case2])
}

#[test]
fn correct_squaring_program_passes_both_cases() {
    let mut engine = GradingEngine::new(squaring_recipe(), "main.py".to_string());
    engine.mark_created();
    engine.mark_started();
    assert!(engine.can_attach());
    assert_eq!(engine.current_input().cloned(), Some(b"3\n".to_vec()));
    assert!(engine.record_case(b"9\n".to_vec(), Vec::new()));
    engine.mark_exited();
    engine.mark_started();
    assert_eq!(engine.current_input().cloned(), Some(b"-1\n".to_vec()));
    assert!(engine.record_case(Vec::new(), b"ValueError\n".to_vec()));
    assert!(engine.is_done());
    engine.mark_removed();
    assert_eq!(engine.passed_count(), 2);
    assert_eq!(engine.summary(), "2/2 cases passed");
}

#[test]
fn silent_program_fails_both_cases() {
    let mut engine = GradingEngine::new(squaring_recipe(), "main.py".to_string());
    engine.mark_created();
    engine.mark_started();
    assert!(!engine.record_case(Vec::new(), Vec::new()));
    engine.mark_exited();
    engine.mark_started();
    assert!(!engine.record_case(Vec::new(), Vec::new()));
    engine.mark_removed();
    assert_eq!(engine.passed_count(), 0);
    assert_eq!(engine.summary(), "0/2 cases passed");
}

#[test]
fn summary_denominator_is_recipe_size() {
    let cases = vec![
        TestCase::new(None, Some(b"a".to_vec()), None),
        TestCase::new(None, Some(b"b".to_vec()), None),
        TestCase::new(None, Some(b"c".to_vec()), None),
    ];
    let mut engine = GradingEngine::new(Recipe::new(cases), "main.py".to_string());
    engine.mark_created();
    engine.mark_started();
    engine.record_case(b"a".to_vec(), Vec::new());
    engine.mark_exited();
    engine.mark_started();
    engine.record_case(b"wrong".to_vec(), Vec::new());
    engine.mark_exited();
    engine.mark_started();
    engine.record_case(b"c".to_vec(), Vec::new());
    assert_eq!(engine.summary(), "2/3 cases passed");
}

#[test]
fn results_record_case_numbers_and_captured_bytes() {
    let mut engine = GradingEngine::new(squaring_recipe(), "main.py".to_string());
    engine.mark_created();
    engine.mark_started();
    engine.record_case(b"banana".to_vec(), b"oops".to_vec());
    engine.mark_exited();
    engine.mark_started();
    engine.record_case(Vec::new(), b"ValueError\n".to_vec());
    let results = engine.results();
    assert_eq!(results.len(), 2);
    assert_eq!(results[0].case_index, 1);
    assert!(!results[0].passed);
    assert_eq!(results[0].stdout, b"banana".to_vec());
    assert_eq!(results[0].stderr, b"oops".to_vec());
    assert_eq!(results[1].case_index, 2);
    assert!(results[1].passed);
}

#[test]
fn lifecycle_marks_follow_the_state_machine() {
    let recipe = Recipe::new(Vec::new());
    let mut engine = GradingEngine::new(recipe, "main.py".to_string());
    assert!(!engine.can_attach());
    assert!(engine.is_done());
    engine.mark_created();
    assert!(!engine.can_attach());
    engine.mark_started();
    assert!(engine.can_attach());
    engine.mark_exited();
    assert!(!engine.can_attach());
    engine.mark_started();
    engine.mark_removed();
    assert!(!engine.can_attach());
    assert_eq!(engine.summary(), "0/0 cases passed");
}

#[test]
fn case_with_no_input_reports_none() {
    let recipe = Recipe::new(vec![TestCase::new(None, Some(b"hi\n".to_vec()), None)]);
    let engine = GradingEngine::new(recipe, "main.py".to_string());
    assert_eq!(engine.current_input(), None);
}

#[test]
fn lifecycle_state_is_observable() {
    let recipe = Recipe::new(Vec::new());
    let mut engine = GradingEngine::new(recipe, "main.py".to_string());
    assert_eq!(engine.container, ContainerState::NotCreated);
    engine.mark_created();
    assert_eq!(engine.container, ContainerState::Created);
    engine.mark_started();
    assert_eq!(engine.container, ContainerState::Running);
    engine.mark_exited();
    assert_eq!(engine.container, ContainerState::Exited);
    engine.mark_removed();
    assert_eq!(engine.container, ContainerState::Removed);
}
