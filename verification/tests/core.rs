use transcribe_pool::audio::{prepare_engine_input, validate_audio, FormatError, WavAudio};
use transcribe_pool::batch::{aggregate_outcomes, BatchResult, JobOutcome, ResultAggregator};
use transcribe_pool::env_opts::get_opts;
use transcribe_pool::naming::{to_outputfile_name, to_tmpfile_path};
use transcribe_pool::pool::WhisperPool;
use transcribe_pool::runner::{finish_job, join_segments, plan_engine_run, EnginePlan};

fn success(name: &str, text: &str) -> JobOutcome {
    JobOutcome::Success {
        name: name.to_owned(),
        text: text.to_owned(),
    }
}

fn failure(name: &str, cause: &str) -> JobOutcome {
    JobOutcome::Failure {
        name: name.to_owned(),
        cause: cause.to_owned(),
    }
}

#[test]
fn first_selection_is_slot_zero() {
    let mut pool = WhisperPool::new_pool(4);
    assert_eq!(pool.get_state(), 0);
}

#[test]
fn round_robin_cycles_in_slot_order() {
    let mut pool = WhisperPool::new_pool(3);
    assert_eq!(pool.get_state(), 0);
    assert_eq!(pool.get_state(), 1);
    assert_eq!(pool.get_state(), 2);
    assert_eq!(pool.get_state(), 0);
}

#[test]
fn pool_of_one_always_selects_slot_zero() {
    let mut pool = WhisperPool::new_pool(1);
    assert_eq!(pool.get_state(), 0);
    assert_eq!(pool.get_state(), 0);
}

#[test]
fn held_slot_is_not_granted_again() {
    let mut pool = WhisperPool::new_pool(2);
    assert!(pool.try_hold(0));
    assert!(!pool.try_hold(0));
    assert!(pool.try_hold(1));
    pool.release(0);
    assert!(pool.try_hold(0));
}

#[test]
fn empty_batch_is_an_empty_success() {
    let result = aggregate_outcomes(Vec::new());
    match result {
        BatchResult::Success { entries } => assert!(entries.is_empty()),
        BatchResult::Failure { .. } => panic!("empty batch must not fail"),
    }
}

#[test]
fn full_success_keeps_every_entry_in_order() {
    let outcomes = vec![
        success("a.wav", "text a"),
        success("b.wav", "text b"),
        success("c.wav", "text c"),
    ];
    match aggregate_outcomes(outcomes) {
        BatchResult::Success { entries } => {
            assert_eq!(entries.len(), 3);
            assert_eq!(entries[0], ("a.wav".to_owned(), "text a".to_owned()));
            assert_eq!(entries[1], ("b.wav".to_owned(), "text b".to_owned()));
            assert_eq!(entries[2], ("c.wav".to_owned(), "text c".to_owned()));
        }
        BatchResult::Failure { .. } => panic!("all-success batch must succeed"),
    }
}

#[test]
fn single_failure_wins_over_successes() {
    let outcomes = vec![
        success("a.wav", "text a"),
        failure("b.wav", "conversion exited with status 1"),
        success("c.wav", "text c"),
    ];
    match aggregate_outcomes(outcomes) {
        BatchResult::Failure { name, cause } => {
            assert_eq!(name, "b.wav");
            assert_eq!(cause, "conversion exited with status 1");
        }
        BatchResult::Success { .. } => panic!("a failing job must fail the batch"),
    }
}

#[test]
fn first_of_two_failures_is_kept() {
    let outcomes = vec![failure("a.wav", "first"), failure("b.wav", "second")];
    match aggregate_outcomes(outcomes) {
        BatchResult::Failure { name, cause } => {
            assert_eq!(name, "a.wav");
            assert_eq!(cause, "first");
        }
        BatchResult::Success { .. } => panic!("failures must surface"),
    }
}

#[test]
fn success_after_latched_failure_is_discarded() {
    let mut agg = ResultAggregator::new();
    agg.record(failure("bad.wav", "boom"));
    agg.record(success("good.wav", "text"));
    match agg.finish() {
        BatchResult::Failure { name, cause } => {
            assert_eq!(name, "bad.wav");
            assert_eq!(cause, "boom");
        }
        BatchResult::Success { .. } => panic!("latched failure must win"),
    }
}

#[test]
fn stereo_is_downmixed_to_mono() {
    let audio = WavAudio {
        channels: 2,
        sample_rate: 16000,
        samples: vec![10, 20, -5, -6],
    };
    let mono = validate_audio(audio).expect("stereo input must be accepted");
    assert_eq!(mono, vec![15, -6]);
}

#[test]
fn mono_passes_unchanged() {
    let audio = WavAudio {
        channels: 1,
        sample_rate: 16000,
        samples: vec![7, -7, 0],
    };
    let mono = validate_audio(audio).expect("mono input must be accepted");
    assert_eq!(mono, vec![7, -7, 0]);
}

#[test]
fn three_channels_are_rejected() {
    let audio = WavAudio {
        channels: 3,
        sample_rate: 16000,
        samples: vec![1, 2, 3],
    };
    assert_eq!(
        validate_audio(audio),
        Err(FormatError::UnsupportedChannels)
    );
}

#[test]
fn wrong_sample_rate_is_rejected() {
    let audio = WavAudio {
        channels: 1,
        sample_rate: 44100,
        samples: vec![1, 2, 3],
    };
    assert_eq!(
        validate_audio(audio),
        Err(FormatError::UnsupportedSampleRate)
    );
}

#[test]
fn channel_check_precedes_rate_check() {
    let audio = WavAudio {
        channels: 5,
        sample_rate: 8000,
        samples: vec![],
    };
    assert_eq!(
        validate_audio(audio),
        Err(FormatError::UnsupportedChannels)
    );
}

fn wav_bytes(channels: u16, sample_rate: u32, samples: &[i16]) -> Vec<u8> {
    let spec = hound::WavSpec {
        channels,
        sample_rate,
        bits_per_sample: 16,
        sample_format: hound::SampleFormat::Int,
    };
    let mut cursor = std::io::Cursor::new(Vec::new());
    let mut writer = hound::WavWriter::new(&mut cursor, spec).expect("writer");
    for s in samples {
        writer.write_sample(*s).expect("sample");
    }
    writer.finalize().expect("finalize");
    cursor.into_inner()
}

#[test]
fn decoded_mono_wav_yields_its_samples() {
    let bytes = wav_bytes(1, 16000, &[1, 2, 3, -4]);
    let mono = prepare_engine_input(&bytes).expect("valid wav must be accepted");
    assert_eq!(mono, vec![1, 2, 3, -4]);
}

#[test]
fn decoded_stereo_wav_is_downmixed() {
    let bytes = wav_bytes(2, 16000, &[10, 20, 30, 40]);
    let mono = prepare_engine_input(&bytes).expect("stereo wav must be accepted");
    assert_eq!(mono, vec![15, 35]);
}

#[test]
fn decoded_wav_with_wrong_rate_is_rejected() {
    let bytes = wav_bytes(1, 22050, &[1, 2]);
    assert_eq!(
        prepare_engine_input(&bytes),
        Err(FormatError::UnsupportedSampleRate)
    );
}

#[test]
fn garbage_bytes_are_rejected() {
    let bytes = b"definitely not audio".to_vec();
    assert_eq!(
        prepare_engine_input(&bytes),
        Err(FormatError::NotDecodable)
    );
}

#[test]
fn format_error_messages() {
    assert_eq!(
        FormatError::UnsupportedSampleRate.message(),
        "Sample rate should be 16000"
    );
    assert_eq!(
        FormatError::UnsupportedChannels.message(),
        "only mono or stereo audio is supported"
    );
    assert_eq!(
        FormatError::NotDecodable.message(),
        "could not decode normalized audio"
    );
}

#[test]
fn conversion_failure_skips_the_engine() {
    let plan = plan_engine_run(
        "a.wav".to_owned(),
        Err("ffmpeg exited with status 1".to_owned()),
    );
    match plan {
        EnginePlan::Reject { outcome } => match outcome {
            JobOutcome::Failure { name, cause } => {
                assert_eq!(name, "a.wav");
                assert_eq!(cause, "ffmpeg exited with status 1");
            }
            JobOutcome::Success { .. } => panic!("conversion failure cannot succeed"),
        },
        EnginePlan::Run { .. } => panic!("conversion failure must not reach the engine"),
    }
}

#[test]
fn invalid_format_skips_the_engine() {
    let bytes = wav_bytes(1, 8000, &[1, 2]);
    let plan = plan_engine_run("a.wav".to_owned(), Ok(bytes));
    match plan {
        EnginePlan::Reject { outcome } => match outcome {
            JobOutcome::Failure { name, cause } => {
                assert_eq!(name, "a.wav");
                assert_eq!(cause, "Sample rate should be 16000");
            }
            JobOutcome::Success { .. } => panic!("bad format cannot succeed"),
        },
        EnginePlan::Run { .. } => panic!("bad format must not reach the engine"),
    }
}

#[test]
fn valid_conversion_reaches_the_engine() {
    let bytes = wav_bytes(1, 16000, &[5, 6]);
    match plan_engine_run("a.wav".to_owned(), Ok(bytes)) {
        EnginePlan::Run { samples } => assert_eq!(samples, vec![5, 6]),
        EnginePlan::Reject { .. } => panic!("valid input must reach the engine"),
    }
}

#[test]
fn segments_are_joined_one_per_line() {
    let segments = vec!["hello".to_owned(), "world".to_owned()];
    assert_eq!(join_segments(&segments), "hello\nworld\n");
    assert_eq!(join_segments(&Vec::new()), "");
}

#[test]
fn engine_answers_become_outcomes() {
    match finish_job("a.wav".to_owned(), Ok("hello".to_owned())) {
        JobOutcome::Success { name, text } => {
            assert_eq!(name, "a.wav");
            assert_eq!(text, "hello");
        }
        JobOutcome::Failure { .. } => panic!("engine success must succeed"),
    }
    match finish_job("a.wav".to_owned(), Err("engine fault".to_owned())) {
        JobOutcome::Failure { name, cause } => {
            assert_eq!(name, "a.wav");
            assert_eq!(cause, "engine fault");
        }
        JobOutcome::Success { .. } => panic!("engine failure must fail"),
    }
}

#[test]
fn scenario_pool_of_one_serializes_two_valid_jobs() {
    // Two valid jobs race for a pool of size one: the slot is granted to one
    // job at a time, both eventually succeed, and the result maps both names.
    let mut pool = WhisperPool::new_pool(1);

    let slot_a = pool.get_state();
    assert!(pool.try_hold(slot_a));
    // The second job is pointed at the same slot but cannot hold it while
    // the first job's engine invocation is in flight.
    let slot_b = pool.get_state();
    assert_eq!(slot_b, slot_a);
    assert!(!pool.try_hold(slot_b));
    let outcome_a = finish_job("a.wav".to_owned(), Ok("text a".to_owned()));
    pool.release(slot_a);

    assert!(pool.try_hold(slot_b));
    let outcome_b = finish_job("b.wav".to_owned(), Ok("text b".to_owned()));
    pool.release(slot_b);

    match aggregate_outcomes(vec![outcome_a, outcome_b]) {
        BatchResult::Success { entries } => {
            assert_eq!(entries.len(), 2);
            assert!(entries.contains(&("a.wav".to_owned(), "text a".to_owned())));
            assert!(entries.contains(&("b.wav".to_owned(), "text b".to_owned())));
        }
        BatchResult::Failure { .. } => panic!("both jobs succeeded"),
    }
}

#[test]
fn scenario_one_conversion_failure_among_three_jobs() {
    // Pool of two, three jobs; the second job's conversion fails. The other
    // jobs run to completion but the batch reports the second job only.
    let mut pool = WhisperPool::new_pool(2);
    let slot_1 = pool.get_state();
    assert!(pool.try_hold(slot_1));
    let outcome_1 = finish_job("one.wav".to_owned(), Ok("text one".to_owned()));
    pool.release(slot_1);

    let plan_2 = plan_engine_run(
        "two.wav".to_owned(),
        Err("converter crashed".to_owned()),
    );
    let outcome_2 = match plan_2 {
        EnginePlan::Reject { outcome } => outcome,
        EnginePlan::Run { .. } => panic!("failed conversion must not reach the engine"),
    };

    let slot_3 = pool.get_state();
    assert!(pool.try_hold(slot_3));
    let outcome_3 = finish_job("three.wav".to_owned(), Ok("text three".to_owned()));
    pool.release(slot_3);

    match aggregate_outcomes(vec![outcome_1, outcome_2, outcome_3]) {
        BatchResult::Failure { name, cause } => {
            assert_eq!(name, "two.wav");
            assert_eq!(cause, "converter crashed");
        }
        BatchResult::Success { .. } => panic!("the failing job must surface"),
    }
}

#[test]
fn options_fall_back_to_defaults() {
    let opts = get_opts(None, None, None);
    assert_eq!(opts.port, 5000);
    assert_eq!(opts.model_path, "./models/ggml-large.bin");
    assert_eq!(opts.nstates, 1);
}

#[test]
fn configured_options_are_kept() {
    let opts = get_opts(Some(8080), Some("./models/tiny.bin".to_owned()), Some(3));
    assert_eq!(opts.port, 8080);
    assert_eq!(opts.model_path, "./models/tiny.bin");
    assert_eq!(opts.nstates, 3);
}

#[test]
fn derived_file_names() {
    assert_eq!(
        to_tmpfile_path("abc-123".to_owned()),
        "./tmpfiles/abc-123_blob"
    );
    assert_eq!(
        to_outputfile_name("./tmpfiles/abc-123_blob".to_owned()),
        "./tmpfiles/abc-123_blob_output.wav"
    );
}
