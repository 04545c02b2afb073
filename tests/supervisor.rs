use eegmark::supervisor::{
    decimal, finish_run, score_benchmark, score_from_capture, RunMonitor, Score, Walltime,
};

fn reported(s: &Score) -> Option<f64> {
    match s {
        Score::Reported(t) => Some(t.parse::<f64>().expect("a decimal number")),
        Score::DailyRate(_) => None,
    }
}

fn daily(s: &Score) -> Option<f64> {
    match s {
        Score::DailyRate(w) => Some(86400.0 / (w.secs as f64 + w.nanos as f64 * 1e-9)),
        Score::Reported(_) => None,
    }
}

fn secs(s: u64) -> Walltime {
    Walltime { secs: s, nanos: 0 }
}

#[test]
fn score_with_space() {
    assert_eq!(reported(&score_benchmark("score: 42.5", secs(3))), Some(42.5));
}

#[test]
fn score_without_space_and_negative() {
    assert_eq!(reported(&score_benchmark("score:-3.2", secs(3))), Some(-3.2));
}

#[test]
fn trailing_blank_lines_are_ignored() {
    let out = "step 1\nscore: 12\n\n   \n\t\n";
    assert_eq!(reported(&score_benchmark(out, secs(3))), Some(12.0));
    let out = "score: 5\r\n\r\n";
    assert_eq!(reported(&score_benchmark(out, secs(3))), Some(5.0));
}

#[test]
fn no_score_line_falls_back_to_daily_rate() {
    let s = score_benchmark("done\n", secs(8));
    assert!(reported(&s).is_none());
    assert!((daily(&s).unwrap() - 10800.0).abs() < 1e-9);
    let s = score_benchmark("score: 9\nmore output\n", Walltime { secs: 1, nanos: 500_000_000 });
    assert!((daily(&s).unwrap() - 57600.0).abs() < 1e-6);
}

#[test]
fn empty_output_falls_back_to_daily_rate() {
    let s = score_benchmark("", secs(86400));
    assert!((daily(&s).unwrap() - 1.0).abs() < 1e-12);
}

#[test]
fn zero_walltime_still_has_a_rate() {
    match score_benchmark("", Walltime { secs: 0, nanos: 0 }) {
        Score::DailyRate(w) => assert_eq!(w, Walltime { secs: 0, nanos: 1 }),
        Score::Reported(_) => panic!("no score was printed"),
    }
}

#[test]
fn score_line_must_be_whole_and_decimal() {
    assert!(reported(&score_benchmark("final score: 3", secs(1))).is_none());
    assert!(reported(&score_benchmark("score: 3 points", secs(1))).is_none());
    assert!(reported(&score_benchmark("score: 1,5", secs(1))).is_none());
    assert!(reported(&score_benchmark("score: --", secs(1))).is_none());
    assert!(reported(&score_benchmark("Score: 3", secs(1))).is_none());
    assert_eq!(reported(&score_benchmark("score: +.5", secs(1))), Some(0.5));
}

#[test]
fn decimal_numbers() {
    for t in ["7", "-3.2", "+1", "5.", ".5", "0012.50"] {
        assert!(decimal(t), "{}", t);
    }
    for t in ["", "-", ".", "1.2.3", "1,5", "1-2", "+-1", "e5"] {
        assert!(!decimal(t), "{}", t);
    }
}

#[test]
fn monitor_keeps_the_peak() {
    let mut m = RunMonitor::new();
    assert_eq!(m.max_memory, 0);
    for sample in [300u64, 1200, 800, 1200, 5] {
        m.record_memory(sample);
    }
    assert_eq!(m.max_memory, 1200);
}

#[test]
fn successful_run_scores_the_last_line() {
    let mut m = RunMonitor::new();
    m.record_memory(1 << 30);
    let w = Walltime { secs: 2, nanos: 250 };
    let t = finish_run(true, "warming up\nscore: 7\n", w, &m).expect("the run succeeded");
    assert_eq!(reported(&t.score), Some(7.0));
    assert!(t.max_memory > 0);
    assert_eq!(t.walltime, w);
    assert!(t.walltime.as_secs() > 0);
}

#[test]
fn failed_run_yields_nothing() {
    let mut m = RunMonitor::new();
    m.record_memory(4096);
    assert!(finish_run(false, "warming up\nscore: 7\n", secs(2), &m).is_none());
    assert!(finish_run(false, "", secs(0), &m).is_none());
}

#[test]
fn score_from_a_captured_number() {
    assert_eq!(reported(&score_from_capture(Some("42.5".to_string()), secs(1))), Some(42.5));
    let s = score_from_capture(Some("4,2".to_string()), secs(4));
    assert!((daily(&s).unwrap() - 21600.0).abs() < 1e-9);
    let s = score_from_capture(None, secs(2));
    assert!((daily(&s).unwrap() - 43200.0).abs() < 1e-9);
}
