use mattr::model::{MattrError, Ratio};
use mattr::{optimized, reference};

fn toks(words: &[&str]) -> Vec<String> {
    words.iter().map(|w| w.to_string()).collect()
}

fn ratio_f64(r: Ratio) -> f64 {
    r.num as f64 / r.den as f64
}

#[test]
fn small_sample_equals_whole_sequence_ttr_for_every_span() {
    let tokens = toks(&["A", "B", "A", "C", "B", "D"]);
    for span in 1..=6usize {
        let r = reference::get_mattr(&tokens, span).unwrap();
        let o = optimized::get_mattr(&tokens, span).unwrap();
        assert_eq!(r, Ratio { num: 4, den: 6 });
        assert_eq!(o, Ratio { num: 4, den: 6 });
        assert!((ratio_f64(r) - 0.6667).abs() < 1e-3);
        assert!((ratio_f64(r) - 4.0 / 6.0).abs() < 1e-12);
    }
}

#[test]
fn sixty_distinct_tokens_span_ten_scores_one() {
    let words: Vec<String> = (0..60).map(|i| format!("w{}", i)).collect();
    let r = reference::get_mattr(&words, 10).unwrap();
    let o = optimized::get_mattr(&words, 10).unwrap();
    assert_eq!(r, Ratio { num: 510, den: 510 });
    assert_eq!(o, Ratio { num: 510, den: 510 });
    assert_eq!(ratio_f64(r), 1.0);
    assert_eq!(ratio_f64(o), 1.0);
}

#[test]
fn sixty_identical_tokens_span_ten_scores_a_tenth() {
    let words: Vec<String> = (0..60).map(|_| "SAME".to_string()).collect();
    let r = reference::get_mattr(&words, 10).unwrap();
    let o = optimized::get_mattr(&words, 10).unwrap();
    assert_eq!(r, Ratio { num: 51, den: 510 });
    assert_eq!(o, Ratio { num: 51, den: 510 });
    assert!((ratio_f64(r) - 0.1).abs() < 1e-12);
    assert!((ratio_f64(o) - 0.1).abs() < 1e-12);
}

#[test]
fn empty_sequence_fails_with_empty_input() {
    let tokens: Vec<String> = Vec::new();
    assert_eq!(reference::get_mattr(&tokens, 1), Err(MattrError::EmptyInput));
    assert_eq!(optimized::get_mattr(&tokens, 1), Err(MattrError::EmptyInput));
    // An empty sequence outranks a bad span: it is reported as EmptyInput.
    assert_eq!(reference::get_mattr(&tokens, 0), Err(MattrError::EmptyInput));
    assert_eq!(optimized::get_mattr(&tokens, 0), Err(MattrError::EmptyInput));
}

#[test]
fn zero_window_span_fails_with_invalid_window_span() {
    let tokens = toks(&["A", "B"]);
    assert_eq!(reference::get_mattr(&tokens, 0), Err(MattrError::InvalidWindowSpan));
    assert_eq!(optimized::get_mattr(&tokens, 0), Err(MattrError::InvalidWindowSpan));
}

#[test]
fn window_span_beyond_length_fails_with_invalid_window_span() {
    let tokens = toks(&["A", "B", "A", "C", "B", "D"]);
    assert_eq!(reference::get_mattr(&tokens, 7), Err(MattrError::InvalidWindowSpan));
    assert_eq!(optimized::get_mattr(&tokens, 7), Err(MattrError::InvalidWindowSpan));
    let long: Vec<String> = (0..60).map(|i| format!("w{}", i)).collect();
    assert_eq!(reference::get_mattr(&long, 61), Err(MattrError::InvalidWindowSpan));
    assert_eq!(optimized::get_mattr(&long, 61), Err(MattrError::InvalidWindowSpan));
}

#[test]
fn ttr_is_one_when_all_tokens_distinct() {
    let tokens = toks(&["a", "b", "c"]);
    let r = reference::get_mattr(&tokens, 2).unwrap();
    assert_eq!(r, Ratio { num: 3, den: 3 });
    assert_eq!(ratio_f64(r), 1.0);
}

#[test]
fn ttr_is_one_over_n_when_all_tokens_identical() {
    let tokens = toks(&["x", "x", "x", "x"]);
    let r = reference::get_mattr(&tokens, 2).unwrap();
    assert_eq!(r, Ratio { num: 1, den: 4 });
    assert!((ratio_f64(r) - 0.25).abs() < 1e-12);
}

#[test]
fn ttr_stays_in_unit_interval() {
    let tokens = toks(&["p", "q", "p", "r", "r", "q", "s"]);
    for span in 1..=7usize {
        let r = reference::get_mattr(&tokens, span).unwrap();
        let v = ratio_f64(r);
        assert!(v > 0.0 && v <= 1.0);
    }
}

#[test]
fn full_window_span_equals_whole_sequence_ttr() {
    // Sixty tokens cycling through seven words: seven distinct types.
    let cycle = ["a", "b", "c", "d", "e", "f", "g"];
    let words: Vec<String> = (0..60).map(|i| cycle[i % 7].to_string()).collect();
    let r = reference::get_mattr(&words, 60).unwrap();
    let o = optimized::get_mattr(&words, 60).unwrap();
    assert_eq!(r, Ratio { num: 7, den: 60 });
    assert_eq!(o, Ratio { num: 7, den: 60 });
    let short = toks(&["A", "B", "A", "C", "B", "D"]);
    let s = reference::get_mattr(&short, 6).unwrap();
    assert_eq!(s, Ratio { num: 4, den: 6 });
}

#[test]
fn engines_agree_on_collision_free_input() {
    let cycle = ["red", "green", "blue", "red", "cyan"];
    let words: Vec<String> = (0..73).map(|i| cycle[i % 5].to_string()).collect();
    for span in [1usize, 5, 20, 73] {
        let r = reference::get_mattr(&words, span).unwrap();
        let o = optimized::get_mattr(&words, span).unwrap();
        assert_eq!(r, o);
        assert!((ratio_f64(r) - ratio_f64(o)).abs() < 1e-9);
    }
}

#[test]
fn repeated_calls_give_identical_results() {
    let cycle = ["u", "v", "w", "u"];
    let words: Vec<String> = (0..64).map(|i| cycle[i % 4].to_string()).collect();
    let r1 = reference::get_mattr(&words, 8).unwrap();
    let r2 = reference::get_mattr(&words, 8).unwrap();
    assert_eq!(r1, r2);
    let o1 = optimized::get_mattr(&words, 8).unwrap();
    let o2 = optimized::get_mattr(&words, 8).unwrap();
    assert_eq!(o1, o2);
}

#[test]
fn threshold_boundary_scores_as_single_window() {
    // Exactly fifty tokens: still the small-sample path, whatever the span.
    let words: Vec<String> = (0..50).map(|i| format!("t{}", i)).collect();
    let a = reference::get_mattr(&words, 3).unwrap();
    let b = reference::get_mattr(&words, 50).unwrap();
    assert_eq!(a, Ratio { num: 50, den: 50 });
    assert_eq!(a, b);
    // Fifty-one tokens: the sliding-window path.
    let words51: Vec<String> = (0..51).map(|i| format!("t{}", i)).collect();
    let c = reference::get_mattr(&words51, 1).unwrap();
    assert_eq!(c, Ratio { num: 51, den: 51 });
    let d = optimized::get_mattr(&words51, 1).unwrap();
    assert_eq!(d, Ratio { num: 51, den: 51 });
}

#[test]
fn windowed_score_matches_hand_computation() {
    // Fifty-two tokens: windows of four, 49 windows. The sequence repeats
    // "a b a c": window type counts cycle 3, 2, 3, 3 starting at offset 0.
    let cycle = ["a", "b", "a", "c"];
    let words: Vec<String> = (0..52).map(|i| cycle[i % 4].to_string()).collect();
    let mut expected_num: u128 = 0;
    for start in 0..49usize {
        let mut window: Vec<&String> = Vec::new();
        for k in start..start + 4 {
            window.push(&words[k]);
        }
        let mut distinct: u128 = 0;
        for k in 0..window.len() {
            if !window[..k].contains(&window[k]) {
                distinct += 1;
            }
        }
        expected_num += distinct;
    }
    let r = reference::get_mattr(&words, 4).unwrap();
    let o = optimized::get_mattr(&words, 4).unwrap();
    assert_eq!(r, Ratio { num: expected_num, den: 4 * 49 });
    assert_eq!(o, r);
}
