use rype::generator::{compose_text, generate, parse_length_label, WORDS_PER_TEST};
use rype::ConfigurationError;

fn words_of(text: &Vec<char>) -> Vec<String> {
    let s: String = text.iter().collect();
    s.split(' ').map(|w| w.to_string()).collect()
}

#[test]
fn length_labels_expand_k() {
    assert_eq!(parse_length_label("100"), Some(100));
    assert_eq!(parse_length_label("1k"), Some(1000));
    assert_eq!(parse_length_label("5k"), Some(5000));
    assert_eq!(parse_length_label("10k"), Some(10000));
    assert_eq!(parse_length_label("0"), Some(0));
}

#[test]
fn malformed_labels_are_refused() {
    assert_eq!(parse_length_label(""), None);
    assert_eq!(parse_length_label("k"), None);
    assert_eq!(parse_length_label("1kk"), None);
    assert_eq!(parse_length_label("1x"), None);
    assert_eq!(parse_length_label("k1"), None);
    assert_eq!(parse_length_label("99999999999999999999999"), None);
}

#[test]
fn empty_corpus_is_a_configuration_error() {
    let words: Vec<&str> = Vec::new();
    assert_eq!(generate(&words, 100), Err(ConfigurationError::EmptyCorpus));
}

#[test]
fn generated_text_has_fixed_word_count_and_no_repeats() {
    let words = vec!["alpha", "beta", "gamma", "delta", "epsilon"];
    let text = generate(&words, 3).unwrap();
    let ws = words_of(&text);
    assert_eq!(ws.len(), WORDS_PER_TEST);
    for w in ws.iter() {
        assert!(words[0..=3].contains(&w.as_str()));
    }
    for k in 1..ws.len() {
        assert_ne!(ws[k], ws[k - 1]);
    }
    assert_ne!(text.last(), Some(&' '));
}

#[test]
fn small_corpus_clamps_the_bound() {
    let words = vec!["a", "b", "c"];
    let r = parse_length_label("1k").unwrap();
    let text = generate(&words, r).unwrap();
    let ws = words_of(&text);
    assert_eq!(ws.len(), 500);
    for w in ws.iter() {
        assert!(words.contains(&w.as_str()));
    }
    for k in 1..ws.len() {
        assert_ne!(ws[k], ws[k - 1]);
    }
}

#[test]
fn single_word_pool_repeats_that_word() {
    let words = vec!["only", "other"];
    let text = generate(&words, 0).unwrap();
    let ws = words_of(&text);
    assert_eq!(ws.len(), 500);
    assert!(ws.iter().all(|w| w == "only"));
}

#[test]
fn two_word_pool_alternates() {
    let words = vec!["x", "y"];
    let text = generate(&words, 1).unwrap();
    let ws = words_of(&text);
    for k in 1..ws.len() {
        assert_ne!(ws[k], ws[k - 1]);
    }
}

#[test]
fn draws_spread_over_the_pool() {
    let words = vec!["w0", "w1", "w2", "w3", "w4", "w5", "w6", "w7", "w8", "w9"];
    let text = generate(&words, 9).unwrap();
    let mut seen: Vec<String> = words_of(&text);
    seen.sort();
    seen.dedup();
    assert!(seen.len() > 2);
}

#[test]
fn compose_joins_with_single_spaces() {
    let words = vec!["ab", "c", "def"];
    let text = compose_text(&words, &vec![2, 0, 1, 0]);
    let s: String = text.iter().collect();
    assert_eq!(s, "def ab c ab");
    assert!(compose_text(&words, &vec![]).is_empty());
    let one: String = compose_text(&words, &vec![1]).iter().collect();
    assert_eq!(one, "c");
}
