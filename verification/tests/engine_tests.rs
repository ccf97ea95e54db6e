use typings::engine::Typings;
use typings::engine::WordStatus;

fn corpus(words: &[&str]) -> Vec<String> {
    words.iter().map(|w| w.to_string()).collect()
}

/// An engine whose single run is fully determined: the corpus repeats one
/// word, so every sampled slot holds that word.
fn engine_of(word: &str, count: usize) -> Typings {
    let c: Vec<String> = std::iter::repeat(word.to_string()).take(count).collect();
    Typings::new(c, count).unwrap()
}

fn type_and_submit(engine: &mut Typings, text: &str) {
    engine.on_input_changed(format!("{} ", text));
    engine.on_submit_word();
}

#[test]
fn new_initializes_fresh_run() {
    let t = Typings::new(corpus(&["one", "two", "three", "four"]), 3).unwrap();
    assert_eq!(t.word_count(), 3);
    assert_eq!(t.cursor(), 0);
    assert_eq!(t.correct_word_count(), 0);
    assert_eq!(t.submitted_character_count(), 0);
    assert_eq!(t.words_per_minute(), 0);
    assert!(!t.is_started());
    assert!(!t.is_complete());
    assert_eq!(t.word_status(0), WordStatus::Next);
    assert_eq!(t.word_status(1), WordStatus::Pending);
    assert_eq!(t.word_status(2), WordStatus::Pending);
    assert_eq!(t.input_text().as_str(), "");
}

#[test]
fn new_with_oversized_sample_fails() {
    assert!(Typings::new(corpus(&["single"]), 2).is_err());
    assert!(Typings::new(Vec::new(), 1).is_err());
}

#[test]
fn exact_match_counts_word_and_advances_cursor() {
    let mut t = engine_of("cat", 2);
    t.on_input_changed("cat ".to_string());
    assert!(t.is_started());
    t.on_submit_word();
    assert_eq!(t.word_status(0), WordStatus::Correct);
    assert_eq!(t.correct_word_count(), 1);
    assert_eq!(t.cursor(), 1);
    assert_eq!(t.submitted_character_count(), 3);
    assert_eq!(t.word_status(1), WordStatus::Next);
}

#[test]
fn mismatch_counts_target_length_but_no_word() {
    let mut t = engine_of("cat", 2);
    t.on_input_changed("cap ".to_string());
    t.on_submit_word();
    assert_eq!(t.word_status(0), WordStatus::Incorrect);
    assert_eq!(t.correct_word_count(), 0);
    assert_eq!(t.cursor(), 1);
    // The target's length is counted, not the typed text's.
    assert_eq!(t.submitted_character_count(), 3);
}

#[test]
fn prefix_typing_marks_on_track_and_typo() {
    let mut t = engine_of("hello", 1);
    t.on_input_changed("hel".to_string());
    assert_eq!(t.word_status(0), WordStatus::TypingCorrectPrefix);
    t.on_input_changed("hex".to_string());
    assert_eq!(t.word_status(0), WordStatus::TypingTypo);
    assert_eq!(t.input_text().as_str(), "hex");
}

#[test]
fn empty_input_is_a_prefix_and_does_not_start_the_run() {
    let mut t = engine_of("word", 1);
    t.on_input_changed("".to_string());
    assert_eq!(t.word_status(0), WordStatus::TypingCorrectPrefix);
    assert!(!t.is_started());
}

#[test]
fn submit_before_any_typing_is_a_noop_that_clears_input() {
    let mut t = engine_of("word", 2);
    t.on_submit_word();
    assert_eq!(t.cursor(), 0);
    assert_eq!(t.correct_word_count(), 0);
    assert_eq!(t.submitted_character_count(), 0);
    assert_eq!(t.words_per_minute(), 0);
    assert_eq!(t.word_status(0), WordStatus::Next);
    assert_eq!(t.input_text().as_str(), "");
}

#[test]
fn empty_buffer_submit_mid_run_is_a_noop() {
    let mut t = engine_of("word", 2);
    t.on_input_changed("w".to_string());
    assert!(t.is_started());
    // The user erased the typed text before the delimiter landed.
    t.on_input_changed("".to_string());
    t.on_submit_word();
    assert_eq!(t.cursor(), 0);
    assert_eq!(t.correct_word_count(), 0);
    assert_eq!(t.submitted_character_count(), 0);
    assert_eq!(t.words_per_minute(), 0);
    assert!(t.is_started());
    assert_eq!(t.word_status(0), WordStatus::TypingCorrectPrefix);
    assert_eq!(t.input_text().as_str(), "");
}

#[test]
fn completion_finishes_run_and_freezes_state() {
    let mut t = engine_of("cat", 1);
    type_and_submit(&mut t, "cat");
    assert_eq!(t.cursor(), 1);
    assert_eq!(t.word_count(), 1);
    assert!(t.is_complete());
    assert!(!t.is_started());
    // Further transitions are no-ops until reset.
    t.on_input_changed("more".to_string());
    assert_eq!(t.cursor(), 1);
    assert_eq!(t.input_text().as_str(), "");
    assert_eq!(t.word_status(0), WordStatus::Correct);
    t.on_submit_word();
    assert_eq!(t.cursor(), 1);
    assert_eq!(t.correct_word_count(), 1);
}

#[test]
fn reset_mid_run_restores_fresh_state() {
    let mut t = engine_of("word", 7);
    for _ in 0..5 {
        type_and_submit(&mut t, "word");
    }
    assert_eq!(t.cursor(), 5);
    assert_eq!(t.correct_word_count(), 5);
    t.reset();
    assert_eq!(t.cursor(), 0);
    assert_eq!(t.correct_word_count(), 0);
    assert_eq!(t.submitted_character_count(), 0);
    assert_eq!(t.words_per_minute(), 0);
    assert!(!t.is_started());
    assert_eq!(t.word_count(), 7);
    assert_eq!(t.word_status(0), WordStatus::Next);
    for i in 1..7 {
        assert_eq!(t.word_status(i), WordStatus::Pending);
    }
    assert_eq!(t.input_text().as_str(), "");
}

#[test]
fn reset_draws_fresh_words_from_the_corpus() {
    let c = corpus(&["ant", "bee", "cow", "dog", "elk", "fox", "gnu", "hen"]);
    let mut t = Typings::new(c.clone(), 5).unwrap();
    t.reset();
    for i in 0..t.word_count() {
        assert!(c.contains(t.word_text(i)));
        for j in 0..t.word_count() {
            if i != j {
                assert_ne!(t.word_text(i), t.word_text(j));
            }
        }
    }
}

#[test]
fn exactly_one_current_slot_through_a_run() {
    let mut t = engine_of("word", 3);
    let current_count = |t: &Typings| {
        let mut n = 0;
        for i in 0..t.word_count() {
            match t.word_status(i) {
                WordStatus::Next | WordStatus::TypingCorrectPrefix | WordStatus::TypingTypo => {
                    n += 1;
                }
                _ => {}
            }
        }
        n
    };
    assert_eq!(current_count(&t), 1);
    t.on_input_changed("wo".to_string());
    assert_eq!(current_count(&t), 1);
    type_and_submit(&mut t, "word");
    assert_eq!(current_count(&t), 1);
    type_and_submit(&mut t, "oops");
    assert_eq!(current_count(&t), 1);
    type_and_submit(&mut t, "word");
    // Run complete: no current slot remains.
    assert!(t.is_complete());
    assert_eq!(current_count(&t), 0);
}

#[test]
fn accuracy_is_bounded_and_exact() {
    let mut t = engine_of("word", 4);
    assert_eq!(t.accuracy(), 0);
    type_and_submit(&mut t, "word");
    assert_eq!(t.accuracy(), 100);
    type_and_submit(&mut t, "oops");
    assert_eq!(t.accuracy(), 50);
    type_and_submit(&mut t, "oops");
    // 1 of 3 attempted: 33 after flooring.
    assert_eq!(t.accuracy(), 33);
    type_and_submit(&mut t, "word");
    assert_eq!(t.accuracy(), 50);
    assert!(t.accuracy() <= 100);
}

#[test]
fn word_count_metric_uses_five_characters_per_word() {
    let mut t = engine_of("abc", 4);
    assert_eq!(t.word_count_metric(), 0);
    type_and_submit(&mut t, "abc");
    // 3 submitted characters make 0 whole words.
    assert_eq!(t.word_count_metric(), 0);
    type_and_submit(&mut t, "abc");
    // 6 submitted characters make 1 whole word.
    assert_eq!(t.word_count_metric(), 1);
    type_and_submit(&mut t, "x");
    type_and_submit(&mut t, "y");
    // 12 submitted characters make 2 whole words.
    assert_eq!(t.word_count_metric(), 2);
}

#[test]
fn wpm_is_unchanged_while_not_started() {
    let mut t = engine_of("word", 2);
    t.on_submit_word();
    t.on_submit_word();
    assert_eq!(t.words_per_minute(), 0);
}

#[test]
fn submitted_word_texts_survive_the_run() {
    let mut t = Typings::new(corpus(&["alpha", "beta", "gamma"]), 3).unwrap();
    let first = t.word_text(0).clone();
    let second = t.word_text(1).clone();
    type_and_submit(&mut t, first.as_str());
    assert_eq!(t.word_text(0).as_str(), first.as_str());
    assert_eq!(t.word_status(0), WordStatus::Correct);
    type_and_submit(&mut t, "wrong");
    assert_eq!(t.word_text(1).as_str(), second.as_str());
    assert_eq!(t.word_status(1), WordStatus::Incorrect);
    assert_eq!(
        t.submitted_character_count(),
        first.chars().count() + second.chars().count()
    );
}
