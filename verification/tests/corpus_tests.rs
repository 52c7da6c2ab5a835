use typing_tester::word_generator::load_words;
use typing_tester::word_generator::sample_words;
use typing_tester::word_generator::AllWords;
use typing_tester::word_generator::PlayerWordList;
use typing_tester::word_generator::WordList;
use typing_tester::word_generator::WORD_COUNT_PER_GAME;

#[test]
fn load_words_reads_one_word_per_line() {
    let words = load_words("apple\nbanana\ncherry\n");
    assert_eq!(words, vec!["apple", "banana", "cherry"]);
}

#[test]
fn load_words_keeps_blank_lines_as_empty_words() {
    let words = load_words("apple\n\ncherry\n");
    assert_eq!(words, vec!["apple", "", "cherry"]);
}

#[test]
fn all_words_wraps_the_loaded_corpus() {
    let corpus = AllWords::new("apple\nbanana\n");
    assert_eq!(corpus.all_words, vec!["apple", "banana"]);
}

#[test]
fn sampling_gives_count_words_all_from_the_corpus() {
    let corpus: Vec<String> = vec![
        String::from("apple"),
        String::from("banana"),
        String::from("cherry"),
    ];
    let sampled = sample_words(&corpus, 6);
    assert_eq!(sampled.len(), 6);
    for word in &sampled {
        assert!(corpus.contains(word));
    }
}

#[test]
fn sampling_never_draws_the_first_corpus_entry() {
    let corpus: Vec<String> = vec![
        String::from("apple"),
        String::from("banana"),
        String::from("cherry"),
    ];
    let sampled = sample_words(&corpus, 50);
    for word in &sampled {
        assert_ne!(word, "apple");
    }
}

#[test]
fn word_list_has_the_configured_session_length() {
    let corpus: Vec<String> = vec![String::from("one"), String::from("two")];
    let list = WordList::new(corpus);
    assert_eq!(list.list.len(), WORD_COUNT_PER_GAME);
    assert_eq!(list.list.len(), 132);
}

#[test]
fn player_word_list_starts_empty() {
    let history = PlayerWordList::new();
    assert!(history.list.is_empty());
}
