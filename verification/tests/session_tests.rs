use typing_tester::diff::CorrectnessTag;
use typing_tester::session::AppState;
use typing_tester::session::Session;
use typing_tester::session::ROUND_SECONDS;
use typing_tester::word_generator::AllWords;
use typing_tester::word_generator::WORD_COUNT_PER_GAME;

fn small_corpus() -> AllWords {
    AllWords::new("apple\nbanana\ncherry\n")
}

#[test]
fn new_session_waits_at_the_menu() {
    let corpus = small_corpus();
    let session = Session::new(&corpus);
    assert_eq!(session.phase, AppState::Menu);
    assert_eq!(session.progress.index.current_index, 0);
    assert!(!session.input_enabled);
    assert_eq!(session.word_list.list.len(), WORD_COUNT_PER_GAME);
}

#[test]
fn start_resets_everything_for_a_round() {
    let corpus = small_corpus();
    let mut session = Session::new(&corpus);
    session.show_scores();
    session.start(&corpus);
    assert_eq!(session.phase, AppState::ReadyToPlay);
    assert_eq!(session.timer.remaining_seconds, ROUND_SECONDS);
    assert_eq!(session.progress.index.current_index, 0);
    assert!(session.progress.history.list.is_empty());
    assert_eq!(session.progress.live_input, "");
    assert!(session.input_enabled);
    assert_eq!(session.word_list.list.len(), WORD_COUNT_PER_GAME);
    for word in &session.word_list.list {
        assert!(corpus.all_words.contains(word));
    }
}

#[test]
fn first_content_change_starts_play() {
    let corpus = small_corpus();
    let mut session = Session::new(&corpus);
    session.start(&corpus);
    session.input_changed(String::from("b"));
    assert_eq!(session.phase, AppState::Playing);
    assert_eq!(session.progress.live_input, "b");
}

#[test]
fn space_before_play_only_clears_the_buffer() {
    let corpus = small_corpus();
    let mut session = Session::new(&corpus);
    session.start(&corpus);
    session.space_pressed();
    assert_eq!(session.phase, AppState::ReadyToPlay);
    assert_eq!(session.progress.live_input, "");
    assert_eq!(session.progress.index.current_index, 0);
}

#[test]
fn space_while_playing_commits_the_word() {
    let corpus = small_corpus();
    let mut session = Session::new(&corpus);
    session.start(&corpus);
    session.input_changed(String::from("banana "));
    session.space_pressed();
    assert_eq!(session.phase, AppState::Playing);
    assert_eq!(session.progress.index.current_index, 1);
    assert_eq!(session.progress.history.list, vec![String::from("banana")]);
    assert_eq!(session.progress.live_input, "");
}

#[test]
fn backspace_with_empty_buffer_steps_back_one_word() {
    let corpus = small_corpus();
    let mut session = Session::new(&corpus);
    session.start(&corpus);
    session.input_changed(String::from("banana"));
    session.space_pressed();
    session.backspace_pressed();
    assert_eq!(session.phase, AppState::Playing);
    assert_eq!(session.progress.index.current_index, 0);
    assert!(session.progress.history.list.is_empty());
    assert_eq!(session.progress.live_input, "banana");
}

#[test]
fn backspace_at_the_first_word_changes_nothing() {
    let corpus = small_corpus();
    let mut session = Session::new(&corpus);
    session.start(&corpus);
    session.input_changed(String::from(""));
    session.backspace_pressed();
    assert_eq!(session.phase, AppState::Playing);
    assert_eq!(session.progress.index.current_index, 0);
    assert!(session.progress.history.list.is_empty());
}

#[test]
fn ten_playing_seconds_end_the_round() {
    let corpus = small_corpus();
    let mut session = Session::new(&corpus);
    session.start(&corpus);
    assert_eq!(session.timer.remaining_seconds, 10);
    session.input_changed(String::from("b"));
    for _ in 0..9 {
        session.frame_tick(1000);
        assert_eq!(session.phase, AppState::Playing);
    }
    session.frame_tick(1000);
    assert_eq!(session.phase, AppState::GameOver);
    assert_eq!(session.timer.remaining_seconds, 0);
}

#[test]
fn timer_is_paused_outside_playing() {
    let corpus = small_corpus();
    let mut session = Session::new(&corpus);
    session.start(&corpus);
    session.frame_tick(30_000);
    assert_eq!(session.phase, AppState::ReadyToPlay);
    assert_eq!(session.timer.remaining_seconds, ROUND_SECONDS);
}

#[test]
fn completing_every_word_ends_the_round() {
    let corpus = small_corpus();
    let mut session = Session::new(&corpus);
    session.start(&corpus);
    session.input_changed(String::from("x"));
    for n in 0..WORD_COUNT_PER_GAME {
        assert_eq!(session.phase, AppState::Playing);
        assert_eq!(session.progress.index.current_index, n);
        session.space_pressed();
    }
    assert_eq!(session.phase, AppState::GameOver);
    assert_eq!(session.progress.index.current_index, WORD_COUNT_PER_GAME);
}

#[test]
fn side_screens_only_change_the_phase() {
    let corpus = small_corpus();
    let mut session = Session::new(&corpus);
    session.show_scores();
    assert_eq!(session.phase, AppState::Scores);
    session.show_faq();
    assert_eq!(session.phase, AppState::FAQ);
    assert_eq!(session.progress.index.current_index, 0);
}

#[test]
fn input_field_snapshots_buffer_and_focus() {
    let corpus = small_corpus();
    let mut session = Session::new(&corpus);
    let idle = session.input_field();
    assert_eq!(idle.text, "");
    assert!(!idle.enabled);
    session.start(&corpus);
    session.input_changed(String::from("ab"));
    let live = session.input_field();
    assert_eq!(live.text, "ab");
    assert!(live.enabled);
}

#[test]
fn render_plans_follow_the_progression() {
    let corpus = small_corpus();
    let mut session = Session::new(&corpus);
    session.start(&corpus);
    let first_word = session.word_list.list[0].clone();
    session.input_changed(first_word.clone());
    let current = session.render_plan(0);
    assert_eq!(current.cells.len(), first_word.chars().count());
    for cell in &current.cells {
        assert_eq!(cell.1, CorrectnessTag::Correct);
    }
    assert!(!current.overflowed);
    let future = session.render_plan(1);
    for cell in &future.cells {
        assert_eq!(cell.1, CorrectnessTag::Untyped);
    }
    session.space_pressed();
    let past = session.render_plan(0);
    for cell in &past.cells {
        assert_eq!(cell.1, CorrectnessTag::Correct);
    }
}
