//! The session controller: the phase state machine that composes the
//! sampler, the progression tracker, and the round timer, and exposes the
//! discrete event API the rendering layer drives. The renderer reads
//! snapshots of this state and never mutates it directly.

use crate::diff::classify;
use crate::diff::classify_spec;
use crate::diff::position_of;
use crate::diff::position_of_spec;
use crate::diff::WordPosition;
use crate::diff::WordRenderPlan;
use crate::progress::advance_spec;
use crate::progress::get_previous_input;
use crate::progress::undo_spec;
use crate::progress::ProgressState;
use crate::timer::RoundTimer;
use crate::word_generator::sampled_from;
use crate::word_generator::AllWords;
use crate::word_generator::WordList;
use crate::word_generator::WORD_COUNT_PER_GAME;
use vstd::prelude::*;

verus! {

/// Seconds a round lasts once started.
pub const ROUND_SECONDS: u32 = 10;

/// The phase the session is in. `Menu` is the initial phase, `Scores` and
/// `FAQ` are side screens, and `GameOver` ends a round until a new start.
#[derive(Debug, Copy, Clone, Eq, PartialEq, Hash, Structural)]
pub enum AppState {
    Menu,
    ReadyToPlay,
    Playing,
    GameOver,
    Scores,
    FAQ,
}

/// Snapshot of the text box the renderer shows: its content and whether
/// it currently accepts input.
pub struct InputField {
    pub text: String,
    pub enabled: bool,
}

/// The session controller. It exclusively owns the session word list, the
/// progression and the round timer, and advances the phase machine on the
/// discrete events the renderer reports.
pub struct Session {
    pub phase: AppState,
    pub word_list: WordList,
    pub progress: ProgressState,
    pub timer: RoundTimer,
    pub input_enabled: bool,
}

/// The text the word at `word_index` is judged against: the live input
/// for the current word, the committed entry for a past word, nothing for
/// a future word.
pub open spec fn word_input_spec(s: Session, word_index: int) -> Seq<char> {
    match position_of_spec(word_index, s.progress@.current_index as int) {
        WordPosition::Past => s.progress@.history[word_index],
        WordPosition::Current => s.progress@.live_input,
        WordPosition::Future => Seq::empty(),
    }
}

impl Session {
    /// Controller invariant: the progression keeps one committed entry
    /// per completed word, never stands past the end of the session word
    /// list, and the timer's sub-second accumulation is in range.
    pub open spec fn wf(self) -> bool {
        &&& self.progress.wf()
        &&& self.progress@.current_index <= self.word_list.list@.len()
        &&& self.timer.wf()
    }

    /// A fresh session at the menu, with a word list already sampled so a
    /// round can begin at once. The corpus needs at least two entries
    /// because sampling never draws its first one.
    pub fn new(corpus: &AllWords) -> (r: Session)
        requires
            corpus.all_words@.len() >= 2,
        ensures
            r.wf(),
            r.phase == AppState::Menu,
            r.progress@.current_index == 0,
            r.progress@.history.len() == 0,
            r.progress@.live_input.len() == 0,
            r.timer.remaining_seconds == 0,
            !r.input_enabled,
            r.word_list.list@.len() == WORD_COUNT_PER_GAME,
            sampled_from(r.word_list.list.deep_view(), corpus.all_words.deep_view()),
    {
        let word_list = Self::sample_word_list(corpus);
        Session {
            phase: AppState::Menu,
            word_list,
            progress: ProgressState::new(),
            timer: RoundTimer::new(0),
            input_enabled: false,
        }
    }

    fn sample_word_list(corpus: &AllWords) -> (r: WordList)
        requires
            corpus.all_words@.len() >= 2,
        ensures
            r.list@.len() == WORD_COUNT_PER_GAME,
            sampled_from(r.list.deep_view(), corpus.all_words.deep_view()),
    {
        let pool = corpus.all_words.clone();
        proof {
            assert forall|i: int| 0 <= i < pool@.len() implies pool@[i]
                == corpus.all_words@[i] by {
                assert(vstd::pervasive::cloned::<String>(corpus.all_words@[i], pool@[i]));
            }
            assert(pool@ =~= corpus.all_words@);
            assert(pool.deep_view() =~= corpus.all_words.deep_view());
        }
        WordList::new(pool)
    }

    /// Starts a round, from any phase: fresh words are sampled, the
    /// progression resets, the timer refills, and the input box is
    /// emptied and enabled.
    pub fn start(&mut self, corpus: &AllWords)
        requires
            old(self).wf(),
            corpus.all_words@.len() >= 2,
        ensures
            final(self).wf(),
            final(self).phase == AppState::ReadyToPlay,
            final(self).progress@.current_index == 0,
            final(self).progress@.history.len() == 0,
            final(self).progress@.live_input.len() == 0,
            final(self).timer.remaining_seconds == ROUND_SECONDS,
            final(self).timer.accumulated_millis == 0,
            final(self).input_enabled,
            final(self).word_list.list@.len() == WORD_COUNT_PER_GAME,
            sampled_from(final(self).word_list.list.deep_view(), corpus.all_words.deep_view()),
    {
        self.phase = AppState::ReadyToPlay;
        self.timer = RoundTimer::new(ROUND_SECONDS);
        self.word_list = Self::sample_word_list(corpus);
        self.progress = ProgressState::new();
        self.input_enabled = true;
    }

    /// Shows the scores screen; nothing else changes.
    pub fn show_scores(&mut self)
        requires
            old(self).wf(),
        ensures
            final(self).wf(),
            (*final(self) == Session { phase: AppState::Scores, ..*old(self) }),
    {
        self.phase = AppState::Scores;
    }

    /// Shows the FAQ screen; nothing else changes.
    pub fn show_faq(&mut self)
        requires
            old(self).wf(),
        ensures
            final(self).wf(),
            (*final(self) == Session { phase: AppState::FAQ, ..*old(self) }),
    {
        self.phase = AppState::FAQ;
    }

    /// The renderer reports the input box's new content: the live buffer
    /// takes the value, and the first content change while ready to play
    /// starts play. In any other phase the event is ignored.
    pub fn input_changed(&mut self, new_text: String)
        requires
            old(self).wf(),
        ensures
            final(self).wf(),
            final(self).timer == old(self).timer,
            final(self).word_list == old(self).word_list,
            final(self).input_enabled == old(self).input_enabled,
            old(self).phase == AppState::ReadyToPlay ==> final(self).phase == AppState::Playing
                && final(self).progress@.live_input == new_text@
                && final(self).progress@.current_index == old(self).progress@.current_index
                && final(self).progress@.history == old(self).progress@.history,
            old(self).phase == AppState::Playing ==> final(self).phase == AppState::Playing
                && final(self).progress@.live_input == new_text@
                && final(self).progress@.current_index == old(self).progress@.current_index
                && final(self).progress@.history == old(self).progress@.history,
            old(self).phase != AppState::ReadyToPlay && old(self).phase != AppState::Playing
                ==> (*final(self) == *old(self)),
    {
        match self.phase {
            AppState::ReadyToPlay => {
                self.progress.set_live_input(new_text);
                self.phase = AppState::Playing;
            },
            AppState::Playing => {
                self.progress.set_live_input(new_text);
            },
            AppState::Menu | AppState::GameOver | AppState::Scores | AppState::FAQ => {},
        }
    }

    /// Space: while ready to play it only clears the buffer (spaces before
    /// play starts are ignored); while playing it commits the current word,
    /// and a progression that reaches the end of the word list ends the
    /// round. In any other phase the event is ignored.
    pub fn space_pressed(&mut self)
        requires
            old(self).wf(),
        ensures
            final(self).wf(),
            final(self).timer == old(self).timer,
            final(self).word_list == old(self).word_list,
            final(self).input_enabled == old(self).input_enabled,
            old(self).phase == AppState::ReadyToPlay ==> final(self).phase
                == AppState::ReadyToPlay && final(self).progress@.live_input.len() == 0
                && final(self).progress@.current_index == old(self).progress@.current_index
                && final(self).progress@.history == old(self).progress@.history,
            old(self).phase == AppState::Playing ==> ({
                let advanced = advance_spec(
                    old(self).progress@,
                    old(self).word_list.list@.len(),
                );
                &&& final(self).progress@ == advanced
                &&& final(self).phase == (
                    if advanced.current_index == old(self).word_list.list@.len() {
                        AppState::GameOver
                    } else {
                        AppState::Playing
                    })
            }),
            old(self).phase != AppState::ReadyToPlay && old(self).phase != AppState::Playing
                ==> (*final(self) == *old(self)),
    {
        match self.phase {
            AppState::ReadyToPlay => {
                let word_index = self.progress.index.current_index;
                self.progress.begin_word(word_index);
            },
            AppState::Playing => {
                let list_len = self.word_list.list.len();
                self.progress.advance(list_len);
                if self.progress.index.current_index == list_len {
                    self.phase = AppState::GameOver;
                }
            },
            AppState::Menu | AppState::GameOver | AppState::Scores | AppState::FAQ => {},
        }
    }

    /// Backspace: while playing, with an empty buffer and at least one
    /// committed word, it steps back one word; otherwise the event changes
    /// nothing (removal of a character arrives as an input change).
    pub fn backspace_pressed(&mut self)
        requires
            old(self).wf(),
        ensures
            final(self).wf(),
            final(self).phase == old(self).phase,
            final(self).timer == old(self).timer,
            final(self).word_list == old(self).word_list,
            final(self).input_enabled == old(self).input_enabled,
            old(self).phase == AppState::Playing ==> final(self).progress@ == undo_spec(
                old(self).progress@,
            ),
            old(self).phase != AppState::Playing ==> (*final(self) == *old(self)),
    {
        match self.phase {
            AppState::Playing => {
                self.progress.undo();
            },
            AppState::Menu
            | AppState::ReadyToPlay
            | AppState::GameOver
            | AppState::Scores
            | AppState::FAQ => {},
        }
    }

    /// A frame's elapsed wall-clock time. The countdown runs only while
    /// playing — in every other phase the remaining seconds never drop —
    /// and a countdown that reaches zero ends the round.
    pub fn frame_tick(&mut self, elapsed_millis: u64)
        requires
            old(self).wf(),
            elapsed_millis <= u64::MAX - 1000,
        ensures
            final(self).wf(),
            final(self).word_list == old(self).word_list,
            final(self).progress == old(self).progress,
            final(self).input_enabled == old(self).input_enabled,
            final(self).timer.remaining_seconds <= old(self).timer.remaining_seconds,
            old(self).phase != AppState::Playing ==> final(self).phase == old(self).phase
                && final(self).timer.remaining_seconds == old(self).timer.remaining_seconds,
            old(self).phase == AppState::Playing ==> ({
                let total = old(self).timer.accumulated_millis + elapsed_millis;
                let remaining = (
                    if old(self).timer.remaining_seconds >= total / 1000 {
                        old(self).timer.remaining_seconds - total / 1000
                    } else {
                        0
                    });
                &&& final(self).timer.remaining_seconds == remaining
                &&& final(self).timer.accumulated_millis == total % 1000
                &&& final(self).phase == (
                    if remaining == 0 {
                        AppState::GameOver
                    } else {
                        AppState::Playing
                    })
            }),
    {
        let playing = self.phase == AppState::Playing;
        self.timer.tick(elapsed_millis, playing);
        if playing && self.timer.remaining_seconds == 0 {
            self.phase = AppState::GameOver;
        }
    }

    /// Snapshot of the input box for the renderer.
    pub fn input_field(&self) -> (r: InputField)
        ensures
            r.text@ == self.progress@.live_input,
            r.enabled == self.input_enabled,
    {
        InputField { text: self.progress.live_input.clone(), enabled: self.input_enabled }
    }

    /// Render plan for the word at `word_index`, judged against the live
    /// input or the committed entry as its position demands.
    pub fn render_plan(&self, word_index: usize) -> (r: WordRenderPlan)
        requires
            self.wf(),
            word_index < self.word_list.list@.len(),
        ensures
            r.cells@ == classify_spec(
                self.word_list.list.deep_view()[word_index as int],
                word_input_spec(*self, word_index as int),
                position_of_spec(word_index as int, self.progress@.current_index as int),
            ),
            r.overflowed == (word_index == self.progress@.current_index
                && self.progress@.live_input.len()
                    > self.word_list.list.deep_view()[word_index as int].len()),
    {
        let target = &self.word_list.list[word_index];
        let position = position_of(word_index, self.progress.index.current_index);
        match position {
            WordPosition::Past => {
                let committed = get_previous_input(&self.progress.history.list, word_index);
                classify(target.as_str(), committed.as_str(), position)
            },
            WordPosition::Current => {
                classify(target.as_str(), self.progress.live_input.as_str(), position)
            },
            WordPosition::Future => {
                let plan = classify(target.as_str(), "", position);
                proof {
                    reveal_strlit("");
                    assert(""@ =~= Seq::<char>::empty());
                }
                plan
            },
        }
    }
}

} // verus!
