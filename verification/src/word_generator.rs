//! Word corpus loading and session word-list sampling. The corpus is an
//! ordered word pool built from newline-delimited text; a session draws a
//! fixed number of words from it at random, with replacement.

use crate::text::split_lines;
use crate::text::split_lines_spec;
use rand::Rng;
use vstd::prelude::*;

verus! {

/// Number of words drawn for one play session. The renderer lays words out
/// three to a row, so this stays divisible by three.
pub const WORD_COUNT_PER_GAME: usize = 132;

/// The full pool of candidate words, loaded once and read-only afterwards.
pub struct AllWords {
    pub all_words: Vec<String>,
}

impl AllWords {
    /// Builds the corpus from the text of the word source, one word per line.
    pub fn new(contents: &str) -> (r: AllWords)
        ensures
            r.all_words.deep_view() == split_lines_spec(contents@),
    {
        AllWords { all_words: load_words(contents) }
    }
}

/// One word per line of `contents`, in order; blank lines pass through as
/// empty words.
pub fn load_words(contents: &str) -> (r: Vec<String>)
    ensures
        r.deep_view() == split_lines_spec(contents@),
{
    split_lines(contents)
}

/// Relies on `rand::thread_rng` and `rand::Rng::gen_range`: a value drawn
/// from the half-open range `lo..hi`, which must be non-empty.
#[verifier::external_body]
fn random_index(lo: usize, hi: usize) -> (r: usize)
    requires
        lo < hi,
    ensures
        lo <= r < hi,
{
    rand::thread_rng().gen_range(lo..hi)
}

/// Every entry of `words` also stands in `pool`, at some position past the
/// first.
pub open spec fn sampled_from(words: Seq<Seq<char>>, pool: Seq<Seq<char>>) -> bool {
    forall|i: int|
        0 <= i < words.len() ==> exists|j: int|
            1 <= j < pool.len() && #[trigger] words[i] == pool[j]
}

/// Draws `count` words from `word_list`, uniformly at random with
/// replacement. The draw range starts at index 1, so the first entry is
/// never selected, and the list must hold at least two entries.
pub fn sample_words(word_list: &Vec<String>, count: usize) -> (r: Vec<String>)
    requires
        word_list@.len() >= 2,
    ensures
        r@.len() == count,
        sampled_from(r.deep_view(), word_list.deep_view()),
{
    let total_word_count: usize = word_list.len();
    let mut words_for_game: Vec<String> = Vec::new();
    let mut n: usize = 0;
    while n < count
        invariant
            total_word_count == word_list@.len(),
            word_list@.len() >= 2,
            words_for_game@.len() == n <= count,
            sampled_from(words_for_game.deep_view(), word_list.deep_view()),
        decreases count - n,
    {
        let ghost pre = words_for_game;
        let k = random_index(1, total_word_count);
        let w = word_list[k].clone();
        words_for_game.push(w);
        proof {
            crate::text::lemma_push_deep_view(pre, words_for_game, w);
            let wfg = words_for_game.deep_view();
            let pool = word_list.deep_view();
            assert(wfg[n as int] == pool[k as int]);
            assert forall|i: int| 0 <= i < wfg.len() implies exists|j: int|
                1 <= j < pool.len() && #[trigger] wfg[i] == pool[j] by {
                if i < n {
                    assert(wfg[i] == pre.deep_view()[i]);
                    let j = choose|j: int|
                        1 <= j < pool.len() && #[trigger] pre.deep_view()[i] == pool[j];
                    assert(wfg[i] == pool[j]);
                } else {
                    assert(wfg[i] == pool[k as int]);
                }
            }
        }
        n = n + 1;
    }
    words_for_game
}

/// Draws the configured number of session words from `word_list`.
pub fn get_random_word_list(word_list: Vec<String>) -> (r: Vec<String>)
    requires
        word_list@.len() >= 2,
    ensures
        r@.len() == WORD_COUNT_PER_GAME,
        sampled_from(r.deep_view(), word_list.deep_view()),
{
    sample_words(&word_list, WORD_COUNT_PER_GAME)
}

/// The fixed-length ordered word list for one play session.
pub struct WordList {
    pub list: Vec<String>,
}

impl WordList {
    /// Samples a fresh session word list from the given word pool.
    pub fn new(word_list: Vec<String>) -> (r: WordList)
        requires
            word_list@.len() >= 2,
        ensures
            r.list@.len() == WORD_COUNT_PER_GAME,
            sampled_from(r.list.deep_view(), word_list.deep_view()),
    {
        WordList { list: get_random_word_list(word_list) }
    }
}

/// The player's committed inputs, one per completed word, in order.
pub struct PlayerWordList {
    pub list: Vec<String>,
}

impl PlayerWordList {
    /// An empty history: no word has been committed yet.
    pub fn new() -> (r: PlayerWordList)
        ensures
            r.list@.len() == 0,
    {
        PlayerWordList { list: Vec::new() }
    }
}

/// The 0-based position of the word currently being typed.
pub struct WordListIndex {
    pub current_index: usize,
}

} // verus!
