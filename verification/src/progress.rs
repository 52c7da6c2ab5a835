//! Per-word progression: the current word index, the committed-word
//! history, and the live input buffer, with the advance and undo
//! operations. The core invariant is one committed entry per completed
//! word: `history.len() == current_index`.

use crate::text::lemma_trim_idempotent;
use crate::text::trim;
use crate::text::trim_spec;
use crate::word_generator::PlayerWordList;
use crate::word_generator::WordListIndex;
use vstd::prelude::*;

verus! {

/// Mathematical model of [`ProgressState`].
#[verifier::ext_equal]
pub struct ProgressModel {
    pub current_index: nat,
    pub history: Seq<Seq<char>>,
    pub live_input: Seq<char>,
}

impl ProgressModel {
    /// Core invariant: one committed entry per completed word.
    pub open spec fn wf(self) -> bool {
        self.history.len() == self.current_index
    }
}

/// The model after committing the live input against a word list of length
/// `list_len`: the trimmed input is appended to the history, the index
/// moves on, the buffer clears. Unchanged when the index would pass the
/// end.
pub open spec fn advance_spec(m: ProgressModel, list_len: nat) -> ProgressModel {
    if m.current_index < list_len {
        ProgressModel {
            current_index: m.current_index + 1,
            history: m.history.push(trim_spec(m.live_input)),
            live_input: Seq::empty(),
        }
    } else {
        m
    }
}

/// The model after stepping back one word: the last committed entry leaves
/// the history and its trimmed text becomes the live input. Unchanged
/// unless a word was committed and the buffer is empty.
pub open spec fn undo_spec(m: ProgressModel) -> ProgressModel {
    if m.current_index > 0 && m.live_input.len() == 0 {
        ProgressModel {
            current_index: (m.current_index - 1) as nat,
            history: m.history.drop_last(),
            live_input: trim_spec(m.history.last()),
        }
    } else {
        m
    }
}

/// Progression state for one session: where the player is in the word
/// list, what they committed so far, and what they are typing now.
pub struct ProgressState {
    pub index: WordListIndex,
    pub history: PlayerWordList,
    pub live_input: String,
}

impl View for ProgressState {
    type V = ProgressModel;

    open spec fn view(&self) -> ProgressModel {
        ProgressModel {
            current_index: self.index.current_index as nat,
            history: self.history.list.deep_view(),
            live_input: self.live_input@,
        }
    }
}

impl ProgressState {
    /// Core invariant: one committed entry per completed word.
    pub open spec fn wf(self) -> bool {
        self@.wf()
    }

    /// Fresh progression: at the first word, nothing committed, nothing
    /// typed.
    pub fn new() -> (r: ProgressState)
        ensures
            r.wf(),
            r@.current_index == 0,
            r@.history.len() == 0,
            r@.live_input.len() == 0,
    {
        ProgressState {
            index: WordListIndex { current_index: 0 },
            history: PlayerWordList::new(),
            live_input: String::new(),
        }
    }

    /// Resets the live buffer for the word at `word_index`, which must be
    /// the word the progression is at.
    pub fn begin_word(&mut self, word_index: usize)
        requires
            word_index == old(self).index.current_index,
        ensures
            final(self)@.live_input == Seq::<char>::empty(),
            final(self)@.current_index == old(self)@.current_index,
            final(self)@.history == old(self)@.history,
    {
        self.live_input = String::new();
    }

    /// Replaces the live buffer with the text value the renderer reports.
    pub fn set_live_input(&mut self, new_text: String)
        ensures
            final(self)@.live_input == new_text@,
            final(self)@.current_index == old(self)@.current_index,
            final(self)@.history == old(self)@.history,
    {
        self.live_input = new_text;
    }

    /// Commits the current word. A silent no-op when the index would pass
    /// the end of a word list of length `list_len`; in particular, at the
    /// last index the state is left unchanged.
    pub fn advance(&mut self, list_len: usize)
        requires
            old(self).wf(),
        ensures
            final(self).wf(),
            final(self)@ == advance_spec(old(self)@, list_len as nat),
            old(self).index.current_index >= list_len ==> *final(self) == *old(self),
    {
        if self.index.current_index < list_len {
            let committed = trim(self.live_input.as_str());
            let ghost pre_hist = self.history.list;
            self.history.list.push(committed);
            self.index.current_index = self.index.current_index + 1;
            self.live_input = String::new();
            proof {
                crate::text::lemma_push_deep_view(pre_hist, self.history.list, committed);
                assert(self@ =~= advance_spec(old(self)@, list_len as nat));
            }
        }
    }

    /// Steps back to the previous word. A silent no-op unless a word was
    /// committed and the live buffer is empty; in particular, at index 0
    /// the state is left unchanged, whatever the buffer holds.
    pub fn undo(&mut self)
        requires
            old(self).wf(),
        ensures
            final(self).wf(),
            final(self)@ == undo_spec(old(self)@),
            old(self).index.current_index == 0 || old(self)@.live_input.len() > 0
                ==> *final(self) == *old(self),
    {
        if self.index.current_index > 0 && self.live_input.as_str().is_empty() {
            let idx = self.index.current_index - 1;
            self.index.current_index = idx;
            let restored = trim(self.history.list[idx].as_str());
            self.live_input = restored;
            let ghost pre_hist = self.history.list;
            let _ = self.history.list.pop();
            proof {
                crate::text::lemma_drop_last_deep_view(pre_hist, self.history.list);
                assert(pre_hist.deep_view().last() == pre_hist@[idx as int]@);
                assert(self@ =~= undo_spec(old(self)@));
            }
        }
    }
}

/// The committed input for the word at `index`, or empty text where none
/// has been committed yet.
pub fn get_previous_input(player_word_list: &Vec<String>, index: usize) -> (r: String)
    ensures
        index < player_word_list@.len() ==> r@ == player_word_list.deep_view()[index as int],
        index >= player_word_list@.len() ==> r@ == Seq::<char>::empty(),
{
    if index < player_word_list.len() {
        player_word_list[index].clone()
    } else {
        String::new()
    }
}

/// Committing a word and then undoing restores the progression: the live
/// input comes back as the trimmed pre-advance text, and the index and the
/// history return to their pre-advance values.
pub proof fn lemma_advance_undo_round_trip(m: ProgressModel, list_len: nat)
    requires
        m.wf(),
        m.current_index < list_len,
    ensures
        undo_spec(advance_spec(m, list_len)).live_input == trim_spec(m.live_input),
        undo_spec(advance_spec(m, list_len)).current_index == m.current_index,
        undo_spec(advance_spec(m, list_len)).history == m.history,
{
    let a = advance_spec(m, list_len);
    lemma_trim_idempotent(m.live_input);
    assert(a.history.last() == trim_spec(m.live_input));
    assert(a.history.drop_last() =~= m.history);
}

} // verus!
