//! Character-level comparison of typed input against a target word,
//! producing the per-character classification the renderer colors words
//! with. Pure: safe to call on every redraw.

use crate::text::trim;
use crate::text::trim_spec;
use vstd::prelude::*;

verus! {

/// Correctness of one displayed character.
#[derive(Clone, Copy, Debug, PartialEq, Eq, Structural)]
pub enum CorrectnessTag {
    Correct,
    Incorrect,
    Untyped,
}

/// Where a word stands relative to the word currently being typed.
#[derive(Clone, Copy, Debug, PartialEq, Eq, Structural)]
pub enum WordPosition {
    Past,
    Current,
    Future,
}

/// Where the word at `word_index` stands relative to `current_index`.
pub open spec fn position_of_spec(word_index: int, current_index: int) -> WordPosition {
    if word_index < current_index {
        WordPosition::Past
    } else if word_index == current_index {
        WordPosition::Current
    } else {
        WordPosition::Future
    }
}

/// Executable counterpart of [`position_of_spec`].
pub fn position_of(word_index: usize, current_index: usize) -> (r: WordPosition)
    ensures
        r == position_of_spec(word_index as int, current_index as int),
{
    if word_index < current_index {
        WordPosition::Past
    } else if word_index == current_index {
        WordPosition::Current
    } else {
        WordPosition::Future
    }
}

/// Per-character classification of the current word against the live
/// input, one cell per target position: a case-sensitive match is
/// Correct, a mismatch Incorrect, and positions beyond the typed text
/// Untyped. A cell carries the typed character where one exists, else the
/// target character.
pub open spec fn classify_current_spec(target: Seq<char>, live: Seq<char>) -> Seq<
    (char, CorrectnessTag),
> {
    Seq::new(
        target.len(),
        |i: int|
            (
                if i < live.len() {
                    live[i]
                } else {
                    target[i]
                },
                if i < live.len() {
                    if target[i] == live[i] {
                        CorrectnessTag::Correct
                    } else {
                        CorrectnessTag::Incorrect
                    }
                } else {
                    CorrectnessTag::Untyped
                },
            ),
    )
}

/// Whole-word verdict for a past word: Correct exactly when the trimmed
/// committed input equals the trimmed target, case-sensitively.
pub open spec fn past_word_tag(target: Seq<char>, committed: Seq<char>) -> CorrectnessTag {
    if trim_spec(committed) == trim_spec(target) {
        CorrectnessTag::Correct
    } else {
        CorrectnessTag::Incorrect
    }
}

/// Every character of `target` under the one tag.
pub open spec fn uniform_plan(target: Seq<char>, tag: CorrectnessTag) -> Seq<
    (char, CorrectnessTag),
> {
    Seq::new(target.len(), |i: int| (target[i], tag))
}

/// The classification of one word: a past word is judged whole, the
/// current word character by character, and a future word is untyped
/// throughout.
pub open spec fn classify_spec(
    target: Seq<char>,
    input: Seq<char>,
    position: WordPosition,
) -> Seq<(char, CorrectnessTag)> {
    match position {
        WordPosition::Past => uniform_plan(target, past_word_tag(target, input)),
        WordPosition::Current => classify_current_spec(target, input),
        WordPosition::Future => uniform_plan(target, CorrectnessTag::Untyped),
    }
}

/// Render plan for one word: one tagged character per target character,
/// and a flag set when the live input runs past the end of the current
/// word (the excess is not represented per character; the renderer falls
/// back to a whole-word incorrect treatment).
pub struct WordRenderPlan {
    pub cells: Vec<(char, CorrectnessTag)>,
    pub overflowed: bool,
}

fn uniform_cells(target: &str, tag: CorrectnessTag) -> (r: Vec<(char, CorrectnessTag)>)
    ensures
        r@ == uniform_plan(target@, tag),
{
    let tlen = target.unicode_len();
    let mut cells: Vec<(char, CorrectnessTag)> = Vec::new();
    let mut i: usize = 0;
    while i < tlen
        invariant
            i <= tlen,
            tlen == target@.len(),
            cells@.len() == i,
            forall|k: int| 0 <= k < i ==> cells@[k] == uniform_plan(target@, tag)[k],
        decreases tlen - i,
    {
        cells.push((target.get_char(i), tag));
        i = i + 1;
    }
    proof {
        assert(cells@ =~= uniform_plan(target@, tag));
    }
    cells
}

/// Classifies `input` against `target` for a word standing at `position`,
/// as [`classify_spec`] says; the overflow flag is set exactly when the
/// current word's live input is longer than the target.
pub fn classify(target: &str, input: &str, position: WordPosition) -> (r: WordRenderPlan)
    ensures
        r.cells@ == classify_spec(target@, input@, position),
        r.overflowed == (position is Current && input@.len() > target@.len()),
{
    match position {
        WordPosition::Current => {
            let tlen = target.unicode_len();
            let ilen = input.unicode_len();
            let mut cells: Vec<(char, CorrectnessTag)> = Vec::new();
            let mut i: usize = 0;
            while i < tlen
                invariant
                    i <= tlen,
                    tlen == target@.len(),
                    ilen == input@.len(),
                    cells@.len() == i,
                    forall|k: int|
                        0 <= k < i ==> cells@[k] == classify_current_spec(target@, input@)[k],
                decreases tlen - i,
            {
                let target_char = target.get_char(i);
                let cell = if i < ilen {
                    let typed_char = input.get_char(i);
                    let tag = if target_char == typed_char {
                        CorrectnessTag::Correct
                    } else {
                        CorrectnessTag::Incorrect
                    };
                    (typed_char, tag)
                } else {
                    (target_char, CorrectnessTag::Untyped)
                };
                cells.push(cell);
                i = i + 1;
            }
            proof {
                assert(cells@ =~= classify_current_spec(target@, input@));
            }
            WordRenderPlan { cells, overflowed: ilen > tlen }
        },
        WordPosition::Past => {
            let target_trimmed = trim(target);
            let input_trimmed = trim(input);
            let tag = if input_trimmed == target_trimmed {
                CorrectnessTag::Correct
            } else {
                CorrectnessTag::Incorrect
            };
            WordRenderPlan { cells: uniform_cells(target, tag), overflowed: false }
        },
        WordPosition::Future => {
            WordRenderPlan {
                cells: uniform_cells(target, CorrectnessTag::Untyped),
                overflowed: false,
            }
        },
    }
}

} // verus!
