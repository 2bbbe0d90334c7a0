//! Choosing the secret: the colours picked so far, and the decision whether a
//! line of input picks another one.

use vstd::prelude::*;
use crate::color::{color_of_input, get_color_from_input, Color};
use crate::combination::pairwise_distinct;

verus! {

/// Why a line of input did not select a colour.
#[derive(Debug, PartialEq, Eq, Clone, Copy, Structural)]
pub enum SelectionError {
    /// The input names no colour of the palette.
    InvalidColorToken,
    /// The input names a colour that has been chosen before.
    DuplicateColorSelection,
}

/// The colours chosen so far for a secret. Each is held once, in the order
/// in which it was chosen.
pub struct ChosenColors {
    colors: Vec<Color>,
}

impl View for ChosenColors {
    type V = Set<Color>;

    closed spec fn view(&self) -> Set<Color> {
        self.colors@.to_set()
    }
}

impl ChosenColors {
    #[verifier::type_invariant]
    spec fn held_once(&self) -> bool {
        self.colors@.no_duplicates()
    }

    /// Nothing chosen yet.
    pub fn new() -> (chosen: ChosenColors)
        ensures
            chosen@ == Set::<Color>::empty(),
    {
        let chosen = ChosenColors { colors: Vec::new() };
        assert(chosen.colors@.to_set() =~= Set::<Color>::empty());
        chosen
    }

    /// Whether `color` has been chosen.
    pub fn contains(&self, color: Color) -> (found: bool)
        ensures
            found == self@.contains(color),
    {
        let mut i: usize = 0;
        while i < self.colors.len()
            invariant
                i <= self.colors.len(),
                forall|k: int| 0 <= k < i ==> self.colors@[k] != color,
            decreases self.colors.len() - i,
        {
            if self.colors[i] == color {
                return true;
            }
            i += 1;
        }
        false
    }

    /// Adds `color` unless it has been chosen before, and says whether it
    /// was added.
    pub fn insert(&mut self, color: Color) -> (added: bool)
        ensures
            added == !old(self)@.contains(color),
            final(self)@ == old(self)@.insert(color),
    {
        if self.contains(color) {
            assert(self@.insert(color) =~= self@);
            false
        } else {
            proof {
                use_type_invariant(&*self);
                self.colors@.lemma_push_to_set_commute(color);
            }
            // The vector is taken out while it grows, so that `self` holds
            // a duplicate-free one at every moment.
            let mut colors: Vec<Color> = Vec::new();
            std::mem::swap(&mut self.colors, &mut colors);
            colors.push(color);
            std::mem::swap(&mut self.colors, &mut colors);
            true
        }
    }
}

/// Decides what a line of input means while the secret is being chosen. A
/// colour that the input names and that has not been chosen before is
/// recorded and returned; anything else leaves the chosen colours as they
/// were and says why.
pub fn select_color(input: &str, selected_colors: &mut ChosenColors) -> (selection: Result<
    Color,
    SelectionError,
>)
    ensures
        match color_of_input(input@) {
            None => {
                &&& selection == Err::<Color, SelectionError>(SelectionError::InvalidColorToken)
                &&& final(selected_colors)@ == old(selected_colors)@
            },
            Some(color) => if old(selected_colors)@.contains(color) {
                &&& selection == Err::<Color, SelectionError>(
                    SelectionError::DuplicateColorSelection,
                )
                &&& final(selected_colors)@ == old(selected_colors)@
            } else {
                &&& selection == Ok::<Color, SelectionError>(color)
                &&& final(selected_colors)@ == old(selected_colors)@.insert(color)
            },
        },
{
    match get_color_from_input(input) {
        Ok(color) => {
            if selected_colors.insert(color) {
                Ok(color)
            } else {
                assert(old(selected_colors)@.insert(color) =~= old(selected_colors)@);
                Err(SelectionError::DuplicateColorSelection)
            }
        },
        Err(_) => Err(SelectionError::InvalidColorToken),
    }
}

/// Four colours, each of which was not among those chosen before it, are
/// pairwise distinct: a secret put together from four successive selections
/// is a valid one.
pub proof fn lemma_fresh_choices_are_distinct(
    first: Color,
    second: Color,
    third: Color,
    fourth: Color,
)
    requires
        !set![first].contains(second),
        !set![first, second].contains(third),
        !set![first, second, third].contains(fourth),
    ensures
        pairwise_distinct(seq![first, second, third, fourth]),
{
}

} // verus!
