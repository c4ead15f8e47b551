//! What follows once all events of a batch were handled.

use vstd::prelude::*;
use crate::focus::FocusRequest;
use crate::output::{OutputPosition, SurfaceScaleFactor, WindowConfigure};
use crate::scale;
use crate::state::{InnerServerState, PendingActivation};

verus! {

/// What is to be done after a batch of events.
#[derive(Debug)]
pub struct BatchOutcome {
    /// The positions that the X server is told of its outputs.
    pub positions: Vec<OutputPosition>,
    /// The windows that moved along with their outputs.
    pub configures: Vec<WindowConfigure>,
    /// The scale that surfaces are to follow.
    pub scale: Option<SurfaceScaleFactor>,
    pub focus: FocusRequest,
    /// The entities whose decorations are to be drawn anew, the one that lost the focus first.
    pub redraw: (Option<u64>, Option<u64>),
    /// The tokens that can be used, with the entities whose surfaces they activate.
    pub activations: Vec<(u64, PendingActivation)>,
}

impl InnerServerState {
    /// Whether a batch is settled: first where outputs are, then the scale that they call for, then
    /// the focus and last the activations.
    pub open spec fn batch_settled(self, after: InnerServerState, outcome: BatchOutcome) -> bool {
        exists|placed: InnerServerState, scaled: InnerServerState, focused: InnerServerState|
            {
                &&& #[trigger] self.offsets_settled(
                    placed,
                    outcome.positions@,
                    outcome.configures@,
                )
                &&& #[trigger] placed.scale_settled(scaled, outcome.scale)
                &&& #[trigger] scaled.focus_applied(focused, outcome.focus, outcome.redraw)
                &&& focused.activations_taken(after, outcome.activations@)
            }
    }

    /// Whether nothing is left to be done about outputs and the focus.
    pub open spec fn is_settled(self) -> bool {
        &&& self.global_output_offset.x.owner is Some
        &&& self.global_output_offset.y.owner is Some
        &&& !self.global_offset_updated
        &&& self.updated_outputs@.len() == 0
        &&& self.to_focus is None
        &&& !self.unfocus
    }

    /// Settles everything that the events of a batch left open.
    pub fn settle_batch(&mut self) -> (outcome: BatchOutcome)
        ensures
            old(self).batch_settled(*final(self), outcome),
            !final(self).global_offset_updated,
            final(self).updated_outputs@.len() == 0,
            final(self).to_focus is None,
            !final(self).unfocus,
            old(self).wf() ==> final(self).wf(),
            old(self).one_entity_each() ==> final(self).one_entity_each(),
    {
        let (positions, configures) = self.settle_output_offset();
        let ghost placed = *self;
        let scale = self.settle_scale();
        let ghost scaled = *self;
        let (focus, redraw) = self.apply_focus();
        let ghost focused = *self;
        let activations = self.handle_activations();
        let outcome = BatchOutcome { positions, configures, scale, focus, redraw, activations };
        proof {
            assert(old(self).offsets_settled(placed, outcome.positions@, outcome.configures@));
            assert(placed.scale_settled(scaled, outcome.scale));
            assert(scaled.focus_applied(focused, outcome.focus, outcome.redraw));
        }
        outcome
    }
}

/// A batch in which nothing happened asks for nothing about outputs and the focus.
pub proof fn law_a_settled_state_stays_quiet(
    state: InnerServerState,
    after: InnerServerState,
    outcome: BatchOutcome,
)
    requires
        state.is_settled(),
        state.batch_settled(after, outcome),
    ensures
        outcome.positions@.len() == 0,
        outcome.configures@.len() == 0,
        outcome.scale is None,
        outcome.focus == FocusRequest::Nothing,
        outcome.redraw == (None::<u64>, None::<u64>),
        after.parts() == state.parts(),
        after.is_settled(),
{
}

/// The scale that a batch settles on is one that no output is below.
pub proof fn law_a_batch_settles_on_the_smallest_scale(
    state: InnerServerState,
    after: InnerServerState,
    outcome: BatchOutcome,
)
    requires
        state.batch_settled(after, outcome),
    ensures
        outcome.scale is Some <==> state.updated_outputs@.len() > 0,
        outcome.scale matches Some(s) ==> scale::is_smallest_scale(state.parts(), s.n120 as int),
{
    let (placed, scaled, focused) = choose|
        placed: InnerServerState,
        scaled: InnerServerState,
        focused: InnerServerState,
    |
        {
            &&& #[trigger] state.offsets_settled(placed, outcome.positions@, outcome.configures@)
            &&& #[trigger] placed.scale_settled(scaled, outcome.scale)
            &&& #[trigger] scaled.focus_applied(focused, outcome.focus, outcome.redraw)
            &&& focused.activations_taken(after, outcome.activations@)
        };
    assert(placed.parts().dom() =~= state.parts().dom());
    if let Some(s) = outcome.scale {
        scale::lemma_same_scales(state.parts(), placed.parts(), s.n120 as int);
    }
}

/// A batch of events ends with everything applied: the focus that waited, none if it was lost, and
/// nothing is left over for the next.
pub proof fn law_a_batch_leaves_nothing_over(
    state: InnerServerState,
    after: InnerServerState,
    outcome: BatchOutcome,
)
    requires
        state.batch_settled(after, outcome),
    ensures
        state.to_focus matches Some(focus) ==> outcome.focus == FocusRequest::Window(focus)
            && after.last_focused_toplevel == Some(focus.window),
        state.to_focus is None && state.unfocus ==> outcome.focus == FocusRequest::NoWindow
            && after.last_focused_toplevel is None,
        state.to_focus is None && !state.unfocus ==> outcome.focus == FocusRequest::Nothing
            && after.last_focused_toplevel == state.last_focused_toplevel,
        after.to_focus is None && !after.unfocus,
        after.updated_outputs@.len() == 0 && !after.global_offset_updated,
        outcome.activations@.len() + after.pending_activations@.len()
            == state.pending_activations@.len(),
        after.windows == state.windows,
{
    let (placed, scaled, focused) = choose|
        placed: InnerServerState,
        scaled: InnerServerState,
        focused: InnerServerState,
    |
        {
            &&& #[trigger] state.offsets_settled(
                placed,
                outcome.positions@,
                outcome.configures@,
            )
            &&& #[trigger] placed.scale_settled(scaled, outcome.scale)
            &&& #[trigger] scaled.focus_applied(focused, outcome.focus, outcome.redraw)
            &&& focused.activations_taken(after, outcome.activations@)
        };
    crate::focus::law_focus_is_applied_once(scaled, focused, outcome.focus, outcome.redraw);
    crate::focus::law_activations_wait_for_their_surface(focused, after, outcome.activations@, 0);
    if let Some(focus) = scaled.to_focus {
        crate::focus::law_focus_moves(
            InnerServerState { to_focus: None, unfocus: false, ..scaled },
            focused,
            outcome.redraw,
            Some(focus.window),
        );
    } else if scaled.unfocus {
        crate::focus::law_focus_moves(
            InnerServerState { unfocus: false, ..scaled },
            focused,
            outcome.redraw,
            None,
        );
    }
}

} // verus!
