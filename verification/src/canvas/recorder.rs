use vstd::prelude::*;
use vstd::std_specs::cmp::PartialEqSpec;

use crate::math::Size;
use crate::paint::Color;

use super::RenderList;

verus! {

/// What a canvas records between two renders: the drawing instructions and
/// their stages, the current drawing state with the stack of saved states,
/// the clear color and the size of the surface.
#[derive(Debug)]
pub struct CanvasRecorder<I, S> {
    pub list: RenderList<I, S>,
    pub state_stack: Vec<S>,
    pub current_state: S,
    pub clear_color: Color,
    pub width: u32,
    pub height: u32,
}

impl<I, S: Copy + PartialEq + Default> CanvasRecorder<I, S> {
    pub open spec fn wf(&self) -> bool {
        self.list.wf()
    }

    /// `after` is `before` once saved: what was drawn is staged with the
    /// current state, which is pushed on the stack and stays current.
    pub open spec fn is_saved(before: Self, after: Self) -> bool {
        &&& after.list.instructions@ == before.list.instructions@
        &&& S::obeys_eq_spec() ==> after.list.stage@ == before.list.stage_changes_spec(before.current_state)
        &&& after.state_stack@ == before.state_stack@.push(before.current_state)
        &&& after.current_state == before.current_state
        &&& after.clear_color == before.clear_color
    }

    /// `after` is `before` once restored: with no saved state nothing
    /// changes; else the last saved state is popped and made current, what
    /// was drawn being staged first when it differs from the current state.
    pub open spec fn is_restored(before: Self, after: Self) -> bool {
        &&& after.list.instructions@ == before.list.instructions@
        &&& after.clear_color == before.clear_color
        &&& before.state_stack@.len() == 0 ==> after.state_stack@ == before.state_stack@ && after.current_state
            == before.current_state && after.list.stage@ == before.list.stage@
        &&& before.state_stack@.len() > 0 ==> {
            &&& after.state_stack@ == before.state_stack@.drop_last()
            &&& after.current_state == before.state_stack@.last()
            &&& S::obeys_eq_spec() ==> after.list.stage@ == (if before.state_stack@.last().eq_spec(
                &before.current_state,
            ) {
                before.list.stage@
            } else {
                before.list.stage_changes_spec(before.current_state)
            })
        }
    }

    /// Restoring right after saving gives back the current state and the
    /// saved states, and keeps what was drawn and the clear color.
    pub proof fn lemma_save_then_restore(r0: Self, r1: Self, r2: Self)
        requires
            Self::is_saved(r0, r1),
            Self::is_restored(r1, r2),
        ensures
            r2.current_state == r0.current_state,
            r2.state_stack@ == r0.state_stack@,
            r2.list.instructions@ == r0.list.instructions@,
            r2.clear_color == r0.clear_color,
    {
        assert(r1.state_stack@.drop_last() =~= r0.state_stack@);
    }

    /// An empty recording of a `width` by `height` surface, with the default
    /// state and a white clear color.
    pub fn new(width: u32, height: u32) -> (r: Self)
        ensures
            r.wf(),
            r.list.instructions@.len() == 0,
            r.list.stage@.len() == 0,
            r.state_stack@.len() == 0,
            call_ensures(S::default, (), r.current_state),
            r.clear_color == Color::white_spec(),
            r.width == width,
            r.height == height,
    {
        CanvasRecorder {
            list: RenderList::default(),
            state_stack: Vec::new(),
            current_state: S::default(),
            clear_color: Color::white(),
            width,
            height,
        }
    }

    /// The size of the surface.
    pub fn screen(&self) -> (r: Size<u32>)
        ensures
            r == (Size { width: self.width, height: self.height }),
    {
        Size::new(self.width, self.height)
    }

    /// Stages the instructions drawn since the last stage with the current state.
    pub fn stage_changes(&mut self)
        requires
            old(self).wf(),
            old(self).list.instructions@.len() <= usize::MAX,
        ensures
            final(self).wf(),
            final(self).list.instructions@ == old(self).list.instructions@,
            S::obeys_eq_spec() ==> final(self).list.stage@ == old(self).list.stage_changes_spec(
                old(self).current_state,
            ),
            old(self).list.staged_end() < old(self).list.instructions@.len() ==> final(self).list.staged_end()
                == old(self).list.instructions@.len(),
            old(self).list.staged_end() >= old(self).list.instructions@.len() ==> final(self).list.stage@
                == old(self).list.stage@,
            final(self).state_stack@ == old(self).state_stack@,
            final(self).current_state == old(self).current_state,
            final(self).clear_color == old(self).clear_color,
            final(self).width == old(self).width,
            final(self).height == old(self).height,
    {
        let state = self.current_state;
        self.list.stage_changes(state);
    }

    /// Records an instruction drawn with the current state.
    pub fn draw(&mut self, instruction: I)
        requires
            old(self).wf(),
        ensures
            final(self).wf(),
            final(self).list.instructions@ == old(self).list.instructions@.push(instruction),
            final(self).list.stage@ == old(self).list.stage@,
            final(self).state_stack@ == old(self).state_stack@,
            final(self).current_state == old(self).current_state,
            final(self).clear_color == old(self).clear_color,
    {
        self.list.add(instruction);
    }

    /// Stages what was drawn and pushes the current state.
    pub fn save(&mut self)
        requires
            old(self).wf(),
            old(self).list.instructions@.len() <= usize::MAX,
        ensures
            final(self).wf(),
            Self::is_saved(*old(self), *final(self)),
    {
        self.stage_changes();
        self.state_stack.push(self.current_state);
    }

    /// Pops the last saved state and makes it current, staging what was
    /// drawn first when it differs from the current state; does nothing when
    /// no state is saved.
    pub fn restore(&mut self)
        requires
            old(self).wf(),
            old(self).list.instructions@.len() <= usize::MAX,
        ensures
            final(self).wf(),
            Self::is_restored(*old(self), *final(self)),
    {
        match self.state_stack.pop() {
            Some(restored) => {
                if restored != self.current_state {
                    self.stage_changes();
                }
                self.current_state = restored;
            },
            None => {},
        }
    }

    /// Stages what was drawn, then puts back the default state and the
    /// white clear color and forgets the saved states.
    pub fn reset(&mut self)
        requires
            old(self).wf(),
            old(self).list.instructions@.len() <= usize::MAX,
        ensures
            final(self).wf(),
            final(self).list.instructions@ == old(self).list.instructions@,
            S::obeys_eq_spec() ==> final(self).list.stage@ == old(self).list.stage_changes_spec(
                old(self).current_state,
            ),
            final(self).state_stack@.len() == 0,
            call_ensures(S::default, (), final(self).current_state),
            final(self).clear_color == Color::white_spec(),
    {
        self.stage_changes();
        self.clear_color = Color::white();
        self.current_state = S::default();
        self.state_stack.clear();
    }

    /// Forgets every instruction and stage.
    pub fn clear(&mut self)
        ensures
            final(self).wf(),
            final(self).list.instructions@.len() == 0,
            final(self).list.stage@.len() == 0,
            final(self).state_stack@ == old(self).state_stack@,
            final(self).current_state == old(self).current_state,
    {
        self.list.clear();
    }

    pub fn set_clear_color(&mut self, clear_color: Color)
        ensures
            final(self).clear_color == clear_color,
            final(self).list == old(self).list,
            final(self).state_stack@ == old(self).state_stack@,
            final(self).current_state == old(self).current_state,
    {
        self.clear_color = clear_color;
    }

    /// Takes the new size of the surface; each dimension is at least 1.
    pub fn resize(&mut self, new_width: u32, new_height: u32)
        ensures
            final(self).width == (if new_width >= 1 { new_width } else { 1 }),
            final(self).height == (if new_height >= 1 { new_height } else { 1 }),
            final(self).list == old(self).list,
            final(self).state_stack@ == old(self).state_stack@,
            final(self).current_state == old(self).current_state,
    {
        self.width = if new_width >= 1 { new_width } else { 1 };
        self.height = if new_height >= 1 { new_height } else { 1 };
    }
}

} // verus!
