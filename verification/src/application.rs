use vstd::prelude::*;
use crate::engine::EngineData;
use crate::layers::layer::Layer;

verus! {

/// The program that an engine runs: it says which layers there are, and is
/// told when the loop has ended.
pub trait Application: Sized {
    /// The layers that this application puts on the stack.
    type Layer: Layer;

    /// Whether the application, being in the state `self`, may leave `start`
    /// in the state `after` with the layers `stack` on the stack of a new
    /// engine, the first `layers` of them layers proper and the rest
    /// overlays. The default allows everything; an implementation overrides
    /// it to tell verified callers what its `start` does.
    open spec fn starts(&self, after: &Self, stack: Seq<Self::Layer>, layers: nat) -> bool {
        true
    }

    /// Whether the application, being in the state `self`, may leave `close`
    /// in the state `after`. The default allows everything.
    open spec fn closes(&self, after: &Self) -> bool {
        true
    }

    /// Called once, before the first frame. This is where the application
    /// pushes its layers. It cannot stop the engine or touch the input
    /// snapshot: `ed` offers no way to.
    fn start(&mut self, ed: &mut EngineData<Self::Layer>)
        requires
            old(ed).well_formed(),
        ensures
            final(ed).well_formed(),
            final(ed).running() == old(ed).running(),
            final(ed).snapshot() == old(ed).snapshot(),
            old(ed).stack()@.len() == 0 ==> old(self).starts(
                final(self),
                final(ed).stack()@,
                final(ed).stack().layers(),
            ),
    ;

    /// Called once, when the loop has ended.
    fn close(&mut self)
        ensures
            old(self).closes(final(self)),
    ;
}

} // verus!
