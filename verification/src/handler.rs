//! The contract between a window and the scene it shows.

use crate::context::{Context, ContextView};
use vstd::prelude::*;

verus! {

/// The state of one scene. The window creates it once, lets it draw every
/// frame, and tells it when the window closes. Every hook records the
/// commands it wants carried out into the context it is given.
///
/// Beside each hook stands a relation that says what the hook may do: which
/// scene and which context it may leave behind. A scene states its own
/// relations; the window promises of every frame it hands out that it came
/// about in a way the relations allow. A scene that states none allows its
/// hooks anything.
pub trait RenderHandler: Sized {
    /// `init` may return `scene` and turn the context `before` into `after`.
    open spec fn initialized(before: ContextView, scene: Self, after: ContextView) -> bool {
        true
    }

    /// `draw` may turn `scene` into `then` and the context `before` into
    /// `after`.
    open spec fn drawn(scene: Self, before: ContextView, then: Self, after: ContextView) -> bool {
        true
    }

    /// `exit` may turn `scene` into `then` and the context `before` into
    /// `after`.
    open spec fn exited(scene: Self, before: ContextView, then: Self, after: ContextView) -> bool {
        true
    }

    /// Sets the scene up. Called once, before anything is drawn.
    fn init(gl: &mut Context) -> (scene: Self)
        ensures
            Self::initialized(old(gl)@, scene, final(gl)@),
    ;

    /// Draws one frame.
    fn draw(&mut self, gl: &mut Context)
        ensures
            Self::drawn(*old(self), old(gl)@, *final(self), final(gl)@),
    ;

    /// Releases what the scene holds. Called once, when the window closes.
    fn exit(&mut self, gl: &mut Context)
        ensures
            Self::exited(*old(self), old(gl)@, *final(self), final(gl)@),
    ;
}

/// A hook that does nothing: the scene and the context stay as they are.
pub open spec fn unchanged<H>(scene: H, before: ContextView, then: H, after: ContextView) -> bool {
    then == scene && after == before
}

} // verus!
