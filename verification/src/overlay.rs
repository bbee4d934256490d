//! Transient surfaces that are shown on top of everything else: menus,
//! tooltips, popups.

pub mod element;

pub use element::{Element, Mapped};

use vstd::prelude::*;
use crate::clipboard::Clipboard;
use crate::event::{Event, EventInteraction};
use crate::geometry::{Point, Size};
use crate::hasher::Hasher;
use crate::layout::{Layout, Node};

verus! {

/// What every overlay can do: be laid out at an anchor, take events, be
/// drawn, and say what its layout depends on.
///
/// Beside each operation stands a specification function that an overlay
/// defines to say what the operation does. [`Overlay::lays_out`],
/// [`Overlay::responds`] and [`Overlay::draws`] relate what goes into an
/// operation to what may come out of it; an overlay that does not define
/// them promises nothing. [`Overlay::layout_fingerprint`] is a function of
/// the overlay and its anchor: an overlay in the same state at the same
/// anchor always writes the same.
pub trait Overlay<Message, Renderer>: Sized where Renderer: crate::renderer::Renderer {
    /// Whether `node` may be the layout of this overlay in `bounds` when it
    /// is anchored at `position`.
    open spec fn lays_out(
        &self,
        renderer: &Renderer,
        bounds: Size,
        position: Point,
        node: Node,
    ) -> bool {
        true
    }

    /// Whether this overlay, when it is offered `event`, may emit exactly the
    /// messages `emitted` in that order, answer `interaction`, and be left
    /// as `after`.
    open spec fn responds(
        &self,
        event: Event,
        layout: Layout<'_>,
        cursor_position: Point,
        renderer: &Renderer,
        clipboard: Option<&dyn Clipboard>,
        after: Self,
        emitted: Seq<Message>,
        interaction: EventInteraction,
    ) -> bool {
        true
    }

    /// Whether drawing this overlay on a renderer in the state `before` may
    /// produce `output` and leave the renderer in the state `after`.
    open spec fn draws(
        &self,
        before: Renderer,
        defaults: &Renderer::Defaults,
        layout: Layout<'_>,
        cursor_position: Point,
        after: Renderer,
        output: Renderer::Output,
    ) -> bool {
        true
    }

    /// The byte strings that stand for everything the layout of this
    /// overlay depends on when it is anchored at `position`, in the order in
    /// which they are written. Unless the overlay says what they are, they
    /// are some fixed strings of which nothing else is known.
    open spec fn layout_fingerprint(&self, position: Point) -> Seq<Seq<u8>> {
        arbitrary()
    }

    /// Computes the layout of the overlay in the given `bounds`, anchored at
    /// `position`.
    fn layout(&self, renderer: &Renderer, bounds: Size, position: Point) -> (node: Node)
        ensures
            self.lays_out(renderer, bounds, position, node),
    ;

    /// Offers `event` to the overlay. Whatever it has to say goes to the end
    /// of `messages`; what was there before stays in front, untouched.
    fn on_event(
        &mut self,
        event: Event,
        layout: Layout<'_>,
        cursor_position: Point,
        messages: &mut Vec<Message>,
        renderer: &Renderer,
        clipboard: Option<&dyn Clipboard>,
    ) -> (interaction: EventInteraction)
        ensures
            old(messages)@.len() <= final(messages)@.len(),
            forall|i: int|
                0 <= i < old(messages)@.len() ==> final(messages)@[i] == old(messages)@[i],
            old(self).responds(
                event,
                layout,
                cursor_position,
                renderer,
                clipboard,
                *final(self),
                final(messages)@.skip(old(messages)@.len() as int),
                interaction,
            ),
    ;

    /// Draws the overlay with the given `layout`.
    fn draw(
        &self,
        renderer: &mut Renderer,
        defaults: &Renderer::Defaults,
        layout: Layout<'_>,
        cursor_position: Point,
    ) -> (output: Renderer::Output)
        ensures
            self.draws(
                *old(renderer),
                defaults,
                layout,
                cursor_position,
                *final(renderer),
                output,
            ),
    ;

    /// Writes into `state` everything the layout of the overlay depends on
    /// when it is anchored at `position`: what is written is
    /// [`Overlay::layout_fingerprint`], whatever `state` held before.
    fn hash_layout(&self, state: &mut Hasher, position: Point)
        ensures
            final(state)@ == old(state)@ + self.layout_fingerprint(position),
    ;
}

} // verus!
