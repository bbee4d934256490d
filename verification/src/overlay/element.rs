//! An overlay with the place where it is anchored, and the adapter that
//! turns the messages of one overlay into those of another.

use vstd::prelude::*;
use core::marker::PhantomData;
use crate::clipboard::Clipboard;
use crate::event::{Event, EventInteraction};
use crate::geometry::{Point, Size, Vector};
use crate::hasher::Hasher;
use crate::layout::{Layout, Node};
use crate::overlay::Overlay;

verus! {

/// Whether `f` may be called on every argument.
pub open spec fn accepts_all<A, B, F: Fn(A) -> B + ?Sized>(f: &F) -> bool {
    forall|a: A| call_requires(f, (a,))
}

/// Whether `results` holds, for each element of `arguments` and in the same
/// order, a value that `f` returns for it: as many, none left out, none
/// added, none moved.
pub open spec fn transforms<A, B, F: Fn(A) -> B + ?Sized>(
    f: &F,
    arguments: Seq<A>,
    results: Seq<B>,
) -> bool {
    &&& results.len() == arguments.len()
    &&& forall|i: int|
        0 <= i < arguments.len() ==> call_ensures(f, (arguments[i],), #[trigger] results[i])
}

/// Whether whatever `composed` returns for an argument is something that
/// `second` returns for something that `first` returns for that argument.
pub open spec fn within_composition<A, B, C, F, G, K>(
    composed: &K,
    first: &F,
    second: &G,
) -> bool where F: Fn(A) -> B + ?Sized, G: Fn(B) -> C + ?Sized, K: Fn(A) -> C + ?Sized {
    forall|a: A, c: C| #[trigger]
        call_ensures(composed, (a,), c) ==> exists|b: B|
            call_ensures(first, (a,), b) && call_ensures(second, (b,), c)
}

/// Whether whatever `second` returns for something that `first` returns for
/// an argument is something that `composed` returns for that argument.
pub open spec fn covers_composition<A, B, C, F, G, K>(
    composed: &K,
    first: &F,
    second: &G,
) -> bool where F: Fn(A) -> B + ?Sized, G: Fn(B) -> C + ?Sized, K: Fn(A) -> C + ?Sized {
    forall|a: A, b: B, c: C|
        #[trigger] call_ensures(first, (a,), b) && #[trigger] call_ensures(second, (b,), c)
            ==> call_ensures(composed, (a,), c)
}

/// An overlay together with the point at which it is anchored.
///
/// The anchor is the place, in the coordinates of whatever shows the
/// overlay, where the overlay's own origin lies. It is handed to the overlay
/// whenever the overlay is laid out or fingerprinted, and only
/// [`Element::translate`] changes it.
#[verifier::reject_recursive_types(Message)]
#[verifier::reject_recursive_types(Renderer)]
pub struct Element<Message, Renderer, O> {
    position: Point,
    overlay: Box<O>,
    marker: PhantomData<(Message, Renderer)>,
}

impl<Message, Renderer, O> Element<Message, Renderer, O> where
    Renderer: crate::renderer::Renderer,
    O: Overlay<Message, Renderer>,
 {
    /// The point at which the overlay is anchored.
    pub closed spec fn position(self) -> Point {
        self.position
    }

    /// The overlay that is anchored.
    pub closed spec fn overlay(self) -> O {
        *self.overlay
    }

    /// This element, moved by `translation`: what [`Element::translate`]
    /// returns.
    pub closed spec fn translated(self, translation: Vector) -> Self {
        Element {
            position: self.position.moved_by(translation),
            overlay: self.overlay,
            marker: PhantomData,
        }
    }

    /// This element, with each message that its overlay emits passed
    /// through `f`: what [`Element::map`] returns.
    pub closed spec fn mapped<'a, B, F: Fn(Message) -> B + ?Sized>(self, f: &'a F) -> Element<
        B,
        Renderer,
        Mapped<'a, Message, B, Renderer, O, F>,
    > {
        Element {
            position: self.position,
            overlay: Box::new(
                Mapped {
                    content: self.overlay,
                    mapper: Total { function: f, marker: PhantomData },
                    marker: PhantomData,
                },
            ),
            marker: PhantomData,
        }
    }

    /// Whether `node` may be the layout of this element in `bounds`: it may
    /// be that of its overlay, anchored where the element is.
    pub open spec fn lays_out(self, renderer: &Renderer, bounds: Size, node: Node) -> bool {
        self.overlay().lays_out(renderer, bounds, self.position(), node)
    }

    /// Whether this element, when it is offered `event`, may emit exactly
    /// the messages `emitted` in that order, answer `interaction`, and be
    /// left as `after`: its overlay responds so, and the anchor stays.
    pub open spec fn responds(
        self,
        event: Event,
        layout: Layout<'_>,
        cursor_position: Point,
        renderer: &Renderer,
        clipboard: Option<&dyn Clipboard>,
        after: Self,
        emitted: Seq<Message>,
        interaction: EventInteraction,
    ) -> bool {
        &&& after.position() == self.position()
        &&& self.overlay().responds(
            event, layout, cursor_position, renderer, clipboard, after.overlay(), emitted,
            interaction,
        )
    }

    /// Whether drawing this element on a renderer in the state `before` may
    /// produce `output` and leave the renderer in the state `after`.
    pub open spec fn draws(
        self,
        before: Renderer,
        defaults: &Renderer::Defaults,
        layout: Layout<'_>,
        cursor_position: Point,
        after: Renderer,
        output: Renderer::Output,
    ) -> bool {
        self.overlay().draws(before, defaults, layout, cursor_position, after, output)
    }

    /// The byte strings that stand for everything the layout of this
    /// element depends on: what its overlay names, anchored where the
    /// element is.
    pub open spec fn layout_fingerprint(self) -> Seq<Seq<u8>> {
        self.overlay().layout_fingerprint(self.position())
    }

    /// Creates a new [`Element`] that anchors the given overlay at
    /// `position`. Every position is accepted.
    pub fn new(position: Point, overlay: Box<O>) -> (element: Self)
        ensures
            element.position() == position,
            element.overlay() == *overlay,
    {
        Element { position, overlay, marker: PhantomData }
    }

    /// Moves the [`Element`] by `translation` and leaves its overlay as it
    /// is. The new anchor has to fit in the coordinates.
    pub fn translate(self, translation: Vector) -> (moved: Self)
        requires
            self.position().reaches(translation),
        ensures
            moved == self.translated(translation),
            moved.position().x == self.position().x + translation.x,
            moved.position().y == self.position().y + translation.y,
            moved.overlay() == self.overlay(),
    {
        Element {
            position: self.position + translation,
            overlay: self.overlay,
            marker: PhantomData,
        }
    }

    /// Applies a transformation to the messages that the [`Element`]
    /// produces: the result holds this element's overlay inside a
    /// [`Mapped`], at the same anchor. The function has to accept every
    /// message.
    pub fn map<'a, B, F: Fn(Message) -> B + ?Sized>(self, f: &'a F) -> (mapped: Element<
        B,
        Renderer,
        Mapped<'a, Message, B, Renderer, O, F>,
    >)
        requires
            accepts_all(f),
        ensures
            mapped == self.mapped(f),
            mapped.position() == self.position(),
            mapped.overlay().content() == self.overlay(),
            mapped.overlay().mapper() == f,
    {
        Element {
            position: self.position,
            overlay: Box::new(Mapped::new(self.overlay, f)),
            marker: PhantomData,
        }
    }

    /// Computes the layout of the [`Element`] in the given bounds: that of
    /// its overlay, anchored where the element is.
    pub fn layout(&self, renderer: &Renderer, bounds: Size) -> (node: Node)
        ensures
            self.lays_out(renderer, bounds, node),
    {
        self.overlay.layout(renderer, bounds, self.position)
    }

    /// Processes a runtime [`Event`]. What the overlay has to say goes to
    /// the end of `messages`; what was there before stays in front. The
    /// anchor stays where it is.
    pub fn on_event(
        &mut self,
        event: Event,
        layout: Layout<'_>,
        cursor_position: Point,
        messages: &mut Vec<Message>,
        renderer: &Renderer,
        clipboard: Option<&dyn Clipboard>,
    ) -> (interaction: EventInteraction)
        ensures
            old(messages)@.len() <= final(messages)@.len(),
            forall|i: int|
                0 <= i < old(messages)@.len() ==> final(messages)@[i] == old(messages)@[i],
            old(self).responds(
                event, layout, cursor_position, renderer, clipboard, *final(self),
                final(messages)@.skip(old(messages)@.len() as int), interaction,
            ),
            final(self).position() == old(self).position(),
    {
        self.overlay.on_event(event, layout, cursor_position, messages, renderer, clipboard)
    }

    /// Draws the [`Element`] using the given [`Layout`].
    pub fn draw(
        &self,
        renderer: &mut Renderer,
        defaults: &Renderer::Defaults,
        layout: Layout<'_>,
        cursor_position: Point,
    ) -> (output: Renderer::Output)
        ensures
            self.draws(
                *old(renderer), defaults, layout, cursor_position, *final(renderer), output,
            ),
    {
        self.overlay.draw(renderer, defaults, layout, cursor_position)
    }

    /// Computes the _layout_ hash of the [`Element`]: writes into `state`
    /// the fingerprint of the overlay at the element's own anchor, behind
    /// what `state` held before.
    pub fn hash_layout(&self, state: &mut Hasher)
        ensures
            final(state)@ == old(state)@ + self.layout_fingerprint(),
    {
        self.overlay.hash_layout(state, self.position);
    }
}

/// A borrowed function that is known to accept every argument.
#[verifier::reject_recursive_types(A)]
#[verifier::reject_recursive_types(B)]
#[verifier::reject_recursive_types(F)]
struct Total<'a, A, B, F: Fn(A) -> B + ?Sized> {
    function: &'a F,
    marker: PhantomData<(A, B)>,
}

impl<'a, A, B, F: Fn(A) -> B + ?Sized> Total<'a, A, B, F> {
    #[verifier::type_invariant]
    spec fn is_total(self) -> bool {
        accepts_all(self.function)
    }

    fn new(function: &'a F) -> (total: Self)
        requires
            accepts_all(function),
        ensures
            total.function == function,
    {
        Total { function, marker: PhantomData }
    }

    fn apply(&self, argument: A) -> (result: B)
        ensures
            call_ensures(self.function, (argument,), result),
    {
        proof {
            use_type_invariant(self);
        }
        let function = self.function;
        function(argument)
    }
}

/// An overlay of messages `B` made of an overlay of messages `A` and a
/// function from `A` to `B`. It lays out, draws and fingerprints as its
/// content does, and hands on what its content says, each message passed
/// through the function.
#[verifier::reject_recursive_types(A)]
#[verifier::reject_recursive_types(B)]
#[verifier::reject_recursive_types(F)]
pub struct Mapped<'a, A, B, Renderer, O, F: Fn(A) -> B + ?Sized> {
    content: Box<O>,
    mapper: Total<'a, A, B, F>,
    marker: PhantomData<Renderer>,
}

impl<'a, A, B, Renderer, O, F> Mapped<'a, A, B, Renderer, O, F> where
    Renderer: crate::renderer::Renderer,
    O: Overlay<A, Renderer>,
    F: Fn(A) -> B + ?Sized,
 {
    /// The overlay that is wrapped.
    pub closed spec fn content(self) -> O {
        *self.content
    }

    /// The function that every message of the content goes through.
    pub closed spec fn mapper(self) -> &'a F {
        self.mapper.function
    }

    /// Wraps `content`, whose messages will go through `mapper`. The
    /// function has to accept every message.
    pub fn new(content: Box<O>, mapper: &'a F) -> (mapped: Self)
        requires
            accepts_all(mapper),
        ensures
            mapped.content() == *content,
            mapped.mapper() == mapper,
    {
        Mapped { content, mapper: Total::new(mapper), marker: PhantomData }
    }
}

impl<'a, A, B, Renderer, O, F> Overlay<B, Renderer> for Mapped<'a, A, B, Renderer, O, F> where
    Renderer: crate::renderer::Renderer,
    O: Overlay<A, Renderer>,
    F: Fn(A) -> B + ?Sized,
 {
    /// The layouts of the adapter are those of its content.
    open spec fn lays_out(
        &self,
        renderer: &Renderer,
        bounds: Size,
        position: Point,
        node: Node,
    ) -> bool {
        self.content().lays_out(renderer, bounds, position, node)
    }

    /// The adapter responds as its content does, but for the messages: the
    /// content's messages are `originals`, and what is emitted is what the
    /// function returned for each of them, in their order. The function
    /// stays.
    open spec fn responds(
        &self,
        event: Event,
        layout: Layout<'_>,
        cursor_position: Point,
        renderer: &Renderer,
        clipboard: Option<&dyn Clipboard>,
        after: Self,
        emitted: Seq<B>,
        interaction: EventInteraction,
    ) -> bool {
        &&& after.mapper() == self.mapper()
        &&& exists|originals: Seq<A>| #[trigger]
            self.content().responds(
                event, layout, cursor_position, renderer, clipboard, after.content(),
                originals, interaction,
            ) && transforms(self.mapper(), originals, emitted)
    }

    /// The adapter draws as its content does.
    open spec fn draws(
        &self,
        before: Renderer,
        defaults: &Renderer::Defaults,
        layout: Layout<'_>,
        cursor_position: Point,
        after: Renderer,
        output: Renderer::Output,
    ) -> bool {
        self.content().draws(before, defaults, layout, cursor_position, after, output)
    }

    /// The fingerprint of the adapter is that of its content.
    open spec fn layout_fingerprint(&self, position: Point) -> Seq<Seq<u8>> {
        self.content().layout_fingerprint(position)
    }

    /// Lays out the content, with the arguments as they came.
    fn layout(&self, renderer: &Renderer, bounds: Size, position: Point) -> (node: Node)
        ensures
            self.content().lays_out(renderer, bounds, position, node),
    {
        self.content.layout(renderer, bounds, position)
    }

    /// Offers the event to the content, which speaks into a buffer of its
    /// own; then moves each message out of the buffer, front to back,
    /// through the function and to the end of `messages`. The answer is the
    /// content's.
    fn on_event(
        &mut self,
        event: Event,
        layout: Layout<'_>,
        cursor_position: Point,
        messages: &mut Vec<B>,
        renderer: &Renderer,
        clipboard: Option<&dyn Clipboard>,
    ) -> (interaction: EventInteraction)
        ensures
            final(self).mapper() == old(self).mapper(),
            exists|originals: Seq<A>| #[trigger]
                old(self).content().responds(
                    event, layout, cursor_position, renderer, clipboard,
                    final(self).content(), originals, interaction,
                ) && transforms(
                    old(self).mapper(),
                    originals,
                    final(messages)@.skip(old(messages)@.len() as int),
                ),
    {
        let mut original_messages: Vec<A> = Vec::new();

        let interaction = self.content.on_event(
            event, layout, cursor_position, &mut original_messages, renderer, clipboard,
        );

        let ghost originals = original_messages@;
        let ghost before = messages@;
        let ghost function = self.mapper.function;
        assert(originals.skip(0) =~= originals);
        for message in drained: original_messages.into_iter()
            invariant
                self.mapper.function == function,
                drained.seq() == originals,
                before.len() <= messages@.len(),
                forall|i: int| 0 <= i < before.len() ==> messages@[i] == before[i],
                transforms(
                    function,
                    originals.take(drained.index() as int),
                    messages@.skip(before.len() as int),
                ),
        {
            let ghost done = drained.index() as int;
            let ghost said = messages@.skip(before.len() as int);
            let mapped = self.mapper.apply(message);
            messages.push(mapped);
            proof {
                let now = messages@.skip(before.len() as int);
                assert(now =~= said.push(mapped));
                assert(originals.take(done + 1) =~= originals.take(done).push(message));
                assert forall|i: int| 0 <= i < done + 1 implies call_ensures(
                    function,
                    (originals.take(done + 1)[i],),
                    #[trigger] now[i],
                ) by {
                    if i < done {
                        assert(now[i] == said[i]);
                        assert(originals.take(done + 1)[i] == originals.take(done)[i]);
                    }
                }
            }
        }
        proof {
            assert(originals.take(originals.len() as int) =~= originals);
            assert(old(self).content().responds(
                event, layout, cursor_position, renderer, clipboard, self.content(), originals,
                interaction,
            ));
        }

        interaction
    }

    /// Draws the content, with the arguments as they came.
    fn draw(
        &self,
        renderer: &mut Renderer,
        defaults: &Renderer::Defaults,
        layout: Layout<'_>,
        cursor_position: Point,
    ) -> (output: Renderer::Output)
        ensures
            self.content().draws(
                *old(renderer), defaults, layout, cursor_position, *final(renderer), output,
            ),
    {
        self.content.draw(renderer, defaults, layout, cursor_position)
    }

    /// Lets the content write its fingerprint, at the anchor as it came.
    fn hash_layout(&self, state: &mut Hasher, position: Point)
        ensures
            final(state)@ == old(state)@ + self.content().layout_fingerprint(position),
    {
        self.content.hash_layout(state, position);
    }
}

/// A translated element lies where the sum says, and holds the overlay it
/// held.
pub proof fn lemma_translated<Message, Renderer, O>(
    element: Element<Message, Renderer, O>,
    translation: Vector,
) where Renderer: crate::renderer::Renderer, O: Overlay<Message, Renderer>
    ensures
        element.translated(translation).position() == element.position().moved_by(translation),
        element.translated(translation).overlay() == element.overlay(),
{
}

/// Translating an element by one vector and then by another gives the
/// element that translating it once by the sum of the two gives, as long as
/// every sum on the way fits in the coordinates.
pub proof fn lemma_translate_composes<Message, Renderer, O>(
    element: Element<Message, Renderer, O>,
    first: Vector,
    second: Vector,
) where Renderer: crate::renderer::Renderer, O: Overlay<Message, Renderer>
    requires
        element.position().reaches(first),
        element.position().moved_by(first).reaches(second),
        first.adds_to(second),
    ensures
        element.position().reaches(first.plus(second)),
        element.translated(first).translated(second) == element.translated(first.plus(second)),
        element.translated(first).translated(second).position() == element.translated(
            first.plus(second),
        ).position(),
{
    crate::geometry::lemma_moves_compose(element.position(), first, second);
}

/// A mapped element is anchored where the element was, and holds the
/// element's overlay and the function.
pub proof fn lemma_mapped<'a, Message, B, Renderer, O, F>(
    element: Element<Message, Renderer, O>,
    f: &'a F,
) where
    Renderer: crate::renderer::Renderer,
    O: Overlay<Message, Renderer>,
    F: Fn(Message) -> B + ?Sized,

    ensures
        element.mapped(f).position() == element.position(),
        element.mapped(f).overlay().content() == element.overlay(),
        element.mapped(f).overlay().mapper() == f,
{
}

/// Mapping loses no message, adds none and moves none: a mapped element
/// responds to an event with the messages `emitted` and the answer
/// `interaction` exactly when the element itself responds to that event
/// with that answer and with messages `originals`, of which `emitted` holds,
/// one for one and in their order, what the function returned. What is left
/// behind is what the element leaves behind, mapped by the same function.
pub proof fn lemma_map_hands_messages_through<'a, Message, B, Renderer, O, F>(
    element: Element<Message, Renderer, O>,
    f: &'a F,
    event: Event,
    layout: Layout<'_>,
    cursor_position: Point,
    renderer: &Renderer,
    clipboard: Option<&dyn Clipboard>,
    after: Element<B, Renderer, Mapped<'a, Message, B, Renderer, O, F>>,
    emitted: Seq<B>,
    interaction: EventInteraction,
) where
    Renderer: crate::renderer::Renderer,
    O: Overlay<Message, Renderer>,
    F: Fn(Message) -> B + ?Sized,

    ensures
        element.mapped(f).responds(
            event, layout, cursor_position, renderer, clipboard, after, emitted, interaction,
        ) <==> exists|left: Element<Message, Renderer, O>, originals: Seq<Message>|
            after == left.mapped(f) && #[trigger] element.responds(
                event, layout, cursor_position, renderer, clipboard, left, originals, interaction,
            ) && transforms(f, originals, emitted),
{
    let mapped = element.mapped(f);
    if mapped.responds(
        event, layout, cursor_position, renderer, clipboard, after, emitted, interaction,
    ) {
        let originals = choose|originals: Seq<Message>| #[trigger]
            mapped.overlay().content().responds(
                event, layout, cursor_position, renderer, clipboard,
                after.overlay().content(), originals, interaction,
            ) && transforms(mapped.overlay().mapper(), originals, emitted);
        let left = Element::<Message, Renderer, O> {
            position: after.position,
            overlay: after.overlay.content,
            marker: PhantomData,
        };
        assert(after == left.mapped(f));
        assert(element.responds(
            event, layout, cursor_position, renderer, clipboard, left, originals, interaction,
        ));
    }
    if exists|left: Element<Message, Renderer, O>, originals: Seq<Message>|
        after == left.mapped(f) && #[trigger] element.responds(
            event, layout, cursor_position, renderer, clipboard, left, originals, interaction,
        ) && transforms(f, originals, emitted) {
        let (left, originals) = choose|left: Element<Message, Renderer, O>, originals: Seq<Message>|
            after == left.mapped(f) && #[trigger] element.responds(
                event, layout, cursor_position, renderer, clipboard, left, originals, interaction,
            ) && transforms(f, originals, emitted);
        assert(mapped.overlay().content().responds(
            event, layout, cursor_position, renderer, clipboard,
            after.overlay().content(), originals, interaction,
        ));
    }
}

/// Mapping leaves the answer alone: whatever a mapped element answers to an
/// event, the element itself answers to that event.
pub proof fn lemma_map_keeps_interaction<'a, Message, B, Renderer, O, F>(
    element: Element<Message, Renderer, O>,
    f: &'a F,
    event: Event,
    layout: Layout<'_>,
    cursor_position: Point,
    renderer: &Renderer,
    clipboard: Option<&dyn Clipboard>,
    after: Element<B, Renderer, Mapped<'a, Message, B, Renderer, O, F>>,
    emitted: Seq<B>,
    interaction: EventInteraction,
) where
    Renderer: crate::renderer::Renderer,
    O: Overlay<Message, Renderer>,
    F: Fn(Message) -> B + ?Sized,

    requires
        element.mapped(f).responds(
            event, layout, cursor_position, renderer, clipboard, after, emitted, interaction,
        ),
    ensures
        exists|left: Element<Message, Renderer, O>, originals: Seq<Message>| #[trigger]
            element.responds(
                event, layout, cursor_position, renderer, clipboard, left, originals, interaction,
            ),
{
    lemma_map_hands_messages_through(
        element, f, event, layout, cursor_position, renderer, clipboard, after, emitted,
        interaction,
    );
}

/// Mapping changes nothing of the layout: a mapped element has the layouts
/// and the fingerprint of the element itself.
pub proof fn lemma_map_is_layout_transparent<'a, Message, B, Renderer, O, F>(
    element: Element<Message, Renderer, O>,
    f: &'a F,
    renderer: &Renderer,
    bounds: Size,
    node: Node,
) where
    Renderer: crate::renderer::Renderer,
    O: Overlay<Message, Renderer>,
    F: Fn(Message) -> B + ?Sized,

    ensures
        element.mapped(f).lays_out(renderer, bounds, node)
            == element.lays_out(renderer, bounds, node),
        element.mapped(f).layout_fingerprint() == element.layout_fingerprint(),
{
}

/// Mapping changes nothing of the drawing: a mapped element draws as the
/// element itself does.
pub proof fn lemma_map_is_drawing_transparent<'a, Message, B, Renderer, O, F>(
    element: Element<Message, Renderer, O>,
    f: &'a F,
    before: Renderer,
    defaults: &Renderer::Defaults,
    layout: Layout<'_>,
    cursor_position: Point,
    after: Renderer,
    output: Renderer::Output,
) where
    Renderer: crate::renderer::Renderer,
    O: Overlay<Message, Renderer>,
    F: Fn(Message) -> B + ?Sized,

    ensures
        element.mapped(f).draws(before, defaults, layout, cursor_position, after, output)
            == element.draws(before, defaults, layout, cursor_position, after, output),
{
}

/// Mapping twice is mapping once by the composed function.
///
/// Take an element mapped by `first` and then by `second`, and the same
/// element mapped by `composed`. Where `composed` returns all that `second`
/// returns for what `first` returns, every response of the first to an
/// event is a response of the second to it: the same messages and the same
/// answer, and what the two leave behind is one element, mapped the one way
/// and the other, of which all this holds again. Where `composed` returns
/// only what `second` returns for what `first` returns, the converse holds.
/// That the two are laid out, drawn and fingerprinted alike is
/// [`lemma_double_mapping_shows_alike`].
pub proof fn lemma_double_mapping_composes<'a, Message, B, C, Renderer, O, F, G, K>(
    element: Element<Message, Renderer, O>,
    first: &'a F,
    second: &'a G,
    composed: &'a K,
    event: Event,
    layout: Layout<'_>,
    cursor_position: Point,
    renderer: &Renderer,
    clipboard: Option<&dyn Clipboard>,
    after_twice: Element<
        C,
        Renderer,
        Mapped<'a, B, C, Renderer, Mapped<'a, Message, B, Renderer, O, F>, G>,
    >,
    after_once: Element<C, Renderer, Mapped<'a, Message, C, Renderer, O, K>>,
    emitted: Seq<C>,
    interaction: EventInteraction,
) where
    Renderer: crate::renderer::Renderer,
    O: Overlay<Message, Renderer>,
    F: Fn(Message) -> B + ?Sized,
    G: Fn(B) -> C + ?Sized,
    K: Fn(Message) -> C + ?Sized,

    ensures
        covers_composition(composed, first, second) && element.mapped(first).mapped(
            second,
        ).responds(
            event, layout, cursor_position, renderer, clipboard, after_twice, emitted,
            interaction,
        ) ==> exists|left: Element<Message, Renderer, O>|
            after_twice == left.mapped(first).mapped(second) && #[trigger] element.mapped(
                composed,
            ).responds(
                event, layout, cursor_position, renderer, clipboard,
                left.mapped(composed), emitted, interaction,
            ),
        within_composition(composed, first, second) && element.mapped(composed).responds(
            event, layout, cursor_position, renderer, clipboard, after_once, emitted,
            interaction,
        ) ==> exists|left: Element<Message, Renderer, O>|
            after_once == left.mapped(composed) && #[trigger] element.mapped(first).mapped(
                second,
            ).responds(
                event, layout, cursor_position, renderer, clipboard,
                left.mapped(first).mapped(second), emitted, interaction,
            ),
{
    let once = element.mapped(first);
    let twice = once.mapped(second);
    let single = element.mapped(composed);
    if covers_composition(composed, first, second) && twice.responds(
        event, layout, cursor_position, renderer, clipboard, after_twice, emitted, interaction,
    ) {
        let mids = choose|mids: Seq<B>| #[trigger]
            once.overlay().responds(
                event, layout, cursor_position, renderer, clipboard,
                after_twice.overlay().content(), mids, interaction,
            ) && transforms(second, mids, emitted);
        let originals = choose|originals: Seq<Message>| #[trigger]
            element.overlay().responds(
                event, layout, cursor_position, renderer, clipboard,
                after_twice.overlay().content().content(), originals, interaction,
            ) && transforms(first, originals, mids);
        let left = Element::<Message, Renderer, O> {
            position: after_twice.position,
            overlay: after_twice.overlay.content.content,
            marker: PhantomData,
        };
        assert(after_twice == left.mapped(first).mapped(second));
        assert forall|i: int| 0 <= i < originals.len() implies call_ensures(
            composed,
            (originals[i],),
            #[trigger] emitted[i],
        ) by {
            assert(call_ensures(first, (originals[i],), mids[i]));
            assert(call_ensures(second, (mids[i],), emitted[i]));
        }
        assert(single.overlay().content().responds(
            event, layout, cursor_position, renderer, clipboard,
            left.mapped(composed).overlay().content(), originals, interaction,
        ));
        assert(single.responds(
            event, layout, cursor_position, renderer, clipboard,
            left.mapped(composed), emitted, interaction,
        ));
    }
    if within_composition(composed, first, second) && single.responds(
        event, layout, cursor_position, renderer, clipboard, after_once, emitted, interaction,
    ) {
        let originals = choose|originals: Seq<Message>| #[trigger]
            element.overlay().responds(
                event, layout, cursor_position, renderer, clipboard,
                after_once.overlay().content(), originals, interaction,
            ) && transforms(composed, originals, emitted);
        let left = Element::<Message, Renderer, O> {
            position: after_once.position,
            overlay: after_once.overlay.content,
            marker: PhantomData,
        };
        assert(after_once == left.mapped(composed));
        let mids = Seq::new(
            originals.len(),
            |i: int|
                choose|b: B|
                    call_ensures(first, (originals[i],), b)
                        && call_ensures(second, (b,), emitted[i]),
        );
        assert forall|i: int| 0 <= i < originals.len() implies call_ensures(
            first,
            (originals[i],),
            #[trigger] mids[i],
        ) && call_ensures(second, (mids[i],), emitted[i]) by {
            assert(call_ensures(composed, (originals[i],), emitted[i]));
        }
        assert(transforms(first, originals, mids));
        assert(transforms(second, mids, emitted));
        assert(once.overlay().content().responds(
            event, layout, cursor_position, renderer, clipboard,
            left.mapped(first).overlay().content(), originals, interaction,
        ));
        assert(twice.overlay().content().responds(
            event, layout, cursor_position, renderer, clipboard,
            left.mapped(first).mapped(second).overlay().content(), mids, interaction,
        ));
        assert(twice.responds(
            event, layout, cursor_position, renderer, clipboard,
            left.mapped(first).mapped(second), emitted, interaction,
        ));
    }
}

/// Mapping twice and mapping once show alike, whatever the functions are:
/// an element mapped by `first` and then by `second` has the layouts, the
/// fingerprint and the drawings of the same element mapped by `composed`.
pub proof fn lemma_double_mapping_shows_alike<'a, Message, B, C, Renderer, O, F, G, K>(
    element: Element<Message, Renderer, O>,
    first: &'a F,
    second: &'a G,
    composed: &'a K,
    renderer: &Renderer,
    bounds: Size,
    node: Node,
    before: Renderer,
    defaults: &Renderer::Defaults,
    layout: Layout<'_>,
    cursor_position: Point,
    after: Renderer,
    output: Renderer::Output,
) where
    Renderer: crate::renderer::Renderer,
    O: Overlay<Message, Renderer>,
    F: Fn(Message) -> B + ?Sized,
    G: Fn(B) -> C + ?Sized,
    K: Fn(Message) -> C + ?Sized,

    ensures
        element.mapped(first).mapped(second).lays_out(renderer, bounds, node)
            == element.mapped(composed).lays_out(renderer, bounds, node),
        element.mapped(first).mapped(second).layout_fingerprint()
            == element.mapped(composed).layout_fingerprint(),
        element.mapped(first).mapped(second).draws(
            before, defaults, layout, cursor_position, after, output,
        ) == element.mapped(composed).draws(
            before, defaults, layout, cursor_position, after, output,
        ),
{
}

/// Writing the fingerprint twice writes the same twice: if `second` is what
/// a sink that held `first` holds after the element wrote its fingerprint,
/// and `third` what it holds after the element wrote it once more, then what
/// came in by the first writing equals what came in by the second.
pub proof fn lemma_hash_layout_is_stable<Message, Renderer, O>(
    element: Element<Message, Renderer, O>,
    first: Seq<Seq<u8>>,
    second: Seq<Seq<u8>>,
    third: Seq<Seq<u8>>,
) where Renderer: crate::renderer::Renderer, O: Overlay<Message, Renderer>
    requires
        second == first + element.layout_fingerprint(),
        third == second + element.layout_fingerprint(),
    ensures
        second.skip(first.len() as int) == third.skip(second.len() as int),
        second.skip(first.len() as int) == element.layout_fingerprint(),
{
    assert(second.skip(first.len() as int) =~= element.layout_fingerprint());
    assert(third.skip(second.len() as int) =~= element.layout_fingerprint());
}

} // verus!
