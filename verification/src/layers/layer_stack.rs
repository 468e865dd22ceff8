use vstd::prelude::*;
use crate::events::event::Event;
use crate::events::event_box::EventBox;
use crate::events::event_listener::{called, delivered, Notification};
use crate::layers::layer::{attach_called, detach_called, Layer};

verus! {

/// The place of one layer in a stack. It holds the layer from the moment the
/// layer is attached. A layer that is still here when the place goes away is
/// detached then, so no attached layer is ever dropped without its hook.
struct Slot<L: Layer> {
    layer: Option<L>,
}

impl<L: Layer> Drop for Slot<L> {
    fn drop(&mut self)
        opens_invariants none
        no_unwind
    {
        match &mut self.layer {
            Some(layer) => layer.on_detach(),
            None => {},
        }
    }
}

/// Whether `i` is a place in a stack of `len` layers, counted from the front.
pub open spec fn place(i: int, len: nat) -> bool {
    0 <= i < len
}

/// Whether the layer at the place `i` is asked when a call is offered to a
/// stack and the layer at `consumer` consumes it: the layers are asked from
/// the back, so those in front of the consumer are not.
pub open spec fn asked(consumer: Option<usize>, i: int) -> bool {
    match consumer {
        Some(k) => k <= i,
        None => true,
    }
}

/// What the layer at the place `i` answers when it is asked: `true` for the
/// consumer and `false` for every other layer.
pub open spec fn answer(consumer: Option<usize>, i: int) -> bool {
    match consumer {
        Some(k) => k == i,
        None => false,
    }
}

/// What offering `call` to a stack does to its layers. The layers are asked
/// from the back of the stack to the front, and the first one that consumes
/// the call ends the round.
///
/// `before` and `after` are the stack in its forward order. With
/// `consumer == Some(k)` the layer at `k` reacted to the call and consumed
/// it: those behind it were asked before and declined, those in front of it
/// were not asked and are as they were. With `None` every layer was asked and
/// none consumed the call.
pub open spec fn propagated<L: Layer>(
    before: Seq<L>,
    call: Notification,
    after: Seq<L>,
    consumer: Option<usize>,
) -> bool {
    &&& after.len() == before.len()
    &&& match consumer {
        Some(k) => {
            &&& k < before.len()
            &&& call.consumable()
            &&& before[k as int].reacts(call, &after[k as int], true)
            &&& forall|i: int|
                k < i < before.len() ==> delivered(before[i], call, #[trigger] after[i], false)
            &&& forall|i: int| 0 <= i < k ==> #[trigger] after[i] == before[i]
        },
        None => forall|i: int|
            0 <= i < before.len() ==> delivered(before[i], call, #[trigger] after[i], false),
    }
}

/// What making the call `call` on every layer of a stack does to its layers,
/// where nobody can consume the call.
pub open spec fn broadcast_to<L: Layer>(before: Seq<L>, call: Notification, after: Seq<L>) -> bool {
    &&& after.len() == before.len()
    &&& forall|i: int|
        0 <= i < before.len() ==> delivered(before[i], call, #[trigger] after[i], false)
}

/// At most one layer handles a call: of the layers that are asked only the
/// consumer answers `true`, and once it has, no layer in front of it is
/// asked at all.
pub proof fn lemma_at_most_one_handler(consumer: Option<usize>, i: int, j: int)
    ensures
        asked(consumer, i) && answer(consumer, i) && asked(consumer, j) && answer(consumer, j)
            ==> i == j,
        answer(consumer, i) ==> consumer == Some(i as usize),
        consumer matches Some(k) && i < k ==> !asked(consumer, i),
{
}

/// A layer that consumes a call ends the round: the layers in front of it
/// are not asked, and are as they were.
pub proof fn lemma_consumed_call_stops<L: Layer>(
    before: Seq<L>,
    call: Notification,
    after: Seq<L>,
    k: usize,
    i: int,
)
    requires
        propagated(before, call, after, Some(k)),
        0 <= i < k,
    ensures
        after[i] == before[i],
        call.consumable(),
{
}

/// A call that nobody can consume reaches every layer of the stack, whatever
/// the layers do about other calls.
pub proof fn lemma_lifecycle_reaches_all<L: Layer>(
    before: Seq<L>,
    call: Notification,
    after: Seq<L>,
    consumer: Option<usize>,
)
    requires
        propagated(before, call, after, consumer),
        !call.consumable(),
    ensures
        consumer is None,
        broadcast_to(before, call, after),
{
}

/// One push on a stack: of a layer proper or of an overlay. The value is the
/// layer as it is once its attach hook has run.
pub enum Push<L> {
    Layer(L),
    Overlay(L),
}

/// The stack that `pushes` build on an empty stack, from front to back. A
/// layer goes in front of everything, an overlay behind everything.
pub open spec fn built<L>(pushes: Seq<Push<L>>) -> Seq<L>
    decreases pushes.len(),
{
    if pushes.len() == 0 {
        Seq::empty()
    } else {
        match pushes.last() {
            Push::Layer(layer) => built(pushes.drop_last()).insert(0, layer),
            Push::Overlay(layer) => built(pushes.drop_last()).push(layer),
        }
    }
}

/// The layers proper among `pushes`, in the order in which they were pushed.
pub open spec fn layers_pushed<L>(pushes: Seq<Push<L>>) -> Seq<L>
    decreases pushes.len(),
{
    if pushes.len() == 0 {
        Seq::empty()
    } else {
        match pushes.last() {
            Push::Layer(layer) => layers_pushed(pushes.drop_last()).push(layer),
            Push::Overlay(_) => layers_pushed(pushes.drop_last()),
        }
    }
}

/// The overlays among `pushes`, in the order in which they were pushed.
pub open spec fn overlays_pushed<L>(pushes: Seq<Push<L>>) -> Seq<L>
    decreases pushes.len(),
{
    if pushes.len() == 0 {
        Seq::empty()
    } else {
        match pushes.last() {
            Push::Layer(_) => overlays_pushed(pushes.drop_last()),
            Push::Overlay(layer) => overlays_pushed(pushes.drop_last()).push(layer),
        }
    }
}

/// However pushes of layers and of overlays are mixed, the stack holds the
/// layers in front of the overlays, the layers from the last pushed to the
/// first, the overlays from the first pushed to the last. This is the order
/// of updating and rendering; events go through the stack in the reverse of
/// it, the last overlay first and the last layer last.
pub proof fn lemma_insertion_order<L>(pushes: Seq<Push<L>>)
    ensures
        built(pushes) == layers_pushed(pushes).reverse() + overlays_pushed(pushes),
        built(pushes).reverse() == overlays_pushed(pushes).reverse() + layers_pushed(pushes),
    decreases pushes.len(),
{
    let layers = layers_pushed(pushes);
    let overlays = overlays_pushed(pushes);
    if pushes.len() == 0 {
        assert(built(pushes) =~= layers.reverse() + overlays);
    } else {
        let earlier = pushes.drop_last();
        lemma_insertion_order(earlier);
        match pushes.last() {
            Push::Layer(layer) => {
                assert(layers.reverse() =~= layers_pushed(earlier).reverse().insert(0, layer));
                assert(built(pushes) =~= layers.reverse() + overlays);
            },
            Push::Overlay(layer) => {
                assert(built(pushes) =~= layers.reverse() + overlays);
            },
        }
    }
    assert(built(pushes).reverse() =~= overlays.reverse() + layers);
}

/// With at most one layer proper among the pushes, the stack holds its
/// members in the order in which they were pushed, layers before overlays,
/// and events go through it in the reverse of that order. So a layer `a`
/// and then the overlays `c` and `d` are updated in the order `a`, `c`, `d`
/// and asked in the order `d`, `c`, `a`.
pub proof fn lemma_insertion_order_of_one_layer<L>(pushes: Seq<Push<L>>)
    requires
        layers_pushed(pushes).len() <= 1,
    ensures
        built(pushes) == layers_pushed(pushes) + overlays_pushed(pushes),
        built(pushes).reverse() == overlays_pushed(pushes).reverse() + layers_pushed(
            pushes,
        ).reverse(),
{
    lemma_insertion_order(pushes);
    assert(layers_pushed(pushes).reverse() =~= layers_pushed(pushes));
}

/// Every layer of a stack is detached exactly once: the one that is popped,
/// when it is popped, and each of the others when the stack ends. Here
/// `removed` is what `pop_layer` took from the stack `before`, and `detached`
/// is what `teardown` returned for the rest, `before.remove(0)`.
pub proof fn lemma_detached_once<L: Layer>(
    before: Seq<L>,
    removed: L,
    detached: Seq<L>,
    i: int,
)
    requires
        before.len() > 0,
        delivered(before[0], Notification::Detach, removed, false),
        detached.len() == before.remove(0).len(),
        forall|j: int|
            0 <= j < before.remove(0).len() ==> delivered(
                before.remove(0)[j],
                Notification::Detach,
                #[trigger] detached[j],
                false,
            ),
        0 <= i < before.len(),
    ensures
        detached.len() + 1 == before.len(),
        i == 0 ==> delivered(before[i], Notification::Detach, removed, false),
        i > 0 ==> delivered(before[i], Notification::Detach, detached[i - 1], false),
{
    if i > 0 {
        assert(before.remove(0)[i - 1] == before[i]);
    }
}

/// An ordered collection of layers, which it owns.
///
/// The stack has two regions. The layers proper stand in front, the most
/// recently pushed one first. The overlays stand behind all of them, the most
/// recently pushed one last.
pub struct LayerStack<L: Layer> {
    slots: Vec<Slot<L>>,
    layer_count: usize,
}

impl<L: Layer> View for LayerStack<L> {
    type V = Seq<L>;

    /// The layers and then the overlays, front to back.
    closed spec fn view(&self) -> Seq<L> {
        Seq::new(self.slots@.len(), |i: int| self.slots@[i].layer->0)
    }
}

impl<L: Layer> LayerStack<L> {
    /// The invariant of the stack: every place holds its layer, and the
    /// layers proper are a part of the whole.
    pub closed spec fn well_formed(&self) -> bool {
        &&& self.layer_count <= self.slots@.len()
        &&& forall|i: int| 0 <= i < self.slots@.len() ==> (#[trigger] self.slots@[i]).layer is Some
    }

    /// How many of the stack's members are layers proper. They are the first
    /// `layers()` members of the view; the overlays are the rest.
    pub closed spec fn layers(&self) -> nat {
        self.layer_count as nat
    }

    /// The layers proper never outnumber the stack.
    pub proof fn lemma_layers_within(&self)
        requires
            self.well_formed(),
        ensures
            self.layers() <= self@.len(),
    {
    }

    pub fn new() -> (stack: LayerStack<L>)
        ensures
            stack.well_formed(),
            stack@ == Seq::<L>::empty(),
            stack.layers() == 0,
    {
        let stack = LayerStack { slots: Vec::new(), layer_count: 0 };
        assert(stack@ =~= Seq::<L>::empty());
        stack
    }

    /// How many layers and overlays the stack holds.
    pub fn len(&self) -> (len: usize)
        ensures
            len == self@.len(),
    {
        self.slots.len()
    }

    /// How many of them are layers proper.
    pub fn layer_count(&self) -> (count: usize)
        ensures
            count == self.layers(),
    {
        self.layer_count
    }

    /// The layer at the place `index`, counted from the front.
    pub fn get(&self, index: usize) -> (layer: Option<&L>)
        requires
            self.well_formed(),
        ensures
            index >= self@.len() ==> layer is None,
            index < self@.len() ==> layer == Some(&self@[index as int]),
    {
        if index < self.slots.len() {
            self.slots[index].layer.as_ref()
        } else {
            None
        }
    }

    /// The layer at the place `index`, counted from the front, to work on.
    pub fn get_mut(&mut self, index: usize) -> (layer: Option<&mut L>)
        requires
            old(self).well_formed(),
        ensures
            final(self).well_formed(),
            final(self).layers() == old(self).layers(),
            index >= old(self)@.len() ==> layer is None && final(self)@ == old(self)@,
            index < old(self)@.len() ==> layer is Some && *layer->0 == old(self)@[index as int]
                && final(self)@ == old(self)@.update(index as int, *final(layer->0)),
    {
        if index < self.slots.len() {
            self.slots[index].layer.as_mut()
        } else {
            None
        }
    }

    /// Every layer of the stack, from the front to the back, to work on in
    /// place. What is done to the layers through the result is done to the
    /// stack.
    pub fn iter_mut(&mut self) -> (layers: Vec<&mut L>)
        requires
            old(self).well_formed(),
        ensures
            final(self).well_formed(),
            final(self).layers() == old(self).layers(),
            layers@.len() == old(self)@.len(),
            final(self)@.len() == old(self)@.len(),
            forall|i: int| 0 <= i < layers@.len() ==> *(#[trigger] layers@[i]) == old(self)@[i],
            forall|i: int|
                0 <= i < layers@.len() ==> final(self)@[i] == *final(#[trigger] layers@[i]),
    {
        let ghost start = self.slots@;
        let mut layers: Vec<&mut L> = Vec::new();
        let mut rest: &mut [Slot<L>] = self.slots.as_mut_slice();
        let ghost whole = final(rest)@;
        while rest.len() > 0
            invariant
                layers@.len() + rest@.len() == start.len(),
                old(self).layer_count <= start.len(),
                forall|i: int| 0 <= i < start.len() ==> (#[trigger] start[i]).layer is Some,
                forall|i: int|
                    0 <= i < layers@.len() ==> *(#[trigger] layers@[i]) == start[i].layer->0,
                forall|i: int| 0 <= i < rest@.len() ==> rest@[i] == start[layers@.len() + i],
                whole.len() == layers@.len() + final(rest)@.len(),
                forall|i: int|
                    0 <= i < layers@.len() ==> whole[i].layer == Some(
                        *final(#[trigger] layers@[i]),
                    ),
                forall|i: int|
                    0 <= i < final(rest)@.len() ==> whole[layers@.len() + i]
                        == #[trigger] final(rest)@[i],
            decreases rest@.len(),
        {
            let ghost done = layers@.len();
            let ghost pending = final(rest)@;
            let (head, tail) = rest.split_at_mut(1);
            assert(head@.len() == 1);
            assert(head@[0] == start[done as int]);
            match head.first_mut() {
                Some(slot) => match slot.layer.as_mut() {
                    Some(layer) => layers.push(layer),
                    None => {},
                },
                None => {},
            }
            rest = tail;
            proof {
                assert(pending =~= seq![pending[0]] + final(rest)@);
                assert(pending[0].layer == Some(*final(layers@[done as int])));
                assert forall|i: int| 0 <= i < final(rest)@.len() implies whole[layers@.len() + i]
                    == #[trigger] final(rest)@[i] by {
                    assert(pending[i + 1] == final(rest)@[i]);
                }
                assert forall|i: int| 0 <= i < layers@.len() implies whole[i].layer == Some(
                    *final(#[trigger] layers@[i]),
                ) by {
                    if i == done {
                        assert(whole[done as int + 0] == pending[0]);
                    }
                }
            }
        }
        proof {
            assert forall|i: int| 0 <= i < whole.len() implies (#[trigger] whole[i]).layer
                is Some by {
                assert(whole[i].layer == Some(*final(layers@[i])));
            }
        }
        layers
    }

    /// Attaches `layer` and puts it in front of the stack.
    pub fn push_layer(&mut self, layer: L)
        requires
            old(self).well_formed(),
        ensures
            final(self).well_formed(),
            final(self)@.len() == old(self)@.len() + 1,
            delivered(layer, Notification::Attach, final(self)@[0], false),
            exists|m: &mut L| *m == layer && *final(m) == final(self)@[0] && attach_called(m),
            final(self)@ == old(self)@.insert(0, final(self)@[0]),
            final(self).layers() == old(self).layers() + 1,
    {
        let mut layer = layer;
        layer.on_attach();
        self.slots.insert(0, Slot { layer: Some(layer) });
        // The length of a vector fits a `usize`, and the layers proper are
        // at most as many: asking for the length shows that the count below
        // cannot overflow.
        let _ = self.slots.len();
        self.layer_count = self.layer_count + 1;
        assert(self@ =~= old(self)@.insert(0, layer));
    }

    /// Attaches `layer` and puts it behind everything else in the stack.
    pub fn push_overlay(&mut self, layer: L)
        requires
            old(self).well_formed(),
        ensures
            final(self).well_formed(),
            final(self)@.len() == old(self)@.len() + 1,
            delivered(layer, Notification::Attach, final(self)@.last(), false),
            exists|m: &mut L| *m == layer && *final(m) == final(self)@.last() && attach_called(m),
            final(self)@ == old(self)@.push(final(self)@.last()),
            final(self).layers() == old(self).layers(),
    {
        let mut layer = layer;
        layer.on_attach();
        self.slots.push(Slot { layer: Some(layer) });
        assert(self@ =~= old(self)@.push(layer));
    }

    /// Takes the front-most layer out of the stack and detaches it. Where the
    /// stack has no layer proper, nothing happens, whatever overlays it has.
    pub fn pop_layer(&mut self) -> (removed: Option<L>)
        requires
            old(self).well_formed(),
        ensures
            final(self).well_formed(),
            match removed {
                Some(layer) => {
                    &&& old(self).layers() > 0
                    &&& delivered(old(self)@[0], Notification::Detach, layer, false)
                    &&& exists|m: &mut L|
                        *m == old(self)@[0] && *final(m) == layer && detach_called(m)
                    &&& final(self)@ == old(self)@.remove(0)
                    &&& final(self).layers() == old(self).layers() - 1
                },
                None => {
                    &&& old(self).layers() == 0
                    &&& final(self)@ == old(self)@
                    &&& final(self).layers() == 0
                },
            },
    {
        if self.layer_count == 0 {
            return None;
        }
        let mut slot = self.slots.remove(0);
        self.layer_count = self.layer_count - 1;
        assert(self@ =~= old(self)@.remove(0));
        let taken = slot.layer.take();
        match taken {
            Some(layer) => {
                let mut layer = layer;
                layer.on_detach();
                Some(layer)
            },
            None => None,
        }
    }

    /// Takes the back-most overlay out of the stack and detaches it. Where
    /// the stack has no overlay, nothing happens, whatever layers it has.
    pub fn pop_overlay(&mut self) -> (removed: Option<L>)
        requires
            old(self).well_formed(),
        ensures
            final(self).well_formed(),
            final(self).layers() == old(self).layers(),
            match removed {
                Some(layer) => {
                    &&& old(self).layers() < old(self)@.len()
                    &&& delivered(old(self)@.last(), Notification::Detach, layer, false)
                    &&& exists|m: &mut L|
                        *m == old(self)@.last() && *final(m) == layer && detach_called(m)
                    &&& final(self)@ == old(self)@.drop_last()
                },
                None => {
                    &&& old(self).layers() == old(self)@.len()
                    &&& final(self)@ == old(self)@
                },
            },
    {
        if self.layer_count >= self.slots.len() {
            return None;
        }
        let popped = self.slots.pop();
        assert(self@ =~= old(self)@.drop_last());
        match popped {
            Some(slot) => {
                let mut slot = slot;
                let taken = slot.layer.take();
                match taken {
                    Some(layer) => {
                        let mut layer = layer;
                        layer.on_detach();
                        Some(layer)
                    },
                    None => None,
                }
            },
            None => None,
        }
    }

    /// Offers `event` to the layers, from the back of the stack to the front:
    /// the overlays before the layers, each region from its back. After each
    /// layer the event is asked whether it is handled, and the first layer
    /// that consumes it ends the round. An event that nobody can consume
    /// reaches every layer.
    ///
    /// Returns the place of the layer that consumed the event, if one did.
    pub fn propagate(&mut self, event: &mut EventBox) -> (consumer: Option<usize>)
        requires
            old(self).well_formed(),
            !old(event).handled(),
        ensures
            final(self).well_formed(),
            final(self).layers() == old(self).layers(),
            final(event).notification() == old(event).notification(),
            final(event).handled() == consumer is Some,
            propagated(old(self)@, old(event).notification(), final(self)@, consumer),
            forall|i: int|
                #![trigger final(self)@[i]]
                #![trigger asked(consumer, i)]
                0 <= i < old(self)@.len() && asked(consumer, i) ==> delivered(
                    old(self)@[i],
                    old(event).notification(),
                    final(self)@[i],
                    answer(consumer, i),
                ) && exists|m: &mut L|
                    *m == old(self)@[i] && *final(m) == final(self)@[i] && called(
                        m,
                        old(event).notification(),
                        answer(consumer, i),
                    ),
    {
        let ghost call = event.notification();
        let mut i: usize = self.slots.len();
        while i > 0
            invariant
                i <= self.slots@.len(),
                self.slots@.len() == old(self).slots@.len(),
                self.layer_count == old(self).layer_count,
                self.well_formed(),
                !event.handled(),
                event.notification() == call,
                call == old(event).notification(),
                forall|j: int| 0 <= j < i ==> self.slots@[j] == old(self).slots@[j],
                forall|j: int|
                    i <= j < self.slots@.len() ==> delivered(
                        old(self).slots@[j].layer->0,
                        call,
                        (#[trigger] self.slots@[j]).layer->0,
                        false,
                    ) && exists|m: &mut L|
                        *m == old(self).slots@[j].layer->0 && *final(m) == self.slots@[j].layer->0
                            && called(m, call, false),
            decreases i,
        {
            i = i - 1;
            match &mut self.slots[i].layer {
                Some(layer) => event.dispatch(layer),
                None => {},
            }
            let handled = event.is_handled();
            if handled {
                proof {
                    event.lemma_handled_is_consumable();
                    assert(final(self)@ == self@);
                    assert(self.slots@[i as int].layer->0 == self@[i as int]);
                    assert(old(self).slots@[i as int].layer->0 == old(self)@[i as int]);
                    assert forall|j: int| 0 <= j < i implies #[trigger] self@[j] == old(self)@[j] by {
                        assert(self.slots@[j] == old(self).slots@[j]);
                    }
                    assert forall|j: int| i < j < old(self)@.len() implies delivered(
                        old(self)@[j],
                        call,
                        #[trigger] self@[j],
                        false,
                    ) by {
                        assert(self.slots@[j].layer->0 == self@[j]);
                    }
                    assert forall|j: int|
                        #![trigger final(self)@[j]]
                        #![trigger asked(Some(i), j)]
                        0 <= j < old(self)@.len() && asked(Some(i), j) implies delivered(
                        old(self)@[j],
                        old(event).notification(),
                        final(self)@[j],
                        answer(Some(i), j),
                    ) && exists|m: &mut L|
                        *m == old(self)@[j] && *final(m) == final(self)@[j] && called(
                            m,
                            old(event).notification(),
                            answer(Some(i), j),
                        ) by {
                        assert(self.slots@[j].layer->0 == self@[j]);
                        assert(old(self).slots@[j].layer->0 == old(self)@[j]);
                    }
                }
                return Some(i);
            }
        }
        proof {
            assert(final(self)@ == self@);
            assert forall|j: int|
                #![trigger final(self)@[j]]
                #![trigger asked(None, j)]
                0 <= j < old(self)@.len() && asked(None, j) implies delivered(
                old(self)@[j],
                old(event).notification(),
                final(self)@[j],
                answer(None, j),
            ) && exists|m: &mut L|
                *m == old(self)@[j] && *final(m) == final(self)@[j] && called(
                    m,
                    old(event).notification(),
                    answer(None, j),
                ) by {
                assert(self.slots@[j].layer->0 == self@[j]);
                assert(old(self).slots@[j].layer->0 == old(self)@[j]);
            }
        }
        None
    }

    /// Makes the call that `event` stands for on every layer, from the front
    /// of the stack to the back: the layers before the overlays. This is for
    /// the events that nobody can consume.
    pub fn broadcast(&mut self, event: &mut EventBox)
        requires
            old(self).well_formed(),
            !old(event).notification().consumable(),
        ensures
            final(self).well_formed(),
            final(self).layers() == old(self).layers(),
            *final(event) == *old(event),
            broadcast_to(old(self)@, old(event).notification(), final(self)@),
            forall|i: int|
                #![trigger final(self)@[i]]
                #![trigger place(i, old(self)@.len())]
                place(i, old(self)@.len()) ==> delivered(
                    old(self)@[i],
                    old(event).notification(),
                    final(self)@[i],
                    false,
                ) && exists|m: &mut L|
                    *m == old(self)@[i] && *final(m) == final(self)@[i] && called(
                        m,
                        old(event).notification(),
                        false,
                    ),
    {
        let ghost call = event.notification();
        let len = self.slots.len();
        let mut i: usize = 0;
        proof {
            event.lemma_handled_is_consumable();
        }
        while i < len
            invariant
                i <= len,
                len == self.slots@.len(),
                self.slots@.len() == old(self).slots@.len(),
                self.layer_count == old(self).layer_count,
                self.well_formed(),
                *event == *old(event),
                !event.handled(),
                event.notification() == call,
                call == old(event).notification(),
                !call.consumable(),
                forall|j: int| i <= j < len ==> self.slots@[j] == old(self).slots@[j],
                forall|j: int|
                    0 <= j < i ==> delivered(
                        old(self).slots@[j].layer->0,
                        call,
                        (#[trigger] self.slots@[j]).layer->0,
                        false,
                    ) && exists|m: &mut L|
                        *m == old(self).slots@[j].layer->0 && *final(m) == self.slots@[j].layer->0
                            && called(m, call, false),
            decreases len - i,
        {
            match &mut self.slots[i].layer {
                Some(layer) => event.dispatch(layer),
                None => {},
            }
            i = i + 1;
        }
        proof {
            assert(final(self)@ == self@);
            assert forall|j: int|
                #![trigger final(self)@[j]]
                #![trigger place(j, old(self)@.len())]
                place(j, old(self)@.len()) implies delivered(
                old(self)@[j],
                old(event).notification(),
                final(self)@[j],
                false,
            ) && exists|m: &mut L|
                *m == old(self)@[j] && *final(m) == final(self)@[j] && called(
                    m,
                    old(event).notification(),
                    false,
                ) by {
                assert(self.slots@[j].layer->0 == self@[j]);
                assert(old(self).slots@[j].layer->0 == old(self)@[j]);
            }
        }
    }

    /// Ends the stack: detaches every layer that is left, from the front of
    /// the stack to the back, and hands the layers over in that order.
    ///
    /// A stack that is dropped without this call detaches its layers in the
    /// same way, each exactly once, as its places go away.
    pub fn teardown(self) -> (detached: Vec<L>)
        requires
            self.well_formed(),
        ensures
            detached@.len() == self@.len(),
            forall|i: int|
                #![trigger detached@[i]]
                #![trigger place(i, self@.len())]
                place(i, self@.len()) ==> delivered(
                    self@[i],
                    Notification::Detach,
                    detached@[i],
                    false,
                ) && exists|m: &mut L|
                    *m == self@[i] && *final(m) == detached@[i] && detach_called(m),
    {
        let mut stack = self;
        let mut detached: Vec<L> = Vec::new();
        let len = stack.slots.len();
        let mut i: usize = 0;
        while i < len
            invariant
                i <= len,
                len == stack.slots@.len(),
                len == self.slots@.len(),
                detached@.len() == i,
                forall|j: int| i <= j < len ==> stack.slots@[j] == self.slots@[j],
                forall|j: int| i <= j < len ==> (#[trigger] self.slots@[j]).layer is Some,
                forall|j: int|
                    0 <= j < i ==> delivered(
                        self.slots@[j].layer->0,
                        Notification::Detach,
                        #[trigger] detached@[j],
                        false,
                    ) && exists|m: &mut L|
                        *m == self.slots@[j].layer->0 && *final(m) == detached@[j]
                            && detach_called(m),
            decreases len - i,
        {
            let taken = stack.slots[i].layer.take();
            match taken {
                Some(layer) => {
                    let mut layer = layer;
                    layer.on_detach();
                    detached.push(layer);
                },
                None => {},
            }
            i = i + 1;
        }
        proof {
            assert forall|j: int|
                #![trigger detached@[j]]
                #![trigger place(j, self@.len())]
                place(j, self@.len()) implies delivered(
                self@[j],
                Notification::Detach,
                detached@[j],
                false,
            ) && exists|m: &mut L|
                *m == self@[j] && *final(m) == detached@[j] && detach_called(m) by {
                assert(self.slots@[j].layer->0 == self@[j]);
            }
        }
        detached
    }
}

} // verus!
