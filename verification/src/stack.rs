//! The pipeline builder: ordered, decoupled composition of behavioral
//! layers around an inner handler.
//!
//! A builder is purely structural: pushing a layer yields a new builder
//! whose produced handler first passes through that layer and then into
//! everything pushed before it. `build` finalizes the order in which a
//! connection's handler is wrapped; no layer knows its neighbours.

use vstd::prelude::*;

verus! {

/// The behavioral layers this proxy composes around a handler.
#[derive(Clone, Copy, Debug, PartialEq, Eq, Structural)]
pub enum Layer {
    /// Bounds how long the upstream dial may take.
    ConnectTimeout,
    /// Refuses dials that would target the proxy's own port.
    LoopPrevention,
    /// Counts and times the connection for the shared metrics collaborator.
    Metrics,
    /// Registers the handler with the drain coordinator until it finishes.
    RetainOnDrain,
    /// Maps surfaced failures to terminal responses on the HTTP path.
    ErrorTranslation,
}

/// A builder for one branch's pipeline. `layers[0]` is the outermost
/// wrapping: the first thing a connection passes through.
#[derive(Clone, Debug)]
pub struct Stack {
    pub layers: Vec<Layer>,
}

/// The wrapping order that pushing `layer` onto a builder produces: the
/// new layer is the first thing a connection passes through.
pub open spec fn spec_push(s: Stack, layer: Layer) -> Seq<Layer> {
    seq![layer] + s.layers@
}

impl Stack {
    /// A builder around the bare inner handler factory, with nothing
    /// wrapped yet.
    pub fn new() -> (r: Stack)
        ensures
            r.layers@ == Seq::<Layer>::empty(),
    {
        Stack { layers: Vec::new() }
    }

    /// Wraps everything built so far in one more layer: the produced
    /// handler passes through `layer` first, then into the inner ones, in
    /// the order they were pushed.
    pub fn push(self, layer: Layer) -> (r: Stack)
        ensures
            r.layers@ == spec_push(self, layer),
    {
        let mut layers = self.layers;
        layers.insert(0, layer);
        proof {
            assert(layers@ =~= seq![layer] + self.layers@);
        }
        Stack { layers }
    }

    /// Finalizes the builder into the per-connection wrapping order,
    /// outermost first.
    pub fn build(self) -> (r: Vec<Layer>)
        ensures
            r@ == self.layers@,
    {
        self.layers
    }
}

/// Composition nests, it never reorders: wrapping a stack in `a` and then
/// in `b` hands a connection to `b` first, then `a`, then everything the
/// stack already held — layers stay decoupled from each other.
pub proof fn lemma_push_nests(s: Stack, a: Layer, b: Layer)
    ensures
        spec_push(Stack { layers: s.layers }, a) == seq![a] + s.layers@,
        forall|t: Stack|
            t.layers@ == spec_push(s, a) ==> spec_push(t, b) =~= seq![b, a] + s.layers@,
{
}

} // verus!
