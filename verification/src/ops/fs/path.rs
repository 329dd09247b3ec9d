//! Paths inside layers.

use vstd::prelude::*;

use crate::ops::exec::mount::AsPath;
use crate::serialization::EdgeView;
use crate::utils::{OperationOutput, OwnOutputIdx};

verus! {

/// The place of a path that is not given yet.
#[derive(Debug)]
pub struct UnsetPath;

/// A layer and a path in it: the source or the destination of a file action.
#[derive(Debug)]
pub enum LayerPath<'a, P> {
    /// A path in an output of an earlier step of the same sequence.
    Own(OwnOutputIdx, P),
    /// A path in an output of another operation.
    Other(OperationOutput<'a>, P),
    /// A path in an empty layer.
    Scratch(P),
}

/// What a [`LayerPath`] holds.
pub ghost enum LayerPathView {
    Own(u32, Seq<char>),
    Other(EdgeView, Seq<char>),
    Scratch(Seq<char>),
}

impl LayerPathView {
    /// The path.
    pub open spec fn path(&self) -> Seq<char> {
        match self {
            LayerPathView::Own(_, path) => *path,
            LayerPathView::Other(_, path) => *path,
            LayerPathView::Scratch(path) => *path,
        }
    }

    /// The output of another operation that the path lies in, if it lies in
    /// one.
    pub open spec fn inputs(&self) -> Seq<EdgeView> {
        match self {
            LayerPathView::Other(source, _) => seq![*source],
            _ => Seq::empty(),
        }
    }

    /// The index that stands for the layer on the wire, in a sequence with
    /// `count` inputs: `-1` for the empty layer; `offset`, the position of the
    /// input, for the output of another operation; `count + o` for the own
    /// output `o`.
    pub open spec fn resolve(&self, count: int, offset: int) -> int {
        match self {
            LayerPathView::Scratch(_) => -1,
            LayerPathView::Other(..) => offset,
            LayerPathView::Own(output, _) => count + *output,
        }
    }
}

/// Whether the indices of a sequence with `count` inputs, for an action
/// whose inputs begin at `offset`, fit the wire: the largest own output past
/// `count`, and the second input of the action.
pub open spec fn fits(count: int, offset: int) -> bool {
    count + u32::MAX <= i64::MAX && offset + 1 <= i64::MAX
}

impl<'a, P: View<V = Seq<char>>> View for LayerPath<'a, P> {
    type V = LayerPathView;

    open spec fn view(&self) -> LayerPathView
        decreases self, 0nat,
    {
        match self {
            LayerPath::Own(output, path) => LayerPathView::Own(output.0, path@),
            LayerPath::Other(source, path) => LayerPathView::Other(source@, path@),
            LayerPath::Scratch(path) => LayerPathView::Scratch(path@),
        }
    }
}

impl<'a, P: AsPath> LayerPath<'a, P> {
    /// The same layer path with an owned path.
    pub fn into_owned(self) -> (owned: LayerPath<'a, String>)
        ensures
            owned@ == self@,
    {
        match self {
            LayerPath::Other(source, path) => LayerPath::Other(source, path.to_path()),
            LayerPath::Own(output, path) => LayerPath::Own(output, path.to_path()),
            LayerPath::Scratch(path) => LayerPath::Scratch(path.to_path()),
        }
    }
}

impl<'a> LayerPath<'a, String> {
    /// The path.
    pub fn path(&self) -> (path: String)
        ensures
            path@ == self@.path(),
    {
        match self {
            LayerPath::Other(_, path) => path.clone(),
            LayerPath::Own(_, path) => path.clone(),
            LayerPath::Scratch(path) => path.clone(),
        }
    }

    /// The index that stands for the layer on the wire.
    pub(crate) fn resolve(&self, count: u64, offset: u64) -> (index: i64)
        requires
            count + u32::MAX <= i64::MAX,
            offset <= i64::MAX,
        ensures
            index == self@.resolve(count as int, offset as int),
    {
        match self {
            LayerPath::Scratch(_) => -1,
            LayerPath::Other(..) => offset as i64,
            LayerPath::Own(output, _) => count as i64 + output.to_i64(),
        }
    }
}

} // verus!
