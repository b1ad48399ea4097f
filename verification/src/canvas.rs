//! The canvas and its commands.

use vstd::prelude::*;
use crate::color::Color;
use crate::error::CommitError;
use crate::model::CanvasView;
use crate::object::{Object, Scalar};

verus! {

/// All the state of one drawing session: the document, the stroke being
/// drawn, and the cursor (current layer and current colour).
///
/// The fields are private, so the document changes only through the commands
/// below: layers are added at the end, strokes are added at the end of a
/// layer, and nothing that is in the document is ever changed or removed.
pub struct Canvas {
    layers: Vec<Vec<Vec<Object>>>,
    current_stroke: Vec<Object>,
    current_layer: usize,
    current_color: Color,
}

impl View for Canvas {
    type V = CanvasView;

    closed spec fn view(&self) -> CanvasView {
        CanvasView {
            layers: self.layers.deep_view(),
            stroke: self.current_stroke@,
            current_layer: self.current_layer as nat,
            current_color: self.current_color,
        }
    }
}

impl Canvas {
    /// A fresh canvas.
    pub fn new() -> (canvas: Canvas)
        ensures
            canvas@ == CanvasView::initial(),
    {
        let canvas = Canvas {
            layers: Vec::new(),
            current_stroke: Vec::new(),
            current_layer: 0,
            current_color: Color::default(),
        };
        canvas
    }

    /// Creates a mark with the given pose and the current colour. The canvas
    /// is only read, and the mark has its own copy of the colour: choosing
    /// another colour later does not reach it.
    pub fn create_object(
        &self,
        id: i32,
        x: Scalar,
        y: Scalar,
        rotation: Scalar,
        scale: u32,
    ) -> (object: Object)
        ensures
            object == (Object { id, x, y, rotation, scale, color: self@.current_color }),
    {
        Object { id, x, y, rotation, scale, color: self.current_color }
    }

    /// Adds `object` at the end of the stroke being drawn. The document and
    /// the cursor are not touched.
    pub fn add_object_to_current_stroke(&mut self, object: Object)
        ensures
            final(self)@ == old(self)@.append(object),
    {
        self.current_stroke.push(object);
    }

    /// Grows the document to at least `target_count` layers by adding empty
    /// layers at the end. With that many layers or more already, nothing
    /// changes. The layers that exist keep their index and their strokes.
    pub fn generate_layers(&mut self, target_count: usize)
        ensures
            final(self)@ == old(self)@.grow(target_count as nat),
    {
        let ghost before = self@;
        while self.layers.len() < target_count
            invariant
                self@.stroke == before.stroke,
                self@.current_layer == before.current_layer,
                self@.current_color == before.current_color,
                before.layers.len() <= self@.layers.len(),
                self@.layers.len() <= target_count || self@.layers.len() == before.layers.len(),
                self@.layers =~= before.layers + Seq::new(
                    (self@.layers.len() - before.layers.len()) as nat,
                    |i: int| Seq::<Seq<Object>>::empty(),
                ),
            decreases target_count - self.layers.len(),
        {
            let ghost grown = self.layers.deep_view();
            let layer: Vec<Vec<Object>> = Vec::new();
            assert(layer.deep_view() =~= Seq::empty());
            self.layers.push(layer);
            assert(self.layers.deep_view() =~= grown.push(Seq::empty()));
        }
    }

    /// Commits the stroke being drawn to the current layer.
    ///
    /// Where the current layer exists, a copy of the stroke becomes the last
    /// stroke of that layer and the canvas starts an empty stroke. Where it
    /// does not, the call fails and nothing changes.
    pub fn add_current_stroke(&mut self) -> (result: Result<(), CommitError>)
        ensures
            old(self)@.can_commit() ==> result == Ok::<(), CommitError>(())
                && final(self)@ == old(self)@.commit(),
            !old(self)@.can_commit() ==> {
                &&& result matches Err(CommitError::InvalidLayer { index, layers })
                &&& index == old(self)@.current_layer
                &&& layers == old(self)@.layers.len()
                &&& final(self)@ == old(self)@
            },
    {
        let index = self.current_layer;
        let layers = self.layers.len();
        if index >= layers {
            return Err(CommitError::InvalidLayer { index, layers });
        }
        let ghost before = self.layers@;
        let stroke = self.current_stroke.clone();
        assert(stroke.deep_view() =~= self.current_stroke@);
        self.layers[index].push(stroke);
        self.current_stroke.clear();
        proof {
            let target = index as int;
            assert(self.layers@[target].deep_view() =~= before[target].deep_view().push(
                old(self)@.stroke,
            ));
            assert(self.layers.deep_view() =~= old(self)@.layers.update(
                target,
                old(self)@.layers[target].push(old(self)@.stroke),
            ));
        }
        Ok(())
    }

    /// A snapshot of the whole document: the layers in order, the strokes of
    /// each in order, the marks of each in order. The snapshot is the caller's
    /// own; the canvas cannot be reached through it.
    pub fn get_layers(&self) -> (layers: Vec<Vec<Vec<Object>>>)
        ensures
            layers.deep_view() == self@.layers,
    {
        self.layers.clone()
    }

    /// A snapshot of the stroke being drawn.
    pub fn get_current_stroke(&self) -> (stroke: Vec<Object>)
        ensures
            stroke@ == self@.stroke,
    {
        self.current_stroke.clone()
    }

    /// The current layer.
    pub fn get_current_layer(&self) -> (index: usize)
        ensures
            index == self@.current_layer,
    {
        self.current_layer
    }

    /// The current colour.
    pub fn get_current_color(&self) -> (color: Color)
        ensures
            color == self@.current_color,
    {
        self.current_color
    }

    /// Makes `index` the current layer. Any index is taken: whether the layer
    /// exists is asked when a stroke is committed, of the document as it is
    /// then.
    pub fn set_current_layer(&mut self, index: usize)
        ensures
            final(self)@ == old(self)@.select_layer(index as nat),
    {
        self.current_layer = index;
    }

    /// Makes `color` the current colour. Marks created before keep theirs.
    pub fn set_current_color(&mut self, color: Color)
        ensures
            final(self)@ == old(self)@.select_color(color),
    {
        self.current_color = color;
    }
}

} // verus!
