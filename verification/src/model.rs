//! The mathematical model of a canvas and of each command's effect on it.

use vstd::prelude::*;
use crate::color::Color;
use crate::object::Object;

verus! {

/// A stroke: marks in the order they were drawn.
pub type StrokeView = Seq<Object>;

/// A layer: strokes in the order they were committed.
pub type LayerView = Seq<StrokeView>;

/// A document: layers by index, `0` first.
pub type DocumentView = Seq<LayerView>;

/// What a canvas is, apart from how it is stored.
#[verifier::ext_equal]
pub struct CanvasView {
    /// The document.
    pub layers: DocumentView,
    /// The stroke being drawn, not yet part of the document.
    pub stroke: StrokeView,
    /// The layer that the next commit goes to. It need not exist yet.
    pub current_layer: nat,
    /// The colour stamped on new marks.
    pub current_color: Color,
}

/// A command that changes a canvas.
pub enum Command {
    /// Add a mark to the stroke being drawn.
    AddObject(Object),
    /// Commit the stroke being drawn to the current layer.
    CommitStroke,
    /// Grow the document to at least so many layers.
    GenerateLayers(nat),
    /// Make a layer current.
    SelectLayer(nat),
    /// Make a colour current.
    SelectColor(Color),
}

/// Whether `after` holds all that `before` holds, where `before` holds it:
/// every layer of `before` is a layer of `after` under the same index, and its
/// strokes are the first strokes of that layer, unchanged and in order.
pub open spec fn kept_in(before: DocumentView, after: DocumentView) -> bool {
    &&& before.len() <= after.len()
    &&& forall|layer: int|
        0 <= layer < before.len() ==> #[trigger] before[layer].is_prefix_of(after[layer])
}

impl CanvasView {
    /// A fresh canvas: no layers, nothing drawn, layer `0` current, no
    /// colour chosen.
    pub open spec fn initial() -> CanvasView {
        CanvasView {
            layers: Seq::empty(),
            stroke: Seq::empty(),
            current_layer: 0,
            current_color: Color::unset(),
        }
    }

    /// The canvas after `object` has been added to the stroke being drawn.
    pub open spec fn append(self, object: Object) -> CanvasView {
        CanvasView { stroke: self.stroke.push(object), ..self }
    }

    /// Whether the current layer exists, so that a commit has somewhere to go.
    pub open spec fn can_commit(self) -> bool {
        self.current_layer < self.layers.len()
    }

    /// The canvas after the stroke being drawn has been committed: the stroke
    /// is the new last stroke of the current layer, and the canvas holds an
    /// empty stroke to draw the next one in.
    pub open spec fn commit(self) -> CanvasView
        recommends
            self.can_commit(),
    {
        let target = self.current_layer as int;
        CanvasView {
            layers: self.layers.update(target, self.layers[target].push(self.stroke)),
            stroke: Seq::empty(),
            ..self
        }
    }

    /// The canvas after the document has been grown to at least `target`
    /// layers: empty layers are added at the end until there are `target` of
    /// them, and none if there are as many already.
    pub open spec fn grow(self, target: nat) -> CanvasView {
        if self.layers.len() >= target {
            self
        } else {
            CanvasView {
                layers: self.layers + Seq::new(
                    (target - self.layers.len()) as nat,
                    |i: int| Seq::<StrokeView>::empty(),
                ),
                ..self
            }
        }
    }

    /// The canvas with `index` as the current layer.
    pub open spec fn select_layer(self, index: nat) -> CanvasView {
        CanvasView { current_layer: index, ..self }
    }

    /// The canvas with `color` as the current colour.
    pub open spec fn select_color(self, color: Color) -> CanvasView {
        CanvasView { current_color: color, ..self }
    }

    /// The canvas after one command. A commit with no layer to go to fails
    /// and leaves the canvas as it is.
    pub open spec fn apply(self, command: Command) -> CanvasView {
        match command {
            Command::AddObject(object) => self.append(object),
            Command::CommitStroke => if self.can_commit() {
                self.commit()
            } else {
                self
            },
            Command::GenerateLayers(target) => self.grow(target),
            Command::SelectLayer(index) => self.select_layer(index),
            Command::SelectColor(color) => self.select_color(color),
        }
    }

    /// The canvas after a run of commands, the first of them first.
    pub open spec fn apply_all(self, commands: Seq<Command>) -> CanvasView
        decreases commands.len(),
    {
        if commands.len() == 0 {
            self
        } else {
            self.apply_all(commands.drop_last()).apply(commands.last())
        }
    }
}

} // verus!
