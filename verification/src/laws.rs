//! What holds of every canvas, whatever is done to it.
//!
//! The laws are stated over the model: a canvas as sequences, and the effect
//! of each command on it. Each command of [`crate::canvas::Canvas`] promises
//! exactly that effect, so what is proved here of a run of commands holds of
//! the same calls on a canvas.

use vstd::prelude::*;
use crate::model::{kept_in, CanvasView, Command, DocumentView};
use crate::object::Object;

verus! {

/// The commands that add the given marks to the stroke being drawn, one by
/// one and in order.
pub open spec fn drawing(marks: Seq<Object>) -> Seq<Command> {
    marks.map_values(|mark: Object| Command::AddObject(mark))
}

/// A document holds all that it holds.
pub proof fn lemma_kept_in_itself(document: DocumentView)
    ensures
        kept_in(document, document),
{
    assert forall|layer: int| 0 <= layer < document.len() implies #[trigger] document[layer]
        .is_prefix_of(document[layer]) by {
        assert(document[layer].subrange(0, document[layer].len() as int) =~= document[layer]);
    }
}

/// What is kept from one document to a second, and from the second to a
/// third, is kept from the first to the third.
pub proof fn lemma_kept_in_chain(first: DocumentView, second: DocumentView, third: DocumentView)
    requires
        kept_in(first, second),
        kept_in(second, third),
    ensures
        kept_in(first, third),
{
    assert forall|layer: int| 0 <= layer < first.len() implies #[trigger] first[layer]
        .is_prefix_of(third[layer]) by {
        assert(first[layer].is_prefix_of(second[layer]));
        assert(second[layer].is_prefix_of(third[layer]));
        assert(first[layer] =~= third[layer].subrange(0, first[layer].len() as int));
    }
}

/// No command takes anything out of the document or changes what is in it:
/// after any one command every layer is where it was, with the strokes it
/// had, in the order it had them, before any that the command added.
pub proof fn lemma_command_keeps_document(canvas: CanvasView, command: Command)
    ensures
        kept_in(canvas.layers, canvas.apply(command).layers),
{
    let after = canvas.apply(command).layers;
    assert forall|layer: int| 0 <= layer < canvas.layers.len() implies #[trigger] canvas
        .layers[layer].is_prefix_of(after[layer]) by {
        let strokes = canvas.layers[layer];
        assert(strokes =~= after[layer].subrange(0, strokes.len() as int));
    }
}

/// The same of any run of commands: the document only ever grows, by layers
/// at its end and by strokes at the end of a layer.
pub proof fn lemma_commands_keep_document(canvas: CanvasView, commands: Seq<Command>)
    ensures
        kept_in(canvas.layers, canvas.apply_all(commands).layers),
    decreases commands.len(),
{
    if commands.len() == 0 {
        lemma_kept_in_itself(canvas.layers);
    } else {
        let earlier = canvas.apply_all(commands.drop_last());
        lemma_commands_keep_document(canvas, commands.drop_last());
        lemma_command_keeps_document(earlier, commands.last());
        lemma_kept_in_chain(canvas.layers, earlier.layers, earlier.apply(commands.last()).layers);
    }
}

/// A committed stroke is a copy of the stroke as it was drawn, and the copy is
/// its own. The commit puts the stroke, mark for mark, at the end of the
/// current layer and starts an empty stroke. Whatever is done to the canvas
/// afterwards (marks added to the next stroke, further commits, growth), the
/// committed stroke stays where it was put and as it was put there.
pub proof fn lemma_committed_stroke_is_final(canvas: CanvasView, later: Seq<Command>)
    requires
        canvas.can_commit(),
    ensures
        ({
            let target = canvas.current_layer as int;
            let place = canvas.layers[target].len() as int;
            &&& canvas.commit().layers.len() == canvas.layers.len()
            &&& canvas.commit().layers[target].len() == place + 1
            &&& canvas.commit().layers[target].last() == canvas.stroke
            &&& canvas.commit().stroke == Seq::<Object>::empty()
            &&& canvas.commit().apply_all(later).layers.len() >= canvas.layers.len()
            &&& canvas.commit().apply_all(later).layers[target].len() > place
            &&& canvas.commit().apply_all(later).layers[target][place] == canvas.stroke
        }),
{
    let target = canvas.current_layer as int;
    let committed = canvas.commit();
    lemma_commands_keep_document(committed, later);
    assert(committed.layers[target].is_prefix_of(committed.apply_all(later).layers[target]));
    assert(committed.layers[target][canvas.layers[target].len() as int] == canvas.stroke);
}

/// A commit changes one layer only: every other layer is as it was, and the
/// target layer has its former strokes before the new one. The cursor is as
/// it was.
pub proof fn lemma_commit_touches_one_layer(canvas: CanvasView)
    requires
        canvas.can_commit(),
    ensures
        forall|layer: int|
            0 <= layer < canvas.layers.len() && layer != canvas.current_layer
                ==> #[trigger] canvas.commit().layers[layer] == canvas.layers[layer],
        canvas.commit().layers[canvas.current_layer as int].drop_last()
            == canvas.layers[canvas.current_layer as int],
        canvas.commit().current_layer == canvas.current_layer,
        canvas.commit().current_color == canvas.current_color,
{
    let target = canvas.current_layer as int;
    assert(canvas.commit().layers[target].drop_last() =~= canvas.layers[target]);
}

/// A commit with no layer to go to changes nothing: not the document, not the
/// stroke being drawn, not the cursor.
pub proof fn lemma_refused_commit_changes_nothing(canvas: CanvasView)
    requires
        !canvas.can_commit(),
    ensures
        canvas.apply(Command::CommitStroke) == canvas,
{
}

/// Growing never shrinks and never touches a layer that exists: afterwards
/// the document has the larger of its former length and the target, its
/// former layers are the first layers, unchanged, and the added ones are
/// empty. The stroke being drawn and the cursor are as they were.
pub proof fn lemma_grow(canvas: CanvasView, target: nat)
    ensures
        canvas.grow(target).layers.len() == vstd::math::max(
            canvas.layers.len() as int,
            target as int,
        ),
        forall|layer: int|
            0 <= layer < canvas.layers.len() ==> #[trigger] canvas.grow(target).layers[layer]
                == canvas.layers[layer],
        forall|layer: int|
            canvas.layers.len() <= layer < target ==> #[trigger] canvas.grow(target).layers[layer]
                == Seq::<Seq<Object>>::empty(),
        canvas.grow(target).stroke == canvas.stroke,
        canvas.grow(target).current_layer == canvas.current_layer,
        canvas.grow(target).current_color == canvas.current_color,
{
}

/// Growing to a target that the document has reached already changes
/// nothing; so growing twice to the same target is growing once.
pub proof fn lemma_grow_again(canvas: CanvasView, target: nat)
    ensures
        target <= canvas.layers.len() ==> canvas.grow(target) == canvas,
        canvas.grow(target).grow(target) == canvas.grow(target),
{
    lemma_grow(canvas, target);
}

/// Growing to one target and then to another that is no smaller is growing
/// to the second at once: the document ends with the largest of its former
/// length and the two targets, and with its former layers unchanged.
pub proof fn lemma_grow_twice(canvas: CanvasView, first: nat, second: nat)
    requires
        first <= second,
    ensures
        canvas.grow(first).grow(second) == canvas.grow(second),
        canvas.grow(first).grow(second).layers.len() == vstd::math::max(
            canvas.layers.len() as int,
            vstd::math::max(first as int, second as int),
        ),
        forall|layer: int|
            0 <= layer < canvas.layers.len() ==> #[trigger] canvas.grow(first).grow(
                second,
            ).layers[layer] == canvas.layers[layer],
{
    lemma_grow(canvas, first);
    lemma_grow(canvas, second);
    lemma_grow(canvas.grow(first), second);
    assert(canvas.grow(first).grow(second).layers =~= canvas.grow(second).layers);
}

/// Adding marks one by one puts them at the end of the stroke being drawn, in
/// the order they were added, and changes nothing else.
pub proof fn lemma_draw(canvas: CanvasView, marks: Seq<Object>)
    ensures
        canvas.apply_all(drawing(marks)) == (CanvasView {
            stroke: canvas.stroke + marks,
            ..canvas
        }),
    decreases marks.len(),
{
    if marks.len() == 0 {
        assert(canvas.stroke + marks =~= canvas.stroke);
    } else {
        lemma_draw(canvas, marks.drop_last());
        assert(drawing(marks).drop_last() =~= drawing(marks.drop_last()));
        assert((canvas.stroke + marks.drop_last()).push(marks.last()) =~= canvas.stroke + marks);
    }
}

/// A stroke is committed as drawn: from an empty stroke, adding marks one by
/// one and then committing puts exactly those marks, in that order, at the
/// end of the current layer, and leaves an empty stroke to draw in.
pub proof fn lemma_draw_then_commit(canvas: CanvasView, marks: Seq<Object>)
    requires
        canvas.stroke.len() == 0,
        canvas.can_commit(),
    ensures
        ({
            let drawn = canvas.apply_all(drawing(marks));
            let committed = drawn.apply(Command::CommitStroke);
            &&& drawn.stroke == marks
            &&& drawn.layers == canvas.layers
            &&& committed.layers[canvas.current_layer as int].last() == marks
            &&& committed.stroke.len() == 0
        }),
{
    lemma_draw(canvas, marks);
    assert(canvas.stroke + marks =~= marks);
}

} // verus!
