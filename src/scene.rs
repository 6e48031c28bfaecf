//! Scene building: an immutable display list of stacking contexts and image
//! placements, in whole device pixels.
use vstd::prelude::*;

verus! {

/// Identifies the logical surface that receives display lists.
#[derive(Clone, Copy, Debug, PartialEq, Eq, Structural)]
pub struct PipelineId(pub u32, pub u32);

/// A width and a height in device pixels.
#[derive(Clone, Copy, Debug, PartialEq, Eq, Structural)]
pub struct DeviceSize {
    pub width: u32,
    pub height: u32,
}

/// An axis-aligned rectangle: origin and size.
#[derive(Clone, Copy, Debug, PartialEq, Eq, Structural)]
pub struct Rect {
    pub x: u32,
    pub y: u32,
    pub width: u32,
    pub height: u32,
}

/// A key for an image registered with the renderer beforehand.
#[derive(Clone, Copy, Debug, PartialEq, Eq, Structural)]
pub struct ImageKey(pub u32, pub u32);

#[derive(Clone, Copy, Debug, PartialEq, Eq, Structural)]
pub enum DisplayItem {
    PushStackingContext { bounds: Rect },
    Image { bounds: Rect, key: ImageKey },
    PopStackingContext,
}

/// The rectangle at the origin that covers the whole viewport.
pub open spec fn full_rect(size: DeviceSize) -> Rect {
    Rect { x: 0, y: 0, width: size.width, height: size.height }
}

/// Number of stacking contexts opened and not yet closed in `items`.
pub open spec fn open_contexts(items: Seq<DisplayItem>) -> int
    decreases items.len(),
{
    if items.len() == 0 {
        0
    } else {
        open_contexts(items.drop_last()) + match items.last() {
            DisplayItem::PushStackingContext { .. } => 1int,
            DisplayItem::Image { .. } => 0int,
            DisplayItem::PopStackingContext => -1int,
        }
    }
}

/// A display list under construction for one pipeline.
pub struct DisplayListBuilder {
    pub pipeline_id: PipelineId,
    pub items: Vec<DisplayItem>,
    /// Stacking contexts opened and not yet closed.
    pub depth: usize,
}

impl DisplayListBuilder {
    pub open spec fn wf(&self) -> bool {
        self.depth == open_contexts(self.items@)
    }

    pub fn new(pipeline_id: PipelineId) -> (r: DisplayListBuilder)
        ensures
            r.wf(),
            r.pipeline_id == pipeline_id,
            r.items@ == Seq::<DisplayItem>::empty(),
            r.depth == 0,
    {
        DisplayListBuilder { pipeline_id, items: Vec::new(), depth: 0 }
    }

    pub fn push_stacking_context(&mut self, bounds: Rect)
        requires
            old(self).wf(),
            old(self).depth < usize::MAX,
        ensures
            final(self).wf(),
            final(self).pipeline_id == old(self).pipeline_id,
            final(self).items@ == old(self).items@.push(DisplayItem::PushStackingContext { bounds }),
            final(self).depth == old(self).depth + 1,
    {
        let ghost before = self.items@;
        self.items.push(DisplayItem::PushStackingContext { bounds });
        assert(self.items@.drop_last() == before);
        self.depth = self.depth + 1;
    }

    pub fn push_image(&mut self, bounds: Rect, key: ImageKey)
        requires
            old(self).wf(),
        ensures
            final(self).wf(),
            final(self).pipeline_id == old(self).pipeline_id,
            final(self).items@ == old(self).items@.push(DisplayItem::Image { bounds, key }),
            final(self).depth == old(self).depth,
    {
        let ghost before = self.items@;
        self.items.push(DisplayItem::Image { bounds, key });
        assert(self.items@.drop_last() == before);
    }

    /// Closes the innermost open stacking context.
    pub fn pop_stacking_context(&mut self)
        requires
            old(self).wf(),
            old(self).depth > 0,
        ensures
            final(self).wf(),
            final(self).pipeline_id == old(self).pipeline_id,
            final(self).items@ == old(self).items@.push(DisplayItem::PopStackingContext),
            final(self).depth == old(self).depth - 1,
    {
        let ghost before = self.items@;
        self.items.push(DisplayItem::PopStackingContext);
        assert(self.items@.drop_last() == before);
        self.depth = self.depth - 1;
    }
}

/// The items of a scene that shows one image over the whole viewport.
pub open spec fn image_scene_items(key: ImageKey, viewport: DeviceSize) -> Seq<DisplayItem> {
    seq![
        DisplayItem::PushStackingContext { bounds: full_rect(viewport) },
        DisplayItem::Image { bounds: full_rect(viewport), key },
        DisplayItem::PopStackingContext,
    ]
}

/// A stacking context spanning the viewport, holding one image that fills
/// it. The same inputs always give the same list.
pub fn build_image_scene(pipeline_id: PipelineId, key: ImageKey, viewport: DeviceSize) -> (r:
    DisplayListBuilder)
    ensures
        r.wf(),
        r.pipeline_id == pipeline_id,
        r.items@ == image_scene_items(key, viewport),
        r.depth == 0,
{
    let bounds = Rect { x: 0, y: 0, width: viewport.width, height: viewport.height };
    let mut builder = DisplayListBuilder::new(pipeline_id);
    builder.push_stacking_context(bounds);
    builder.push_image(bounds, key);
    builder.pop_stacking_context();
    assert(builder.items@ =~= image_scene_items(key, viewport));
    builder
}

} // verus!
