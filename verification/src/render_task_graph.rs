//! The graph of the render tasks of a frame.

use crate::float_bits::FloatBits;
use crate::internal_types::{RenderTaskId, TextureSource};
use crate::render_task::{RenderTask, RenderTaskView, SubTask};
use crate::units::{DeviceIntPoint, DeviceIntRect};
use vstd::prelude::*;

verus! {

/// A point in homogeneous coordinates, only carried through.
#[derive(Clone, Copy, Debug, PartialEq, Eq, Structural)]
pub struct HomogeneousVector {
    pub x: FloatBits,
    pub y: FloatBits,
    pub z: FloatBits,
    pub w: FloatBits,
}

/// How a task's part of a texture is addressed: as the task's rectangle, or by
/// four corners in units of its width and height.
#[derive(Clone, Copy, Debug, PartialEq, Eq, Structural)]
pub enum UvRectKind {
    Rect,
    Quad {
        top_left: HomogeneousVector,
        top_right: HomogeneousVector,
        bottom_left: HomogeneousVector,
        bottom_right: HomogeneousVector,
    },
}

/// The part of a texture that belongs to a task. The corners of a `Quad` are
/// offsets from the corner of the task's target rectangle, in whole pixels.
#[derive(Clone, Copy, Debug, PartialEq, Eq, Structural)]
pub enum PlacedUv {
    Rect,
    Quad { top_left: DeviceIntPoint, bottom_right: DeviceIntPoint },
}

/// The target rectangle of a task, and the part of it that is read.
#[derive(Clone, Copy, Debug, PartialEq, Eq, Structural)]
pub struct TaskPlacement {
    pub target_rect: DeviceIntRect,
    pub uv: PlacedUv,
}

/// Where the tasks of a frame ended up, by task.
pub struct TaskPlacements {
    pub placements: Vec<TaskPlacement>,
}

/// Some of the sub-tasks of the frame, from `start` up to but without `end`.
#[derive(Clone, Copy, Debug, PartialEq, Eq, Structural)]
pub struct SubTaskRange {
    pub start: u32,
    pub end: u32,
}

impl SubTaskRange {
    pub open spec fn spec_empty() -> Self {
        SubTaskRange { start: 0, end: 0 }
    }

    #[verifier::when_used_as_spec(spec_empty)]
    pub fn empty() -> (r: Self)
        ensures
            r == Self::spec_empty(),
    {
        SubTaskRange { start: 0, end: 0 }
    }

    pub open spec fn spec_is_empty(self) -> bool {
        self.start >= self.end
    }

    pub fn is_empty(&self) -> (r: bool)
        ensures
            r == self.spec_is_empty(),
    {
        self.start >= self.end
    }
}

/// The tasks of a frame, as they are collected.
pub struct RenderTaskGraphBuilder {
    pub tasks: Vec<RenderTask>,
    pub sub_tasks: Vec<SubTask>,
}

/// The greatest number of tasks in a graph.
pub const MAX_TASKS: usize = 0x7FFF_FFFF;

/// The graph in which the task `parent` depends on `child` too.
pub open spec fn with_dependency(
    graph: Seq<RenderTaskView>,
    parent: RenderTaskId,
    child: RenderTaskId,
) -> Seq<RenderTaskView> {
    graph.update(
        parent.index as int,
        RenderTaskView {
            children: graph[parent.index as int].children.push(child.index),
            ..graph[parent.index as int]
        },
    )
}

impl RenderTaskGraphBuilder {
    /// The tasks so far, in the order in which they were added.
    pub open spec fn view(self) -> Seq<RenderTaskView> {
        self.tasks@.map_values(|t: RenderTask| t@)
    }

    pub fn new() -> (r: Self)
        ensures
            r@ == Seq::<RenderTaskView>::empty(),
            r.sub_tasks@ == Seq::<SubTask>::empty(),
    {
        let r = RenderTaskGraphBuilder { tasks: Vec::new(), sub_tasks: Vec::new() };
        assert(r@ =~= Seq::<RenderTaskView>::empty());
        r
    }

    /// Adds a task at the end.
    pub fn add_task(&mut self, task: RenderTask) -> (r: RenderTaskId)
        requires
            old(self)@.len() < MAX_TASKS,
        ensures
            r.index == old(self)@.len(),
            final(self)@ == old(self)@.push(task@),
            final(self).sub_tasks == old(self).sub_tasks,
    {
        let index: u32 = self.tasks.len() as u32;
        self.tasks.push(task);
        assert(self@ =~= old(self)@.push(task@));
        RenderTaskId { index }
    }

    pub fn get_task(&self, id: RenderTaskId) -> (r: &RenderTask)
        requires
            id.index < self@.len(),
        ensures
            r@ == self@[id.index as int],
            *r == self.tasks@[id.index as int],
    {
        &self.tasks[id.index as usize]
    }

    /// A range of sub-tasks that starts at the end and holds nothing yet.
    pub fn begin_sub_tasks(&self) -> (r: SubTaskRange)
        requires
            self.sub_tasks@.len() <= u32::MAX,
        ensures
            r.start == self.sub_tasks@.len(),
            r.end == self.sub_tasks@.len(),
    {
        let i: u32 = self.sub_tasks.len() as u32;
        SubTaskRange { start: i, end: i }
    }

    /// Adds a sub-task to the range that ends at the end.
    pub fn push_sub_task(&mut self, range: &mut SubTaskRange, sub_task: SubTask)
        requires
            old(range).end == old(self).sub_tasks@.len(),
            old(self).sub_tasks@.len() < u32::MAX,
        ensures
            final(self).sub_tasks@ == old(self).sub_tasks@.push(sub_task),
            final(self).tasks == old(self).tasks,
            final(range).start == old(range).start,
            final(range).end == old(range).end + 1,
    {
        self.sub_tasks.push(sub_task);
        range.end = range.end + 1;
    }

    /// Gives a task its sub-tasks, of which it has none yet.
    pub fn set_sub_tasks(&mut self, id: RenderTaskId, sub_tasks: SubTaskRange)
        requires
            id.index < old(self)@.len(),
            old(self)@[id.index as int].sub_tasks.spec_is_empty(),
        ensures
            final(self)@ == old(self)@.update(
                id.index as int,
                RenderTaskView { sub_tasks, ..old(self)@[id.index as int] },
            ),
            final(self).sub_tasks == old(self).sub_tasks,
    {
        self.tasks[id.index as usize].set_sub_tasks(sub_tasks);
        assert(self@ =~= old(self)@.update(
            id.index as int,
            RenderTaskView { sub_tasks, ..old(self)@[id.index as int] },
        ));
    }

    /// Makes the task `parent` depend on the task `child`.
    pub fn add_dependency(&mut self, parent: RenderTaskId, child: RenderTaskId)
        requires
            parent.index < old(self)@.len(),
        ensures
            final(self)@ == with_dependency(old(self)@, parent, child),
            final(self).sub_tasks == old(self).sub_tasks,
    {
        self.tasks[parent.index as usize].children.push(child.index);
        assert(self@ =~= with_dependency(old(self)@, parent, child));
    }
}

/// The tasks of a frame, placed and ready to be drawn.
pub struct RenderTaskGraph {
    pub tasks: Vec<RenderTask>,
    pub sub_tasks: Vec<SubTask>,
}

impl RenderTaskGraph {
    /// The identifier is that of a task that can be read.
    pub open spec fn readable(self, id: RenderTaskId) -> bool {
        &&& id.index < self.tasks@.len()
        &&& self.tasks@[id.index as int].spec_texture_source() is Some
    }

    /// The texture that holds a task, where it has one.
    pub open spec fn spec_resolve_texture(self, id: RenderTaskId) -> Option<TextureSource> {
        let source = self.tasks@[id.index as int].spec_texture_source();
        if source == Some(TextureSource::Invalid) {
            None
        } else {
            source
        }
    }

    pub fn resolve_texture(&self, id: RenderTaskId) -> (r: Option<TextureSource>)
        requires
            self.readable(id),
        ensures
            r == self.spec_resolve_texture(id),
    {
        let source = self.tasks[id.index as usize].get_texture_source();
        if source == TextureSource::Invalid {
            None
        } else {
            Some(source)
        }
    }
}

} // verus!
