//! The decision-making core of a GPU renderer: buffers, render tasks, quads,
//! shader selection, draw planning and the state machines of its threads.

pub mod units;
pub mod internal_types;
pub mod clock;
pub mod float_bits;
pub mod grouped;
pub mod quad;
pub mod record;
pub mod render_backend;
pub mod render_backend_pool;
pub mod render_target;
pub mod render_task;
pub mod render_task_graph;
pub mod renderer;
pub mod renderdoc;
pub mod resource_list;
pub mod scene;
pub mod scene_builder;
pub mod scene_builder_thread;
pub mod svg_filter;
pub mod table;
pub mod task_dependencies;
pub mod text;
