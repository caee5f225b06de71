# webrender

A GPU renderer for web content, whose decisions are verified.

- `src/` is the library. Every function states its result in a contract, and Verus proves it.
  - `quad` cuts quads into tiles, picks how each is drawn, and writes it for the shaders.
  - `render_task`, `render_task_graph`, `render_target` and `svg_filter` plan what is drawn
    before a picture: blurs, filter graphs, masks, borders.
  - `renderer` draws frames: buffers and textures, shaders, targets, composition, debugging.
  - `scene`, `scene_builder`, `scene_builder_thread`, `render_backend` and
    `render_backend_pool` turn transactions into scenes, and scenes into frames.
  - `record`, `renderdoc` and `resource_list` are for recordings, captures and resources.
- `tests/` runs the library on concrete values.
- `app/` holds the threads, the files, the foreign interfaces and the arithmetic on
  floating-point numbers.

Device coordinates are whole numbers in the library. Other floating-point numbers pass
through it as their bits (`float_bits`). Work on the device is given as a list of commands,
and messages are answered with a list of actions, so that what is decided can be stated
apart from how it is done.
