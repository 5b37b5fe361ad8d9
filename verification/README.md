# maps (verified core)

The logic of the `maps` grid map viewer, written in Verus and proved against its
contracts:

- `value_colormap`: the RViz "Map", RViz "Costmap", "Cool Costmap" and raw color maps,
  as lookup tables that provably hold the color functions.
- `draw_order`: the ordered list of distinct map names that decides the drawing order.
- `image`: 8-bit images, conversion to RGBA, cropping (with the `image` crate) and keying
  out a color to transparency; `image_io` decodes and encodes image files with the `image`
  crate.
- `tint`: the blending options (tint, color to alpha, filter, value interpretation) for
  all maps and for one map.
- `cli`: hex color arguments, parsed with egui's color parser (`ecolor`).
- `screenshot`, `grid_options`, `render_options`: screenshot cut-outs and view options.
- `image_pyramid`: which downscaled levels an image gets and which level serves a zoom.
- `graph`: conversion of VDA LIF navigation layouts into the visualization layout.
- `app`, `keys`, `menu_panel`, `pose_edit`, `load_delete`: the decisions of the user
  interface (shortcuts, tools, quitting with unsaved changes, selections).
- `ui_helpers`, `file_dialog_builder`, `os_helpers`: path display, file filters and the
  desktop entry.

`app/` is a headless front end that does the file I/O (reading and writing image files,
LIF parsing with `serde_json`) around the library. The graphical user
interface is not part of this crate.
