# pbs_engine

The engine of a physically based shading demo, with its decisions verified
by Verus.

- `src/` is the verified library. It decides what the renderer asks of the
  graphics driver and proves it: the scene stack and the lifecycle calls a
  transition causes, how framebuffer attachments are laid out and cleared,
  which pooled framebuffer serves a request and which are discarded, shader
  keyword bits and the variant a keyword switch selects, the checks on
  buffer binds, maps, fills and copies, texture formats and mip level
  counts, index buffers, the asset caches, the material's shader and
  texture units, and the passes of the bloom effect. Keyword deduplication and keyword
  combinations are computed by `itertools`.
- `app/` is the program around it: the window and event loop (`glutin`),
  every OpenGL call (`gl`), image decoding (`image`), the settings file
  (`ron`, `serde`) and the floating-point camera, bloom parameters and tone mapper
  (`nalgebra-glm`).
- `tests/` exercises the library on concrete values.
