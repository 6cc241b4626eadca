# open_gl_rs

A small OpenGL model viewer, split in two.

`src/` is a verified library (Verus). It holds the data of an imported scene
(animations, lights, cameras, materials, embedded textures, the node graph and
its meshes) and the renderer's decisions about it:

- `model`: which meshes a scene yields (depth-first over the node graph),
  their vertices and indices, and which image files their textures need —
  each file once, in order of first use; then the model once the images are
  GL textures, and the GL calls that draw it.
- `mesh`: the GL calls that draw one mesh, including the sampler uniform
  names `material.texture_diffuseN` / `material.texture_specularN`.
- `shader`: the error text of a failed shader stage.
- `input`: the GLFW-to-GUI key table and the handling of window events
  (space toggles the GUI mode, escape closes, GUI mode forwards events).
- `scene`: the scene data and its accessors. Floating-point values are held
  as their IEEE-754 bit patterns.

`app/` is the program around it: the window and input (glfw), the GUI
(imgui), the floating-point camera, reading shader files and scenes,
decoding images, and issuing the GL calls the library plans.
