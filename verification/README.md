# fractal

A terminal explorer of the Mandelbrot set, Julia sets, the logistic map and
the Lorenz and Hénon attractors, drawn in braille cells.

`src/` is the verified library (Verus): the views and their names
(`view`), what each key means (`keys`), the integer state the keys drive
and the step that applies a key to it (`controls`), the braille encoding of
a cell and the bounds of the sub-pixel field (`braille`), the colour changes
of a drawn row (`paint`), the screen layout and the bands of rows handed to
worker threads (`layout`), the command line (`args`), what the assistant's run comes to (`reply`),
and the text that
leaves the program (`export`).

`app/` is the program around it: the terminal, files, the assistant process,
and everything that iterates or formats real numbers, which the library does
not hold. The assistant's program is named by the `FRACTAL_ASSISTANT`
environment variable.
