# rnl

The verified core of RNL (React Native Libre), a framework in which a
JavaScript UI built with React drives native widgets that each platform
implements in its own language.

`src/` is the library, written in Verus and proved against its contracts:

- `bridge` hands out widget handles and decides which native call each
  request from JavaScript turns into; `registry` keeps the element factories
  that platforms register; `callbacks` keeps the JavaScript callbacks by id.
- `headless` is the UI tree of the headless runner and how it is printed.
- `elements` says what each attribute of the Linux platform's `box`, `text`
  and `button` elements sets, and which callback a button click invokes.
- `runtime` holds the decisions of the JavaScript runtime's glue.
- `config`, `cli`, `templates` and `commands` are the `rnl` tool: the
  configuration file's values, the files that `rnl init` and `rnl add` write,
  the build plan, and the `doctor` output.
- `laws` states the properties that relate several operations.
- `strings` holds the string helpers, with the Unicode properties of `char`
  named after std's methods.

`app/` is the program around the library: the command line, file and
process I/O, the QuickJS engine, the C ABI for platforms and the GTK4
widgets.  `tests/` exercises the library.
