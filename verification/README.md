# starling

The Starling JavaScript runtime, with its decisions verified by Verus.

- `src/` is the verified library: the configuration (`Options`), the errors,
  the bookkeeping of children, supervised tasks and rejected promises, and the
  state machines that drive a task, the evaluation of its JavaScript file, the
  Starling supervisor and the glue between promises and futures. Each public
  function states its behaviour in `requires`/`ensures`; the `law_*` proof
  functions state properties that span several steps.
- `tests/` exercises the library on concrete values.
- `app/` is the `starling` program: the command line, the threads and
  channels, and the SpiderMonkey engine work, performing what the library
  decides. It needs the `js` engine bindings.
