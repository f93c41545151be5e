# cueflow

A verified foundation for desktop automations: documents that describe what is to be done on a
desktop, and the rules by which they are read, resolved, run and reported.

Everything under `src/` is checked by Verus. The functions that touch a desktop are split: the
library says what is to be done and judges what came of it, and `app/` has the system do it.

## The library

- `definition`, `validate`, `platform`: automations, what makes one valid, and what a step does on
  a given platform.
- `value`, `codec`, `fields`, `schema`: the JSON form of automations, events and reports.
- `interpolate`, `resolve`: variables, references to them, and secrets.
- `run`, `executor`, `attempts`, `story`, `control`, `time`: running an automation, with retries,
  waiting, time limits, pausing and cancelling, and what a run did, call by call.
- `adapter`, `queries`, `waiting`, `looking`, `keys`, `current`: what the executor asks of a
  platform, and the decisions that all platforms share.
- `windows`, `macos`: what each platform supports, refuses, searches for and presses.
- `accessibility`, `elements`, `selectors`, `describe`, `evidence`: trees of elements, selectors for
  them, and what is kept of a step.
- `bitmap`, `bmp_file`: pictures and finding one in another.
- `cli`, `bridge`, `recorder`, `messages`: the command line, drills, and embedding.
- `text`, `collections`, `views`: texts, sorted maps and sets, and the models of types.

Public functions state what they return or change. Public proof functions state what holds of
several of them together, such as that a written definition is read back.

## The program

`app/` is the `cueflow` program: arguments, files, clocks, child processes, and the calls into
Windows and macOS.
