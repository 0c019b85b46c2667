# vst3_view

The logic of a VST3 plug-in's view, verified with Verus, and the COM layer that connects it to a
host.

`src/` holds the verified library:

- `class_id`, `plugin`, `factory`: class IDs and their byte order, plug-in metadata, and the classes
  a plug-in library exports.
- `keys`: virtual key codes and modifier bitmasks.
- `platform`, `geometry`, `result`: window types, rectangles and answers to the host.
- `run_loop`: the event handler that runs tasks on a host's GUI thread. `task_queue` states what is
  relied on about the queue behind it, `wakeup` why no posted task is forgotten.
- `view`: the view itself. `laws` relates its operations to each other, `task_flow` follows the
  tasks through them.

The library does no I/O. A method that needs something done returns what to do, and another method
takes the outcome.

`app/` performs those requests: it implements the VST3 interfaces, talks to sockets, and scales the
editor's size, which takes floating point numbers. `tests/` exercises the library.
