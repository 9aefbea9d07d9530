# mruby

Values of an embedded mruby virtual machine, and a verified protocol for calling
methods on them.

The library in `src/` never calls the virtual machine. Each operation is a state
machine that names the work it waits for (`exchange::Request`), takes the answer
(`exchange::Reply`) and is pending again or done (`exchange::Progress`):

- `value`: `Value` and `ValueLike`, the operations that start the machines
- `call`: a method call, up to the converted result
- `render`: `to_s`, `inspect` and `to_s_debug`
- `respond_to`: whether a value responds to a method
- `liveness`: whether the garbage collector has freed a value
- `protect`: what a call hands to the virtual machine
- `sys`, `types`, `error`: values as C represents them, their kinds, and errors
- `laws`: what holds of whole conversations. Some laws hold whatever the host
  replies; the others of hosts whose every reply answers the pending request.
  `law_returned_values_are_reachable` and `law_itself_returns_a_reachable_value`
  also need that the host converts a value to a `Value` by giving it back
  (`conversions_keep_values`); `law_value_calls_return_reachable_values` and
  `law_itself_to_value_is_reachable` do not, since there the library converts

`app/` is a host: it performs the requests with the mruby C API.
`extras/mrb_sys_exception.c` is the C function by which it sets an exception. `tests/` runs the
operations against a small in-memory virtual machine.
