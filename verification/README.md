# ios_event_loop

An event loop for iOS applications. What it decides is verified with Verus; what it does to the main
run loop and to UIKit is carried out by a thin layer around that.

## The library, `src/`

- `time`: spans and points in time, in whole nanoseconds.
- `control_flow`: how long the run loop may be driven before control comes back.
- `run_loop`: the observers of the main run loop, their order, and what they ask for.
- `event`, `channel`, `proxy`, `handler`: the way of an event from a proxy to the user's callback.
- `app_state`, `window_target`: the state that callbacks and drivers share, and the handle to it.
- `launch`: what a process may do with its event loop, and when.
- `event_loop`: the event loop and the steps of its drivers.
- `display`: the display handles of `raw_window_handle`.

A driver alternates between decisions and work that only the platform can do. Each decision is a
function that returns what is to be done next. Functions whose names begin with `law_` state and
prove what holds of the library as a whole.

## The application layer, `app/`

It performs what the library decides, holds the user's callback, and shares the channel of user
events between threads. It is generic over `Host`, the application that the event loop is part of.
On Apple platforms, `uikit` answers for the parts of a `Host` that need nothing else of the
application.
