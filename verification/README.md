# autoclicker

An autoclicker for Linux mice: it reads a mouse through evdev, sends its
events on to a virtual device, and clicks the left or right button for you
while you hold it, after you toggle it on with a side button, or all the time.

`src/` is the library, verified with Verus. It decides what every mouse event
does (`event_loop`, `handle_click`), keeps the shared switches and the
spammers by name (`shared_state`, `registry`), says how long a clicking worker
waits (`spammer`, `worker`), measures the clicks per second over a sliding
window kept in a `ringbuffer` (`cps`) and renders the status line
(`interface`). `laws` proves properties that span several calls.

`app/` is the program around it: the command line (`clap`), the mouse and the
virtual device (`evdev`), threads, sleeping, printing, and the floating point
conversions of delays and scroll factors.

The spammers are kept by name in `SpammerMap`, a map of two vectors with
distinct names whose view is a `Map`, in place of std's `HashMap<String, _>`.
vstd's specifications of `HashMap` hold only for key types that vstd knows to
obey its key model (integers, `bool` and boxes of them); for `String` keys
that can only be assumed, and no assumption is made in this crate. A
`HashMap` keyed by `String` was not tried.

`CpsMeter::record` moves its fields out of `self` and back in: the meter has
a type invariant, and Verus accepts a call that takes a field of such a
value by `&mut` only when the call cannot unwind, which nothing states of
the ring buffer's `enqueue`.
