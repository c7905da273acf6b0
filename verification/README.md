# mqtt_connection

The event loop of an MQTT 3.1.1 client, with its decisions verified by Verus: when a connection
is made and made again, what the user learns of the first attempt, which streams run while the
network is paused or the rate is limited, and how requests, replies and acknowledgements become
packets.

* `src/` is the verified library. `src/laws.rs` states what holds over all events and paths.
* `tests/` runs the library on concrete values.
* `app/` is the network thread around it: channels, timers, sockets and `futures` streams. The
  bookkeeping of the session and the opening of sockets are traits that the user of `app/`
  implements.
