# scupt_net

A small message-passing network layer: nodes exchange length-prefixed
messages over TCP, driven by event loops that take connect, listen, send and
stop requests from event sinks.

* `src/` is the verified library (Verus): the wire framing of messages
  (`framed_header`, `framed_codec`), the option types (`es_option`, `opt_ep`,
  `opt_send`, `io_service`), the tables a node keeps of its connections and of
  its event channels (`node_context`), and the decisions of the event loops
  and of the message handler (`node`, `net_handler`, `event_sink_impl`).
  The framing laws (what is encoded decodes back, in order, empty payloads
  included; an incomplete frame is never taken) are proved in `framed_codec`.
* `app/` is the asynchronous runtime around it (tokio): endpoints, event
  channels, the node, the handler, the I/O service, the stop notifier and
  task spawning.
* `tests/` exercises the library.
