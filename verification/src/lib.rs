//! Verified core of a small message-passing network layer: the wire framing
//! of messages, the option types of the event sinks and senders, the tables a
//! node keeps of its connections and event channels, and the decisions its
//! event loop takes.

pub mod error;
pub mod es_option;
pub mod event_sink;
pub mod event_sink_impl;
pub mod handle_event;
pub mod io_service;
pub mod message_incoming_dummy;
pub mod net_handler;
pub mod node;
pub mod node_context;
pub mod opt_ep;
pub mod opt_send;
pub mod task;
pub mod framed_header;
pub mod framed_codec;
