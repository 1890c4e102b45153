//! The options of the event-sink requests, under the name that the sink
//! interface uses for them; they are the types of `es_option`.

pub use crate::es_option::{
    ESConnectOpt, ESConnectOption, ESOption, ESServeOpt, ESSignalOpt, ESStopOpt,
};
