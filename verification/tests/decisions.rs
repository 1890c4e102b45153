use scupt_net::error::NetError;
use scupt_net::event_sink_impl::{plan_request, response_receiver};
use scupt_net::handle_event::HandleEventDummy;
use scupt_net::message_incoming_dummy::MessageIncomingDummy;
use scupt_net::net_handler::{
    after_message_loop, after_next_message, message_channel_index, receiver_channel_counts, LoopStep,
};
use scupt_net::node::{continue_main_loop, handle_opt_send_result, handle_result_endpoint, Reply, ReplyKind};
use scupt_net::task::TaskFailed;

#[test]
fn receiver_counts_follow_the_service_kind() {
    assert_eq!(receiver_channel_counts(false, 3), (3, 0));
    assert_eq!(receiver_channel_counts(true, 2), (0, 2));
}

#[test]
fn message_index_is_hash_modulo_channels() {
    assert_eq!(message_channel_index(10, 3), 1);
    assert_eq!(message_channel_index(0, 5), 0);
    assert_eq!(message_channel_index(u64::MAX, 1), 0);
    assert_eq!(message_channel_index(123456789, 7), 123456789 % 7);
}

#[test]
fn message_loop_steps() {
    assert!(matches!(after_next_message(&Ok(())), LoopStep::Continue));
    assert!(matches!(after_next_message(&Err(NetError::EOF)), LoopStep::Stop { report: false }));
    assert!(matches!(after_next_message(&Err(NetError::NoneOption)), LoopStep::Stop { report: true }));
}

#[test]
fn message_loop_end() {
    let e = after_message_loop(Err(NetError::EOF));
    assert!(!e.report && !e.close_endpoint);
    assert!(matches!(e.result, Err(NetError::EOF)));
    let e = after_message_loop(Err(NetError::IOError("reset".to_string())));
    assert!(e.report && e.close_endpoint);
    assert!(e.result.is_ok());
    let e = after_message_loop(Ok(()));
    assert!(!e.report && e.close_endpoint && e.result.is_ok());
}

#[test]
fn main_loop_stops_only_at_eof() {
    assert!(continue_main_loop(&Ok(())));
    assert!(continue_main_loop(&Err(NetError::NoSuchElement)));
    assert!(!continue_main_loop(&Err(NetError::EOF)));
}

#[test]
fn result_endpoint_goes_to_the_waiting_kind() {
    let (s, a) = handle_result_endpoint(true, Ok::<u8, NetError>(4), ReplyKind::Async);
    assert!(s.is_none());
    assert!(matches!(a, Some(Ok(Some(4)))));
    let (s, a) = handle_result_endpoint(false, Ok::<u8, NetError>(4), ReplyKind::Sync);
    assert!(matches!(s, Some(Ok(None))));
    assert!(a.is_none());
    let (s, a) = handle_result_endpoint(true, Err::<u8, NetError>(NetError::NoSuchElement), ReplyKind::Sync);
    assert!(matches!(s, Some(Err(NetError::NoSuchElement))));
    assert!(a.is_none());
    let (s, a) = handle_result_endpoint(true, Ok::<u8, NetError>(4), ReplyKind::SendNone);
    assert!(s.is_none() && a.is_none());
}

#[test]
fn reply_is_sent_on_the_waiting_kind() {
    assert!(matches!(handle_opt_send_result(Some(1u8), Some(2u16), ReplyKind::SendNone), Reply::Nothing));
    assert!(matches!(handle_opt_send_result(Some(1u8), Some(2u16), ReplyKind::Sync), Reply::Sync(1)));
    assert!(matches!(handle_opt_send_result(Some(1u8), Some(2u16), ReplyKind::Async), Reply::Async(2)));
    assert!(matches!(handle_opt_send_result(None::<u8>, Some(2u16), ReplyKind::Sync), Reply::Nothing));
    assert!(matches!(handle_opt_send_result(Some(1u8), None::<u16>, ReplyKind::Async), Reply::Nothing));
}

#[test]
fn request_plans() {
    assert!(matches!(plan_request(true, false, true), ReplyKind::SendNone));
    assert!(matches!(plan_request(true, false, false), ReplyKind::SendNone));
    assert!(matches!(plan_request(true, true, false), ReplyKind::Async));
    assert!(matches!(plan_request(false, false, true), ReplyKind::Sync));
    assert!(matches!(plan_request(false, true, false), ReplyKind::Async));
}

#[test]
fn response_receiver_needs_a_receiver() {
    assert!(matches!(response_receiver(Some(3u8)), Ok(3)));
    assert!(matches!(response_receiver(None::<u8>), Err(NetError::NoneOption)));
}

#[test]
fn eof_is_recognised() {
    assert!(NetError::EOF.is_eof());
    assert!(!NetError::NoneOption.is_eof());
    assert!(!NetError::SenderError("x".to_string()).is_eof());
}

#[test]
fn dummies_and_task_outcomes() {
    let _h = HandleEventDummy::default();
    let _h2 = HandleEventDummy::default().clone();
    let _m = MessageIncomingDummy::default();
    let _m2 = MessageIncomingDummy::new();
    let f = TaskFailed::Timeout;
    assert!(matches!(f, TaskFailed::Timeout));
    assert!(!matches!(TaskFailed::Cancel, TaskFailed::Timeout));
}
