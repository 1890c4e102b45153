use scupt_net::es_option::{ESConnectOpt, ESConnectOption, ESOption, ESServeOpt, ESStopOpt};
use scupt_net::event_sink;
use scupt_net::io_service::IOServiceOpt;
use scupt_net::opt_ep::OptEP;
use scupt_net::opt_send::OptSend;

#[test]
fn es_option_defaults_to_waiting() {
    assert!(!ESOption::new().no_wait());
    assert!(!ESOption::default().no_wait());
    assert!(!ESStopOpt::default().no_wait());
    assert!(!ESServeOpt::default().no_wait());
}

#[test]
fn es_option_enable_no_wait() {
    let o = ESOption::new().enable_no_wait(true);
    assert!(o.no_wait());
    let o = o.enable_no_wait(false);
    assert!(!o.no_wait());
}

#[test]
fn es_connect_option_defaults() {
    let o = ESConnectOption::new();
    assert!(!o.no_wait());
    assert!(!o.return_endpoint());
    let d = ESConnectOpt::default();
    assert!(!d.no_wait());
    assert!(!d.return_endpoint());
}

#[test]
fn es_connect_option_setters_are_independent() {
    let o = ESConnectOption::new().enable_no_wait(true);
    assert!(o.no_wait());
    assert!(!o.return_endpoint());
    let o = o.enable_return_endpoint(true);
    assert!(o.no_wait());
    assert!(o.return_endpoint());
    let o = o.enable_no_wait(false);
    assert!(!o.no_wait());
    assert!(o.return_endpoint());
}

#[test]
fn event_sink_options_are_the_same_types() {
    let o: event_sink::ESOption = ESOption::new().enable_no_wait(true);
    assert!(o.no_wait());
    let c: event_sink::ESConnectOption = event_sink::ESConnectOption::new().enable_return_endpoint(true);
    assert!(c.return_endpoint());
    assert!(!event_sink::ESSignalOpt::default().no_wait());
}

#[test]
fn opt_ep_dtm_test() {
    assert!(!OptEP::new().is_enable_dtm_test());
    assert!(!OptEP::default().is_enable_dtm_test());
    assert!(OptEP::new().enable_dtm_test(true).is_enable_dtm_test());
    assert!(!OptEP::new().enable_dtm_test(true).enable_dtm_test(false).is_enable_dtm_test());
}

#[test]
fn opt_send_no_wait() {
    assert!(!OptSend::new().is_enable_no_wait());
    assert!(!OptSend::default().is_enable_no_wait());
    assert!(OptSend::default().enable_no_wait(true).is_enable_no_wait());
}

#[test]
fn io_service_opt_fields() {
    let o = IOServiceOpt { num_message_receiver: 3, testing: true, sync_service: false };
    assert_eq!(o.num_message_receiver, 3);
    assert!(o.testing);
    assert!(!o.sync_service);
}
