use scupt_net::error::NetError;
use scupt_net::node_context::{default_channel_name, event_channel_name, ChannelSet, _NodeContext};

#[test]
fn unknown_node_has_no_endpoint() {
    let ctx: _NodeContext<u32> = _NodeContext::new("node".to_string());
    assert!(matches!(ctx.get_endpoint(7), Err(NetError::NoSuchElement)));
}

#[test]
fn added_endpoint_is_found() {
    let mut ctx: _NodeContext<u32> = _NodeContext::new("node".to_string());
    assert!(ctx.add_endpoint(7, 70).is_ok());
    assert_eq!(ctx.get_endpoint(7).ok(), Some(&70));
    assert!(matches!(ctx.get_endpoint(8), Err(NetError::NoSuchElement)));
}

#[test]
fn endpoints_of_a_node_are_chosen_among_its_own() {
    let mut ctx: _NodeContext<u32> = _NodeContext::new("node".to_string());
    ctx.add_endpoint(1, 10).unwrap();
    ctx.add_endpoint(1, 11).unwrap();
    ctx.add_endpoint(1, 12).unwrap();
    ctx.add_endpoint(2, 20).unwrap();
    let mut seen = std::collections::HashSet::new();
    for _ in 0..200 {
        let e = *ctx.get_endpoint(1).unwrap();
        assert!(e == 10 || e == 11 || e == 12);
        seen.insert(e);
        assert_eq!(ctx.get_endpoint(2).ok(), Some(&20));
    }
    // the choice is random: over many draws more than one endpoint comes back
    assert!(seen.len() > 1);
}

#[test]
fn lookups_after_a_sequence_of_additions() {
    let mut ctx: _NodeContext<u32> = _NodeContext::new("node".to_string());
    let adds = [(1u64, 10u32), (2, 20), (1, 11), (3, 30), (1, 12)];
    for (n, e) in adds {
        assert!(ctx.add_endpoint(n, e).is_ok());
    }
    for id in 0u64..6 {
        let added: Vec<u32> = adds.iter().filter(|(n, _)| *n == id).map(|(_, e)| *e).collect();
        match ctx.get_endpoint(id) {
            Ok(e) => assert!(added.contains(e)),
            Err(err) => {
                assert!(added.is_empty());
                assert!(matches!(err, NetError::NoSuchElement));
            }
        }
    }
}

#[test]
fn channel_names() {
    assert_eq!(default_channel_name(&"service_1".to_string()), "service_1_default");
    assert_eq!(event_channel_name(600, &"sink".to_string()), "600_sink");
    assert_eq!(event_channel_name(0, &"".to_string()), "0_");
    assert_eq!(event_channel_name(u64::MAX, &"x".to_string()), "18446744073709551615_x");
}

#[test]
fn channel_set_refuses_duplicate_names() {
    let mut set: ChannelSet<u8> = ChannelSet::new();
    assert!(!set.contains_key(&"a".to_string()));
    assert!(set.register("a".to_string(), 1).is_ok());
    assert!(set.register("b".to_string(), 2).is_ok());
    assert!(matches!(set.register("a".to_string(), 3), Err(NetError::ExistingSuchElement)));
    assert!(set.contains_key(&"a".to_string()));
    assert!(set.contains_key(&"b".to_string()));
    assert!(!set.contains_key(&"c".to_string()));
}

#[test]
fn channel_set_drain_empties_in_order() {
    let mut set: ChannelSet<u8> = ChannelSet::new();
    set.register("x".to_string(), 5).unwrap();
    set.register("y".to_string(), 6).unwrap();
    set.register("z".to_string(), 7).unwrap();
    assert_eq!(set.drain(), vec![5u8, 6, 7]);
    assert!(!set.contains_key(&"a".to_string()));
    assert!(!set.contains_key(&"x".to_string()));
    assert!(set.register("x".to_string(), 8).is_ok());
}
