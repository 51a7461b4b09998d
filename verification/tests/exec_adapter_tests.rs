use tinywindow::exec_adapter::{pre_trade_check, ExecAdapter, ExecError};

#[test]
fn test_send_order_accepts_valid_order() {
    let mut adapter = ExecAdapter::new();
    let order = b"test order payload".to_vec();
    let result = adapter.send_order(order);
    assert!(result.is_ok());
    let ack = result.unwrap();
    assert!(ack.accepted);
    assert!(ack.order_id > 0);
    assert!(ack.reason.is_none());
}

#[test]
fn test_send_order_rejects_empty_order() {
    let mut adapter = ExecAdapter::new();
    let order = vec![];
    let result = adapter.send_order(order);
    assert!(result.is_err());
    match result.unwrap_err() {
        ExecError::ValidationFailed(msg) => {
            assert!(msg.contains("empty"));
        }
        _ => panic!("Expected ValidationFailed error"),
    }
}

#[test]
fn test_send_order_sequential_ids() {
    let mut adapter = ExecAdapter::new();
    let order1 = b"order 1".to_vec();
    let order2 = b"order 2".to_vec();
    let order3 = b"order 3".to_vec();

    let ack1 = adapter.send_order(order1).unwrap();
    let ack2 = adapter.send_order(order2).unwrap();
    let ack3 = adapter.send_order(order3).unwrap();

    assert!(ack2.order_id > ack1.order_id);
    assert!(ack3.order_id > ack2.order_id);
}

#[test]
fn test_pre_trade_check_valid_order() {
    let order = b"valid order";
    assert!(pre_trade_check(order).is_ok());
}

#[test]
fn test_pre_trade_check_empty_order() {
    let order: &[u8] = &[];
    let result = pre_trade_check(order);
    assert!(result.is_err());
}

#[test]
fn test_reset_gives_ids_from_one() {
    let mut adapter = ExecAdapter::new();
    adapter.send_order(b"warmup".to_vec()).unwrap();
    adapter.reset_order_id_counter();
    let ack1 = adapter.send_order(b"a".to_vec()).unwrap();
    let ack2 = adapter.send_order(b"b".to_vec()).unwrap();
    assert_eq!(ack1.order_id, 1);
    assert_eq!(ack2.order_id, 2);
    assert!(ack1.accepted);
    assert!(ack2.accepted);
}

#[test]
fn test_empty_order_leaves_ids_unchanged() {
    let mut adapter = ExecAdapter::new();
    assert!(adapter.send_order(vec![]).is_err());
    let ack = adapter.send_order(b"first real order".to_vec()).unwrap();
    assert_eq!(ack.order_id, 1);
}

#[test]
fn test_next_order_id_counts_up() {
    let mut adapter = ExecAdapter::new();
    assert_eq!(adapter.next_order_id(), 1);
    assert_eq!(adapter.next_order_id(), 2);
    assert_eq!(adapter.next_order_id(), 3);
}
