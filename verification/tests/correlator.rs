use mcp_bridge::correlator::{correlate, on_notification, Disposition};
use mcp_bridge::envelope::Envelope;
use mcp_bridge::notification::Notification;
use mcp_bridge::registry::PendingRegistry;
use serde_json::Value;
use tokio::sync::oneshot::error::TryRecvError;

#[test]
fn matching_notification_resolves_the_execution() {
    let mut registry = PendingRegistry::new();
    let mut receiver = registry.register("abc".to_string());
    let d = on_notification(&mut registry, "abc", r#"{"exec_id":"abc","success":true,"data":2}"#);
    assert_eq!(d, Disposition::Resolved);
    assert!(registry.is_empty());
    assert_eq!(receiver.try_recv(), Ok(Envelope::Success { data: Some(Value::from(2)) }));
}

#[test]
fn remote_exception_resolves_with_its_message() {
    let mut registry = PendingRegistry::new();
    let mut receiver = registry.register("abc".to_string());
    let raw = r#"{"exec_id":"abc","success":false,"data":null,"error":"x is not defined"}"#;
    assert_eq!(on_notification(&mut registry, "abc", raw), Disposition::Resolved);
    assert_eq!(
        receiver.try_recv(),
        Ok(Envelope::Failure { error: "x is not defined".to_string() })
    );
}

#[test]
fn notification_without_success_resolves_as_unknown_error() {
    let mut registry = PendingRegistry::new();
    let mut receiver = registry.register("abc".to_string());
    assert_eq!(on_notification(&mut registry, "abc", r#"{"exec_id":"abc"}"#), Disposition::Resolved);
    assert_eq!(receiver.try_recv(), Ok(Envelope::Failure { error: "Unknown error".to_string() }));
}

#[test]
fn foreign_token_leaves_the_execution_waiting() {
    let mut registry = PendingRegistry::new();
    let mut receiver = registry.register("abc".to_string());
    let d = on_notification(&mut registry, "abc", r#"{"exec_id":"xyz","success":true,"data":2}"#);
    assert_eq!(d, Disposition::Foreign);
    assert!(registry.contains("abc"));
    assert_eq!(registry.len(), 1);
    assert_eq!(receiver.try_recv(), Err(TryRecvError::Empty));
}

#[test]
fn foreign_subscription_leaves_the_named_execution_waiting() {
    let mut registry = PendingRegistry::new();
    let mut abc = registry.register("abc".to_string());
    let mut xyz = registry.register("xyz".to_string());
    let d = on_notification(&mut registry, "xyz", r#"{"exec_id":"abc","success":true}"#);
    assert_eq!(d, Disposition::Foreign);
    assert_eq!(registry.len(), 2);
    assert_eq!(abc.try_recv(), Err(TryRecvError::Empty));
    assert_eq!(xyz.try_recv(), Err(TryRecvError::Empty));
}

#[test]
fn unparsable_payload_is_ignored() {
    let mut registry = PendingRegistry::new();
    let mut receiver = registry.register("abc".to_string());
    for raw in
        ["", "{", "abc", "null", "[\"abc\"]", "\"abc\"", "{\"exec_id\":\"abc\"", "{\"exec_id\":\"abc\"}}"]
    {
        assert_eq!(on_notification(&mut registry, "abc", raw), Disposition::Malformed, "{:?}", raw);
    }
    assert!(registry.contains("abc"));
    assert_eq!(receiver.try_recv(), Err(TryRecvError::Empty));
}

#[test]
fn payload_without_a_token_is_ignored() {
    let mut registry = PendingRegistry::new();
    let mut receiver = registry.register("abc".to_string());
    for raw in [
        "{}",
        r#"{"success":true,"data":1}"#,
        r#"{"exec_id":7,"success":true}"#,
        r#"{"exec_id":null}"#,
        r#"{"exec_id":["abc"]}"#,
        r#"{"exec_id":{"id":"abc"}}"#,
        r#"{"execId":"abc"}"#,
    ] {
        assert_eq!(on_notification(&mut registry, "abc", raw), Disposition::Unaddressed, "{:?}", raw);
    }
    assert!(registry.contains("abc"));
    assert_eq!(receiver.try_recv(), Err(TryRecvError::Empty));
}

#[test]
fn second_notification_is_late() {
    let mut registry = PendingRegistry::new();
    let mut receiver = registry.register("abc".to_string());
    let first = r#"{"exec_id":"abc","success":true,"data":1}"#;
    let second = r#"{"exec_id":"abc","success":true,"data":2}"#;
    assert_eq!(on_notification(&mut registry, "abc", first), Disposition::Resolved);
    assert_eq!(on_notification(&mut registry, "abc", second), Disposition::Late);
    assert_eq!(receiver.try_recv(), Ok(Envelope::Success { data: Some(Value::from(1)) }));
    assert!(registry.is_empty());
}

#[test]
fn notification_for_an_unregistered_token_is_late() {
    let mut registry = PendingRegistry::new();
    let _other = registry.register("xyz".to_string());
    let d = on_notification(&mut registry, "abc", r#"{"exec_id":"abc","success":true}"#);
    assert_eq!(d, Disposition::Late);
    assert_eq!(registry.len(), 1);
}

#[test]
fn notification_after_a_discard_is_late() {
    let mut registry = PendingRegistry::new();
    let mut receiver = registry.register("abc".to_string());
    drop(registry.take("abc"));
    let d = on_notification(&mut registry, "abc", r#"{"exec_id":"abc","success":true}"#);
    assert_eq!(d, Disposition::Late);
    assert!(registry.is_empty());
    assert_eq!(receiver.try_recv(), Err(TryRecvError::Closed));
}

#[test]
fn each_execution_gets_its_own_result_out_of_order() {
    let mut registry = PendingRegistry::new();
    let tokens = ["t0", "t1", "t2", "t3", "t4"];
    let mut receivers = Vec::new();
    for token in tokens {
        receivers.push(registry.register(token.to_string()));
    }
    for i in [3usize, 0, 4, 2, 1] {
        let raw = format!(r#"{{"exec_id":"t{}","success":true,"data":{}}}"#, i, i * 10);
        for (j, token) in tokens.iter().enumerate() {
            let d = on_notification(&mut registry, token, &raw);
            if i == j {
                assert_eq!(d, Disposition::Resolved);
            } else {
                assert_eq!(d, Disposition::Foreign);
            }
        }
    }
    assert!(registry.is_empty());
    for (i, receiver) in receivers.iter_mut().enumerate() {
        assert_eq!(
            receiver.try_recv(),
            Ok(Envelope::Success { data: Some(Value::from(i * 10)) })
        );
    }
}

#[test]
fn correlate_takes_a_notification_as_it_stands() {
    let mut registry = PendingRegistry::new();
    let mut receiver = registry.register("abc".to_string());
    let unaddressed =
        Notification { exec_id: None, success: Some(true), data: None, error: None };
    assert_eq!(correlate(&mut registry, "abc", unaddressed), Disposition::Unaddressed);
    let foreign = Notification {
        exec_id: Some("abd".to_string()),
        success: Some(true),
        data: None,
        error: None,
    };
    assert_eq!(correlate(&mut registry, "abc", foreign), Disposition::Foreign);
    assert_eq!(receiver.try_recv(), Err(TryRecvError::Empty));
    let matching = Notification {
        exec_id: Some("abc".to_string()),
        success: Some(true),
        data: Some(Value::Bool(true)),
        error: Some("unused".to_string()),
    };
    assert_eq!(correlate(&mut registry, "abc", matching), Disposition::Resolved);
    assert_eq!(receiver.try_recv(), Ok(Envelope::Success { data: Some(Value::Bool(true)) }));
    let late = Notification {
        exec_id: Some("abc".to_string()),
        success: Some(true),
        data: None,
        error: None,
    };
    assert_eq!(correlate(&mut registry, "abc", late), Disposition::Late);
}
