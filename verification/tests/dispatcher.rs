use mcp_bridge::correlator::{on_notification, Disposition};
use mcp_bridge::dispatcher::{Execution, Phase, WAIT_SECONDS};
use mcp_bridge::envelope::Envelope;
use mcp_bridge::registry::PendingRegistry;
use mcp_bridge::script::build_injected_script;
use serde_json::Value;
use tokio::sync::oneshot::error::TryRecvError;

fn payload(token: &str, data: i64) -> String {
    format!(r#"{{"exec_id":"{}","success":true,"data":{}}}"#, token, data)
}

fn timeout() -> Envelope {
    Envelope::Failure { error: "Script execution timeout".to_string() }
}

#[test]
fn wait_is_five_seconds() {
    assert_eq!(WAIT_SECONDS, 5);
}

#[test]
fn new_execution_is_created_with_a_fresh_token() {
    let a = Execution::new();
    let b = Execution::new();
    assert_eq!(a.phase(), Phase::Created);
    assert_eq!(a.token().len(), 36);
    assert_ne!(a.token(), b.token());
}

#[test]
fn script_wraps_the_prepared_snippet_with_the_token() {
    let execution = Execution::new();
    assert_eq!(
        execution.script(" 1+1 "),
        build_injected_script(execution.token(), "return 1+1")
    );
    assert_eq!(
        execution.script("let x = 1; x"),
        build_injected_script(execution.token(), "let x = 1; x")
    );
    assert!(execution.script("1").contains(&format!("exec_id: '{}'", execution.token())));
}

#[test]
fn delivery_resolves_the_execution() {
    let mut registry = PendingRegistry::new();
    let mut execution = Execution::new();
    let mut receiver = execution.register(&mut registry).unwrap();
    assert_eq!(execution.phase(), Phase::Registered);
    assert!(registry.contains(execution.token()));
    assert_eq!(registry.len(), 1);
    assert!(execution.injection_accepted());
    assert_eq!(execution.phase(), Phase::Injected);
    let raw = payload(execution.token(), 2);
    assert_eq!(on_notification(&mut registry, execution.token(), &raw), Disposition::Resolved);
    let outcome = receiver.try_recv().unwrap();
    let envelope = execution.delivered(outcome);
    assert_eq!(envelope, Some(Envelope::Success { data: Some(Value::from(2)) }));
    assert_eq!(execution.phase(), Phase::Resolved);
    assert!(registry.is_empty());
    assert!(execution.unsubscribed());
    assert_eq!(execution.phase(), Phase::Cleaned);
}

#[test]
fn refused_injection_fails_without_a_wait() {
    let mut registry = PendingRegistry::new();
    let mut execution = Execution::new();
    let mut receiver = execution.register(&mut registry).unwrap();
    let envelope = execution.injection_failed(&mut registry, "webview not found");
    assert_eq!(
        envelope,
        Some(Envelope::Failure { error: "Failed to execute script: webview not found".to_string() })
    );
    assert_eq!(execution.phase(), Phase::InjectionFailed);
    assert!(registry.is_empty());
    assert_eq!(receiver.try_recv(), Err(TryRecvError::Closed));
    assert!(execution.unsubscribed());
    assert_eq!(execution.phase(), Phase::Cleaned);
}

#[test]
fn stray_notification_after_a_refused_injection_is_late() {
    let mut registry = PendingRegistry::new();
    let mut execution = Execution::new();
    let _receiver = execution.register(&mut registry).unwrap();
    assert!(execution.injection_failed(&mut registry, "no").is_some());
    let raw = payload(execution.token(), 1);
    assert_eq!(on_notification(&mut registry, execution.token(), &raw), Disposition::Late);
    assert!(registry.is_empty());
}

#[test]
fn timeout_fails_and_discards_the_entry() {
    let mut registry = PendingRegistry::new();
    let mut execution = Execution::new();
    let mut receiver = execution.register(&mut registry).unwrap();
    assert!(execution.injection_accepted());
    assert_eq!(receiver.try_recv(), Err(TryRecvError::Empty));
    assert_eq!(execution.timed_out(&mut registry), Some(timeout()));
    assert_eq!(execution.phase(), Phase::TimedOut);
    assert!(registry.is_empty());
    assert!(execution.unsubscribed());
    assert_eq!(execution.phase(), Phase::Cleaned);
}

#[test]
fn late_notification_after_a_timeout_has_no_effect() {
    let mut registry = PendingRegistry::new();
    let mut other = Execution::new();
    let mut other_receiver = other.register(&mut registry).unwrap();
    let mut execution = Execution::new();
    let mut receiver = execution.register(&mut registry).unwrap();
    assert!(execution.injection_accepted());
    assert_eq!(execution.timed_out(&mut registry), Some(timeout()));
    let raw = payload(execution.token(), 1);
    assert_eq!(on_notification(&mut registry, execution.token(), &raw), Disposition::Late);
    assert_eq!(on_notification(&mut registry, other.token(), &raw), Disposition::Foreign);
    assert_eq!(receiver.try_recv(), Err(TryRecvError::Closed));
    assert_eq!(other_receiver.try_recv(), Err(TryRecvError::Empty));
    assert_eq!(registry.len(), 1);
    assert!(registry.contains(other.token()));
    assert_eq!(execution.delivered(Envelope::Success { data: None }), None);
    assert_eq!(execution.phase(), Phase::TimedOut);
}

#[test]
fn notification_then_timeout_returns_one_envelope() {
    let mut registry = PendingRegistry::new();
    let mut execution = Execution::new();
    let mut receiver = execution.register(&mut registry).unwrap();
    assert!(execution.injection_accepted());
    let raw = payload(execution.token(), 7);
    assert_eq!(on_notification(&mut registry, execution.token(), &raw), Disposition::Resolved);
    assert_eq!(execution.timed_out(&mut registry), Some(timeout()));
    assert!(registry.is_empty());
    let outcome = receiver.try_recv().unwrap();
    assert_eq!(execution.delivered(outcome), None);
    assert_eq!(execution.channel_closed(), None);
    assert_eq!(execution.timed_out(&mut registry), None);
    assert_eq!(execution.phase(), Phase::TimedOut);
}

#[test]
fn timeout_then_notification_returns_one_envelope() {
    let mut registry = PendingRegistry::new();
    let mut execution = Execution::new();
    let _receiver = execution.register(&mut registry).unwrap();
    assert!(execution.injection_accepted());
    assert_eq!(execution.timed_out(&mut registry), Some(timeout()));
    let raw = payload(execution.token(), 7);
    assert_eq!(on_notification(&mut registry, execution.token(), &raw), Disposition::Late);
    assert!(registry.is_empty());
    assert_eq!(execution.delivered(Envelope::Success { data: Some(Value::from(7)) }), None);
    assert_eq!(execution.phase(), Phase::TimedOut);
}

#[test]
fn delivery_then_timeout_returns_one_envelope() {
    let mut registry = PendingRegistry::new();
    let mut execution = Execution::new();
    let mut receiver = execution.register(&mut registry).unwrap();
    assert!(execution.injection_accepted());
    let raw = payload(execution.token(), 7);
    assert_eq!(on_notification(&mut registry, execution.token(), &raw), Disposition::Resolved);
    let outcome = receiver.try_recv().unwrap();
    assert_eq!(execution.delivered(outcome), Some(Envelope::Success { data: Some(Value::from(7)) }));
    assert_eq!(execution.timed_out(&mut registry), None);
    assert_eq!(execution.phase(), Phase::Resolved);
    assert!(registry.is_empty());
}

#[test]
fn closed_channel_fails_the_execution() {
    let mut registry = PendingRegistry::new();
    let mut execution = Execution::new();
    let mut receiver = execution.register(&mut registry).unwrap();
    assert!(execution.injection_accepted());
    drop(registry.take(execution.token()));
    assert_eq!(receiver.try_recv(), Err(TryRecvError::Closed));
    assert_eq!(
        execution.channel_closed(),
        Some(Envelope::Failure { error: "Script execution failed: channel closed".to_string() })
    );
    assert_eq!(execution.phase(), Phase::ChannelClosed);
    assert!(execution.unsubscribed());
    assert_eq!(execution.phase(), Phase::Cleaned);
}

#[test]
fn events_that_do_not_fit_are_ignored() {
    let mut registry = PendingRegistry::new();
    let mut execution = Execution::new();
    assert!(!execution.injection_accepted());
    assert_eq!(execution.injection_failed(&mut registry, "no"), None);
    assert_eq!(execution.delivered(Envelope::Success { data: None }), None);
    assert_eq!(execution.channel_closed(), None);
    assert_eq!(execution.timed_out(&mut registry), None);
    assert!(!execution.unsubscribed());
    assert_eq!(execution.phase(), Phase::Created);

    let _receiver = execution.register(&mut registry).unwrap();
    assert!(execution.register(&mut registry).is_none());
    assert_eq!(registry.len(), 1);
    assert_eq!(execution.delivered(Envelope::Success { data: None }), None);
    assert_eq!(execution.channel_closed(), None);
    assert_eq!(execution.timed_out(&mut registry), None);
    assert!(!execution.unsubscribed());
    assert_eq!(execution.phase(), Phase::Registered);
    assert_eq!(registry.len(), 1);

    assert!(execution.injection_accepted());
    assert!(!execution.injection_accepted());
    assert_eq!(execution.injection_failed(&mut registry, "no"), None);
    assert!(!execution.unsubscribed());
    assert!(execution.register(&mut registry).is_none());
    assert_eq!(execution.phase(), Phase::Injected);
    assert_eq!(registry.len(), 1);

    assert!(execution.timed_out(&mut registry).is_some());
    assert!(execution.unsubscribed());
    assert!(!execution.unsubscribed());
    assert!(execution.register(&mut registry).is_none());
    assert!(!execution.injection_accepted());
    assert_eq!(execution.timed_out(&mut registry), None);
    assert_eq!(execution.phase(), Phase::Cleaned);
    assert!(registry.is_empty());
}

#[test]
fn concurrent_executions_each_get_their_own_result() {
    let mut registry = PendingRegistry::new();
    let mut executions = Vec::new();
    let mut receivers = Vec::new();
    for _ in 0..8 {
        let mut execution = Execution::new();
        receivers.push(execution.register(&mut registry).unwrap());
        assert!(execution.injection_accepted());
        executions.push(execution);
    }
    assert_eq!(registry.len(), 8);
    for i in [5usize, 0, 7, 3, 1, 6, 2, 4] {
        let raw = payload(executions[i].token(), i as i64);
        for (j, execution) in executions.iter().enumerate() {
            let d = on_notification(&mut registry, execution.token(), &raw);
            assert_eq!(d == Disposition::Resolved, i == j);
        }
    }
    assert!(registry.is_empty());
    for (i, execution) in executions.iter_mut().enumerate() {
        let outcome = receivers[i].try_recv().unwrap();
        assert_eq!(
            execution.delivered(outcome),
            Some(Envelope::Success { data: Some(Value::from(i as i64)) })
        );
        assert!(execution.unsubscribed());
    }
}
