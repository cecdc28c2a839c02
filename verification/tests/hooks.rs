use deepomni::hooks::{
    collect_context, collect_outcomes, Hook, HookDispatcher, HookHandler, HookOutcome, HookPoint,
    LoggingHook,
};

struct TestHook;

impl TestHook {
    fn run(&self) -> Result<HookOutcome, String> {
        Ok(HookOutcome::InjectContext { content: "test context".into() })
    }
}

fn meta(id: &str, point: HookPoint, plugin: Option<&str>) -> Hook {
    Hook {
        id: id.to_string(),
        name: "Test Hook".into(),
        hook_points: vec![point],
        plugin_id: plugin.map(|p| p.to_string()),
        timeout_ms: 5000,
    }
}

fn run_all(dispatcher: &HookDispatcher<TestHook>, point: HookPoint) -> Vec<HookOutcome> {
    let runs = dispatcher
        .dispatch(point)
        .iter()
        .map(|(id, _)| dispatcher.handler(id).map(|h| h.handler.run()))
        .collect();
    collect_outcomes(runs)
}

#[test]
fn test_dispatch_hook() {
    let mut dispatcher = HookDispatcher::new();
    dispatcher.register(meta("test.1", HookPoint::BeforeToolCall, None), TestHook);
    assert_eq!(
        dispatcher.dispatch(HookPoint::BeforeToolCall),
        vec![("test.1".to_string(), 5000)]
    );
    let outcomes = run_all(&dispatcher, HookPoint::BeforeToolCall);
    assert_eq!(outcomes.len(), 1);
    assert!(matches!(outcomes[0], HookOutcome::InjectContext { .. }));
}

#[test]
fn test_dispatch_no_matching_hooks() {
    let mut dispatcher = HookDispatcher::new();
    dispatcher.register(meta("test.2", HookPoint::BeforeToolCall, None), TestHook);
    let outcomes = run_all(&dispatcher, HookPoint::SessionStop);
    assert!(outcomes.is_empty());
}

#[test]
fn test_remove_plugin_hooks() {
    let mut dispatcher = HookDispatcher::new();
    dispatcher.register(
        meta("myplugin.hook", HookPoint::TurnCompleted, Some("myplugin")),
        TestHook,
    );
    assert_eq!(dispatcher.hook_count(), 1);
    let removed = dispatcher.remove_plugin_hooks("myplugin");
    assert_eq!(removed, 1);
    assert_eq!(dispatcher.hook_count(), 0);
    assert!(dispatcher.dispatch(HookPoint::TurnCompleted).is_empty());
}

#[test]
fn failures_and_timeouts_do_not_stop_the_other_hooks() {
    let outcomes = collect_outcomes(vec![
        Some(Ok(HookOutcome::InjectContext { content: "a".into() })),
        Some(Err("boom".into())),
        None,
        Some(Ok(HookOutcome::Done)),
        Some(Ok(HookOutcome::InjectContext { content: "b".into() })),
    ]);
    assert_eq!(outcomes.len(), 3);
    assert_eq!(collect_context(&outcomes), "a\nb\n");
    assert!(outcomes
        .iter()
        .any(|o| matches!(o, HookOutcome::InjectContext { content } if content == "b")));
}

#[test]
fn the_logging_hook_listens() {
    let hook = LoggingHook::new();
    assert!(!hook.metadata().hook_points.is_empty());
}
