use si_pkg::builtin::{
    begin, save_builtin_func, AccessBuilder, ComponentId, DevError, Func, FuncBackendKind, FuncId,
    HistoryActor, RequestContext, SaveAction, SaveBuiltinFuncRequest, SaveBuiltinFuncResponse,
    SaveEvent, SaveState, SchemaVariantId, Tenancy, Visibility, HEAD_CHANGE_SET_PK,
};

/// The access of an ordinary caller: one workspace, one user.
fn caller() -> AccessBuilder {
    AccessBuilder {
        read_tenancy: Tenancy::Workspace(11),
        write_tenancy: Tenancy::Workspace(11),
        history_actor: HistoryActor::User(5),
    }
}

/// The scope reserved for builtin content, written out.
fn reserved() -> RequestContext {
    RequestContext {
        access: AccessBuilder {
            read_tenancy: Tenancy::Universal,
            write_tenancy: Tenancy::Universal,
            history_actor: HistoryActor::SystemInit,
        },
        visibility: Visibility { change_set_pk: -1, deleted: false },
    }
}

fn request() -> SaveBuiltinFuncRequest {
    SaveBuiltinFuncRequest {
        id: FuncId(7),
        handler: Some("main".to_string()),
        kind: FuncBackendKind::JsAttribute,
        name: "si:setRegion".to_string(),
        description: None,
        code: Some("function main() { return 1; }".to_string()),
        schema_variants: vec![SchemaVariantId(1)],
        components: vec![ComponentId(2), ComponentId(3)],
        visibility: Visibility { change_set_pk: 42, deleted: false },
    }
}

fn stored() -> Func {
    Func {
        id: FuncId(7),
        display_name: None,
        description: Some("old description".to_string()),
        handler: None,
        backend_kind: FuncBackendKind::Unset,
        code: Some("old code".to_string()),
    }
}

fn updated() -> Func {
    Func {
        id: FuncId(7),
        display_name: Some("si:setRegion".to_string()),
        description: None,
        handler: Some("main".to_string()),
        backend_kind: FuncBackendKind::JsAttribute,
        code: Some("function main() { return 1; }".to_string()),
    }
}

/// Feeds the events to the update one by one and collects its actions.
fn drive(events: Vec<SaveEvent>) -> (SaveState, Vec<SaveAction>) {
    let request = request();
    let (mut state, first) = begin();
    let mut actions = vec![first];
    for event in events {
        let (next, action) = save_builtin_func(&caller(), &request, state, event);
        state = next;
        actions.push(action);
    }
    (state, actions)
}

#[test]
fn an_update_begins_with_the_transaction() {
    assert_eq!(begin(), (SaveState::AwaitingTransaction, SaveAction::StartTransaction));
}

#[test]
fn a_known_function_is_updated_and_answered_after_the_commit() {
    let (state, actions) = drive(vec![
        SaveEvent::TransactionStarted,
        SaveEvent::FuncLoaded(Some(stored())),
        SaveEvent::Persisted,
        SaveEvent::Published,
        SaveEvent::Committed,
    ]);
    assert_eq!(state, SaveState::Finished);
    assert_eq!(
        actions,
        vec![
            SaveAction::StartTransaction,
            SaveAction::LoadFunc(reserved(), FuncId(7)),
            SaveAction::Persist(reserved(), updated()),
            SaveAction::Publish(RequestContext {
                access: caller(),
                visibility: Visibility { change_set_pk: 42, deleted: false },
            }),
            SaveAction::Commit,
            SaveAction::Respond(SaveBuiltinFuncResponse { success: true }),
        ]
    );
}

#[test]
fn the_stored_code_is_the_code_of_the_request() {
    let (_, action) = save_builtin_func(
        &caller(),
        &request(),
        SaveState::AwaitingFunc,
        SaveEvent::FuncLoaded(Some(stored())),
    );
    match action {
        SaveAction::Persist(_, func) => {
            assert_eq!(func.code.as_deref(), Some("function main() { return 1; }"));
            assert_eq!(func.id, FuncId(7));
        }
        other => panic!("expected the function to be persisted, got {other:?}"),
    }
}

#[test]
fn an_unknown_function_is_not_found_and_nothing_is_persisted() {
    let (state, actions) = drive(vec![
        SaveEvent::TransactionStarted,
        SaveEvent::FuncLoaded(None),
        SaveEvent::Persisted,
        SaveEvent::Published,
        SaveEvent::Committed,
    ]);
    assert_eq!(state, SaveState::Finished);
    assert_eq!(
        actions,
        vec![
            SaveAction::StartTransaction,
            SaveAction::LoadFunc(reserved(), FuncId(7)),
            SaveAction::Fail(DevError::FuncNotFound),
            SaveAction::Nothing,
            SaveAction::Nothing,
            SaveAction::Nothing,
        ]
    );
}

#[test]
fn a_failed_step_fails_the_update() {
    let steps = vec![
        SaveEvent::TransactionStarted,
        SaveEvent::FuncLoaded(Some(stored())),
        SaveEvent::Persisted,
        SaveEvent::Published,
        SaveEvent::Committed,
    ];
    for failing in 0..steps.len() {
        let mut events: Vec<SaveEvent> = Vec::new();
        for (position, event) in [
            SaveEvent::TransactionStarted,
            SaveEvent::FuncLoaded(Some(stored())),
            SaveEvent::Persisted,
            SaveEvent::Published,
            SaveEvent::Committed,
        ]
        .into_iter()
        .enumerate()
        {
            if position < failing {
                events.push(event);
            }
        }
        events.push(SaveEvent::Failed);
        let (state, actions) = drive(events);
        assert_eq!(state, SaveState::Finished);
        assert_eq!(actions.last(), Some(&SaveAction::Fail(DevError::TransactionFailure)));
        assert!(!actions.iter().any(|action| matches!(action, SaveAction::Respond(_))));
    }
}

#[test]
fn an_event_out_of_turn_fails_the_update() {
    let request = request();
    assert_eq!(
        save_builtin_func(&caller(), &request, SaveState::AwaitingTransaction, SaveEvent::Committed),
        (SaveState::Finished, SaveAction::Fail(DevError::TransactionFailure))
    );
    assert_eq!(
        save_builtin_func(&caller(), &request, SaveState::AwaitingFunc, SaveEvent::Persisted),
        (SaveState::Finished, SaveAction::Fail(DevError::TransactionFailure))
    );
    assert_eq!(
        save_builtin_func(&caller(), &request, SaveState::AwaitingPersist, SaveEvent::Published),
        (SaveState::Finished, SaveAction::Fail(DevError::TransactionFailure))
    );
    assert_eq!(
        save_builtin_func(&caller(), &request, SaveState::AwaitingPublish, SaveEvent::Committed),
        (SaveState::Finished, SaveAction::Fail(DevError::TransactionFailure))
    );
    assert_eq!(
        save_builtin_func(
            &caller(),
            &request,
            SaveState::AwaitingCommit,
            SaveEvent::FuncLoaded(Some(stored()))
        ),
        (SaveState::Finished, SaveAction::Fail(DevError::TransactionFailure))
    );
}

#[test]
fn a_finished_update_does_nothing() {
    let request = request();
    for event in [
        SaveEvent::TransactionStarted,
        SaveEvent::FuncLoaded(Some(stored())),
        SaveEvent::FuncLoaded(None),
        SaveEvent::Persisted,
        SaveEvent::Published,
        SaveEvent::Committed,
        SaveEvent::Failed,
    ] {
        assert_eq!(
            save_builtin_func(&caller(), &request, SaveState::Finished, event),
            (SaveState::Finished, SaveAction::Nothing)
        );
    }
}

#[test]
fn applying_a_request_twice_is_applying_it_once() {
    let request = request();
    let once = stored().updated(&request);
    assert_eq!(once, updated());
    let twice = stored().updated(&request).updated(&request);
    assert_eq!(twice, once);
}

#[test]
fn an_update_keeps_the_identifier_of_the_stored_function() {
    let mut other = stored();
    other.id = FuncId(99);
    let func = other.updated(&request());
    assert_eq!(func.id, FuncId(99));
    assert_eq!(func.display_name.as_deref(), Some("si:setRegion"));
    assert_eq!(func.description, None);
    assert_eq!(func.handler.as_deref(), Some("main"));
    assert_eq!(func.backend_kind, FuncBackendKind::JsAttribute);
}

#[test]
fn the_reserved_scope_is_universal_system_and_head() {
    assert_eq!(HEAD_CHANGE_SET_PK, -1);
    assert_eq!(Visibility::new_head(false), Visibility { change_set_pk: -1, deleted: false });
    assert_eq!(Visibility::new_head(true), Visibility { change_set_pk: -1, deleted: true });
    assert_eq!(AccessBuilder::universal(), reserved().access);
    assert_eq!(RequestContext::builtin(), reserved());
    assert_eq!(
        caller().build(Visibility { change_set_pk: 3, deleted: true }),
        RequestContext { access: caller(), visibility: Visibility { change_set_pk: 3, deleted: true } }
    );
}

#[test]
fn load_and_persist_run_in_the_reserved_scope_whoever_asks() {
    let request = request();
    let system = AccessBuilder::universal();
    for access in [caller(), system] {
        assert_eq!(
            save_builtin_func(
                &access,
                &request,
                SaveState::AwaitingTransaction,
                SaveEvent::TransactionStarted
            ),
            (SaveState::AwaitingFunc, SaveAction::LoadFunc(reserved(), FuncId(7)))
        );
        assert_eq!(
            save_builtin_func(
                &access,
                &request,
                SaveState::AwaitingFunc,
                SaveEvent::FuncLoaded(Some(stored()))
            ),
            (SaveState::AwaitingPersist, SaveAction::Persist(reserved(), updated()))
        );
    }
}

#[test]
fn the_notification_goes_out_in_the_scope_of_the_caller() {
    let request = request();
    assert_eq!(
        save_builtin_func(&caller(), &request, SaveState::AwaitingPersist, SaveEvent::Persisted),
        (
            SaveState::AwaitingPublish,
            SaveAction::Publish(RequestContext {
                access: caller(),
                visibility: Visibility { change_set_pk: 42, deleted: false },
            })
        )
    );
    let other = AccessBuilder {
        read_tenancy: Tenancy::Workspace(12),
        write_tenancy: Tenancy::Workspace(12),
        history_actor: HistoryActor::User(6),
    };
    assert_eq!(
        save_builtin_func(&other, &request, SaveState::AwaitingPersist, SaveEvent::Persisted).1,
        SaveAction::Publish(other.build(request.visibility))
    );
}
