//! The decisions of the update of a builtin function.
//!
//! A builtin function is owned by the platform, and is edited in a reserved
//! scope: with read and write access across all tenants, as the system, at
//! head. The update runs inside one transaction: load the function, apply
//! the request to it, persist it, queue the notification that content has
//! changed, and commit. The commit makes the stored change and the
//! notification visible together; any failure before it leaves neither.
//!
//! The function is loaded and persisted in the reserved scope, whoever asks.
//! Only the notification goes out in the scope of the caller: with the
//! caller's access and the visibility of the request.
//!
//! What is decided here is which step comes next. Performing a step (talking
//! to the store) is the caller's part: it
//! starts with [`begin`], performs the action it is given, and hands what
//! happened to [`save_builtin_func`], until the action is a response or a
//! failure.

use vstd::prelude::*;

use crate::node::clone_string_option;

verus! {

/// The identifier of a function.
#[derive(Clone, Copy, Debug, PartialEq, Eq, Structural)]
pub struct FuncId(pub i64);

/// The identifier of a schema variant.
#[derive(Clone, Copy, Debug, PartialEq, Eq, Structural)]
pub struct SchemaVariantId(pub i64);

/// The identifier of a component.
#[derive(Clone, Copy, Debug, PartialEq, Eq, Structural)]
pub struct ComponentId(pub i64);

/// Which engine runs a stored function.
#[derive(Clone, Copy, Debug, PartialEq, Eq, Structural)]
pub enum FuncBackendKind {
    Identity,
    JsAttribute,
    JsCommand,
    JsValidation,
    JsWorkflow,
    Unset,
}

/// The change set that stands for head: content that belongs to no change
/// set.
pub const HEAD_CHANGE_SET_PK: i64 = -1;

/// The change set in which the caller works, and whether it looks at deleted
/// content.
#[derive(Clone, Copy, Debug, PartialEq, Eq, Structural)]
pub struct Visibility {
    pub change_set_pk: i64,
    pub deleted: bool,
}

impl Visibility {
    /// The visibility of head.
    pub open spec fn spec_new_head(deleted: bool) -> Visibility {
        Visibility { change_set_pk: HEAD_CHANGE_SET_PK, deleted }
    }

    /// The visibility of head.
    pub fn new_head(deleted: bool) -> (visibility: Visibility)
        ensures
            visibility == Self::spec_new_head(deleted),
    {
        Visibility { change_set_pk: HEAD_CHANGE_SET_PK, deleted }
    }
}

/// Whose content may be read or written.
#[derive(Clone, Copy, Debug, PartialEq, Eq, Structural)]
pub enum Tenancy {
    /// The content of every tenant, and of the platform.
    Universal,
    /// The content of one workspace.
    Workspace(i64),
}

/// On whose behalf a change is made.
#[derive(Clone, Copy, Debug, PartialEq, Eq, Structural)]
pub enum HistoryActor {
    SystemInit,
    User(i64),
}

/// What a caller may read and write, and who the caller is.
#[derive(Clone, Copy, Debug, PartialEq, Eq, Structural)]
pub struct AccessBuilder {
    pub read_tenancy: Tenancy,
    pub write_tenancy: Tenancy,
    pub history_actor: HistoryActor,
}

/// The scope of one access to the store: who asks, and what is visible.
#[derive(Clone, Copy, Debug, PartialEq, Eq, Structural)]
pub struct RequestContext {
    pub access: AccessBuilder,
    pub visibility: Visibility,
}

impl AccessBuilder {
    /// The access that is reserved for builtin content: read and write
    /// across all tenants, as the system.
    pub open spec fn spec_universal() -> AccessBuilder {
        AccessBuilder {
            read_tenancy: Tenancy::Universal,
            write_tenancy: Tenancy::Universal,
            history_actor: HistoryActor::SystemInit,
        }
    }

    /// The access that is reserved for builtin content.
    pub fn universal() -> (access: AccessBuilder)
        ensures
            access == Self::spec_universal(),
    {
        AccessBuilder {
            read_tenancy: Tenancy::Universal,
            write_tenancy: Tenancy::Universal,
            history_actor: HistoryActor::SystemInit,
        }
    }

    /// The scope of this access under the given visibility.
    pub fn build(self, visibility: Visibility) -> (context: RequestContext)
        ensures
            context == (RequestContext { access: self, visibility }),
    {
        RequestContext { access: self, visibility }
    }
}

impl RequestContext {
    /// The scope in which builtin functions are loaded and persisted: the
    /// reserved access, at head, without deleted content.
    pub open spec fn spec_builtin() -> RequestContext {
        RequestContext {
            access: AccessBuilder::spec_universal(),
            visibility: Visibility::spec_new_head(false),
        }
    }

    /// The scope in which builtin functions are loaded and persisted.
    pub fn builtin() -> (context: RequestContext)
        ensures
            context == Self::spec_builtin(),
    {
        AccessBuilder::universal().build(Visibility::new_head(false))
    }
}

/// The request to update one builtin function.
#[derive(Debug, PartialEq, Eq)]
pub struct SaveBuiltinFuncRequest {
    pub id: FuncId,
    pub handler: Option<String>,
    pub kind: FuncBackendKind,
    pub name: String,
    pub description: Option<String>,
    pub code: Option<String>,
    pub schema_variants: Vec<SchemaVariantId>,
    pub components: Vec<ComponentId>,
    pub visibility: Visibility,
}

/// The response to a successful update.
#[derive(Clone, Copy, Debug, PartialEq, Eq, Structural)]
pub struct SaveBuiltinFuncResponse {
    pub success: bool,
}

/// Why an update failed.
#[derive(Clone, Copy, Debug, PartialEq, Eq, Structural)]
pub enum DevError {
    /// The identifier names no function.
    FuncNotFound,
    /// A step of the transaction failed, or was reported out of turn; nothing
    /// was committed.
    TransactionFailure,
}

/// A stored function, as far as the update touches it.
#[derive(Debug, PartialEq, Eq)]
pub struct Func {
    pub id: FuncId,
    pub display_name: Option<String>,
    pub description: Option<String>,
    pub handler: Option<String>,
    pub backend_kind: FuncBackendKind,
    pub code: Option<String>,
}

impl Func {
    /// The function after the request was applied to it: it keeps its
    /// identifier and takes everything else from the request.
    pub open spec fn spec_updated(self, request: SaveBuiltinFuncRequest) -> Func {
        Func {
            id: self.id,
            display_name: Some(request.name),
            description: request.description,
            handler: request.handler,
            backend_kind: request.kind,
            code: request.code,
        }
    }

    /// Applies the request to the function.
    pub fn updated(self, request: &SaveBuiltinFuncRequest) -> (func: Func)
        ensures
            func == self.spec_updated(*request),
    {
        Func {
            id: self.id,
            display_name: Some(request.name.clone()),
            description: clone_string_option(&request.description),
            handler: clone_string_option(&request.handler),
            backend_kind: request.kind,
            code: clone_string_option(&request.code),
        }
    }
}

/// What the update waits for.
#[derive(Clone, Copy, Debug, PartialEq, Eq, Structural)]
pub enum SaveState {
    AwaitingTransaction,
    AwaitingFunc,
    AwaitingPersist,
    AwaitingPublish,
    AwaitingCommit,
    Finished,
}

/// What happened outside.
#[derive(Debug, PartialEq, Eq)]
pub enum SaveEvent {
    /// The transaction was started.
    TransactionStarted,
    /// The function was looked up: found, or not.
    FuncLoaded(Option<Func>),
    /// The function was written to the store.
    Persisted,
    /// The notification was queued in the transaction.
    Published,
    /// The transaction was committed.
    Committed,
    /// The step failed.
    Failed,
}

/// What to do next.
#[derive(Debug, PartialEq, Eq)]
pub enum SaveAction {
    /// Start the transaction.
    StartTransaction,
    /// Look the function up, in the given scope.
    LoadFunc(RequestContext, FuncId),
    /// Write the function to the store, in the given scope.
    Persist(RequestContext, Func),
    /// Queue, in the given scope, the notification that content has changed.
    /// It goes out when the transaction commits.
    Publish(RequestContext),
    /// Commit the transaction.
    Commit,
    /// Answer the request.
    Respond(SaveBuiltinFuncResponse),
    /// Give the transaction up and fail the request.
    Fail(DevError),
    /// The update is over: do nothing.
    Nothing,
}

/// The first step of an update: start the transaction.
pub fn begin() -> (first: (SaveState, SaveAction))
    ensures
        first == (SaveState::AwaitingTransaction, SaveAction::StartTransaction),
{
    (SaveState::AwaitingTransaction, SaveAction::StartTransaction)
}

/// The next state and the next action, given who asks, what the update
/// waited for and what happened. The function is loaded and persisted in the
/// scope reserved for builtin content, whoever asks; the notification is
/// queued with the caller's access and the visibility of the request. An
/// update that is over stays over. A failure, or an event other than the one
/// that was waited for, ends the update with `TransactionFailure`; a function
/// that was not found ends it with `FuncNotFound`.
pub open spec fn step(
    request_ctx: AccessBuilder,
    request: SaveBuiltinFuncRequest,
    state: SaveState,
    event: SaveEvent,
) -> (SaveState, SaveAction) {
    match (state, event) {
        (SaveState::Finished, _) => (SaveState::Finished, SaveAction::Nothing),
        (SaveState::AwaitingTransaction, SaveEvent::TransactionStarted) => (
            SaveState::AwaitingFunc,
            SaveAction::LoadFunc(RequestContext::spec_builtin(), request.id),
        ),
        (SaveState::AwaitingFunc, SaveEvent::FuncLoaded(Some(func))) => (
            SaveState::AwaitingPersist,
            SaveAction::Persist(RequestContext::spec_builtin(), func.spec_updated(request)),
        ),
        (SaveState::AwaitingFunc, SaveEvent::FuncLoaded(None)) => (
            SaveState::Finished,
            SaveAction::Fail(DevError::FuncNotFound),
        ),
        (SaveState::AwaitingPersist, SaveEvent::Persisted) => (
            SaveState::AwaitingPublish,
            SaveAction::Publish(
                RequestContext { access: request_ctx, visibility: request.visibility },
            ),
        ),
        (SaveState::AwaitingPublish, SaveEvent::Published) => (
            SaveState::AwaitingCommit,
            SaveAction::Commit,
        ),
        (SaveState::AwaitingCommit, SaveEvent::Committed) => (
            SaveState::Finished,
            SaveAction::Respond(SaveBuiltinFuncResponse { success: true }),
        ),
        _ => (SaveState::Finished, SaveAction::Fail(DevError::TransactionFailure)),
    }
}

/// Decides the next step of the update of a builtin function that the
/// caller with access `request_ctx` has asked for.
pub fn save_builtin_func(
    request_ctx: &AccessBuilder,
    request: &SaveBuiltinFuncRequest,
    state: SaveState,
    event: SaveEvent,
) -> (next: (SaveState, SaveAction))
    ensures
        next == step(*request_ctx, *request, state, event),
{
    match state {
        SaveState::Finished => (SaveState::Finished, SaveAction::Nothing),
        SaveState::AwaitingTransaction => match event {
            SaveEvent::TransactionStarted => (
                SaveState::AwaitingFunc,
                SaveAction::LoadFunc(RequestContext::builtin(), request.id),
            ),
            _ => (SaveState::Finished, SaveAction::Fail(DevError::TransactionFailure)),
        },
        SaveState::AwaitingFunc => match event {
            SaveEvent::FuncLoaded(Some(func)) => (
                SaveState::AwaitingPersist,
                SaveAction::Persist(RequestContext::builtin(), func.updated(request)),
            ),
            SaveEvent::FuncLoaded(None) => (
                SaveState::Finished,
                SaveAction::Fail(DevError::FuncNotFound),
            ),
            _ => (SaveState::Finished, SaveAction::Fail(DevError::TransactionFailure)),
        },
        SaveState::AwaitingPersist => match event {
            SaveEvent::Persisted => (
                SaveState::AwaitingPublish,
                SaveAction::Publish(request_ctx.build(request.visibility)),
            ),
            _ => (SaveState::Finished, SaveAction::Fail(DevError::TransactionFailure)),
        },
        SaveState::AwaitingPublish => match event {
            SaveEvent::Published => (SaveState::AwaitingCommit, SaveAction::Commit),
            _ => (SaveState::Finished, SaveAction::Fail(DevError::TransactionFailure)),
        },
        SaveState::AwaitingCommit => match event {
            SaveEvent::Committed => (
                SaveState::Finished,
                SaveAction::Respond(SaveBuiltinFuncResponse { success: true }),
            ),
            _ => (SaveState::Finished, SaveAction::Fail(DevError::TransactionFailure)),
        },
    }
}

/// The actions that an update takes, from `state` on, as the events come in:
/// one action for each event.
pub open spec fn run(
    request_ctx: AccessBuilder,
    request: SaveBuiltinFuncRequest,
    state: SaveState,
    events: Seq<SaveEvent>,
) -> Seq<SaveAction>
    decreases events.len(),
{
    if events.len() == 0 {
        Seq::empty()
    } else {
        let (next, action) = step(request_ctx, request, state, events[0]);
        seq![action] + run(request_ctx, request, next, events.drop_first())
    }
}

/// Applying a request twice changes nothing beyond applying it once.
pub proof fn lemma_update_is_idempotent(func: Func, request: SaveBuiltinFuncRequest)
    ensures
        func.spec_updated(request).spec_updated(request) == func.spec_updated(request),
        func.spec_updated(request).id == func.id,
{
}

/// Once an update is over, it does nothing, whatever is reported to it.
pub proof fn lemma_finished_does_nothing(
    request_ctx: AccessBuilder,
    request: SaveBuiltinFuncRequest,
    events: Seq<SaveEvent>,
)
    ensures
        run(request_ctx, request, SaveState::Finished, events).len() == events.len(),
        forall|k: int|
            0 <= k < events.len() ==> #[trigger] run(request_ctx, request, SaveState::Finished, events)[k]
                == SaveAction::Nothing,
    decreases events.len(),
{
    if events.len() > 0 {
        lemma_finished_does_nothing(request_ctx, request, events.drop_first());
        let rest = run(request_ctx, request, SaveState::Finished, events.drop_first());
        assert forall|k: int| 0 <= k < events.len() implies #[trigger] run(
            request_ctx,
            request,
            SaveState::Finished,
            events,
        )[k] == SaveAction::Nothing by {
            if k > 0 {
                assert(run(request_ctx, request, SaveState::Finished, events)[k] == rest[k - 1]);
            }
        }
    }
}

/// An identifier that names no function fails the update with
/// `FuncNotFound`, and nothing is persisted, published or committed
/// afterwards, whatever else is reported.
pub proof fn lemma_unknown_function_persists_nothing(
    request_ctx: AccessBuilder,
    request: SaveBuiltinFuncRequest,
    events: Seq<SaveEvent>,
)
    requires
        events.len() > 0,
        events[0] == SaveEvent::FuncLoaded(None),
    ensures
        run(request_ctx, request, SaveState::AwaitingFunc, events).len() == events.len(),
        run(request_ctx, request, SaveState::AwaitingFunc, events)[0] == SaveAction::Fail(
            DevError::FuncNotFound,
        ),
        forall|k: int|
            1 <= k < events.len() ==> #[trigger] run(request_ctx, request, SaveState::AwaitingFunc, events)[k]
                == SaveAction::Nothing,
{
    let rest = run(request_ctx, request, SaveState::Finished, events.drop_first());
    lemma_finished_does_nothing(request_ctx, request, events.drop_first());
    assert forall|k: int| 1 <= k < events.len() implies #[trigger] run(
        request_ctx,
        request,
        SaveState::AwaitingFunc,
        events,
    )[k] == SaveAction::Nothing by {
        assert(run(request_ctx, request, SaveState::AwaitingFunc, events)[k] == rest[k - 1]);
    }
}

/// Success is answered only to the report that the transaction was
/// committed, by an update that was waiting for the commit; and a function is
/// persisted only as the request applied to the function that was found.
pub proof fn lemma_success_only_after_commit(
    request_ctx: AccessBuilder,
    request: SaveBuiltinFuncRequest,
    state: SaveState,
    event: SaveEvent,
)
    ensures
        step(request_ctx, request, state, event).1 is Respond ==> state == SaveState::AwaitingCommit && event
            == SaveEvent::Committed && step(request_ctx, request, state, event).1 == SaveAction::Respond(
            SaveBuiltinFuncResponse { success: true },
        ),
        step(request_ctx, request, state, event).1 matches SaveAction::Persist(_, stored) ==> state
            == SaveState::AwaitingFunc && (event matches SaveEvent::FuncLoaded(Some(found))
            && stored == found.spec_updated(request)),
        step(request_ctx, request, state, event).0 == SaveState::AwaitingCommit ==> state
            == SaveState::AwaitingPublish,
        step(request_ctx, request, state, event).0 == SaveState::AwaitingPublish ==> state
            == SaveState::AwaitingPersist,
        step(request_ctx, request, state, event).0 == SaveState::AwaitingPersist ==> state
            == SaveState::AwaitingFunc,
{
}

/// An update of a function that is found, in which every step succeeds,
/// loads and persists in the reserved scope, persists the request applied to
/// the function that was found, queues the notification with the caller's
/// access and the visibility of the request, commits, and answers success
/// last.
pub proof fn lemma_known_function_is_updated(
    request_ctx: AccessBuilder,
    request: SaveBuiltinFuncRequest,
    found: Func,
)
    ensures
        run(
            request_ctx,
            request,
            SaveState::AwaitingTransaction,
            seq![
                SaveEvent::TransactionStarted,
                SaveEvent::FuncLoaded(Some(found)),
                SaveEvent::Persisted,
                SaveEvent::Published,
                SaveEvent::Committed,
            ],
        ) == seq![
            SaveAction::LoadFunc(RequestContext::spec_builtin(), request.id),
            SaveAction::Persist(RequestContext::spec_builtin(), found.spec_updated(request)),
            SaveAction::Publish(RequestContext { access: request_ctx, visibility: request.visibility }),
            SaveAction::Commit,
            SaveAction::Respond(SaveBuiltinFuncResponse { success: true }),
        ],
{
    let events = seq![
        SaveEvent::TransactionStarted,
        SaveEvent::FuncLoaded(Some(found)),
        SaveEvent::Persisted,
        SaveEvent::Published,
        SaveEvent::Committed,
    ];
    let e1 = events.drop_first();
    let e2 = e1.drop_first();
    let e3 = e2.drop_first();
    let e4 = e3.drop_first();
    let e5 = e4.drop_first();
    assert(e5.len() == 0);
    assert(run(request_ctx, request, SaveState::Finished, e5) =~= Seq::empty());
    assert(run(request_ctx, request, SaveState::AwaitingCommit, e4) =~= seq![
        SaveAction::Respond(SaveBuiltinFuncResponse { success: true }),
    ]);
    assert(run(request_ctx, request, SaveState::AwaitingPublish, e3) =~= seq![
        SaveAction::Commit,
        SaveAction::Respond(SaveBuiltinFuncResponse { success: true }),
    ]);
    assert(run(request_ctx, request, SaveState::AwaitingPersist, e2) =~= seq![
        SaveAction::Publish(RequestContext { access: request_ctx, visibility: request.visibility }),
        SaveAction::Commit,
        SaveAction::Respond(SaveBuiltinFuncResponse { success: true }),
    ]);
    assert(run(request_ctx, request, SaveState::AwaitingFunc, e1) =~= seq![
        SaveAction::Persist(RequestContext::spec_builtin(), found.spec_updated(request)),
        SaveAction::Publish(RequestContext { access: request_ctx, visibility: request.visibility }),
        SaveAction::Commit,
        SaveAction::Respond(SaveBuiltinFuncResponse { success: true }),
    ]);
    assert(run(request_ctx, request, SaveState::AwaitingTransaction, events) =~= seq![
        SaveAction::LoadFunc(RequestContext::spec_builtin(), request.id),
        SaveAction::Persist(RequestContext::spec_builtin(), found.spec_updated(request)),
        SaveAction::Publish(RequestContext { access: request_ctx, visibility: request.visibility }),
        SaveAction::Commit,
        SaveAction::Respond(SaveBuiltinFuncResponse { success: true }),
    ]);
}

/// Whoever asks, a function is looked up and persisted in the scope reserved
/// for builtin content: with read and write access across all tenants, as the
/// system, at head and without deleted content. Only the notification is
/// queued in the caller's scope: with the caller's access and the visibility
/// of the request.
pub proof fn lemma_scope_of_each_action(
    request_ctx: AccessBuilder,
    request: SaveBuiltinFuncRequest,
    state: SaveState,
    event: SaveEvent,
)
    ensures
        step(request_ctx, request, state, event).1 matches SaveAction::LoadFunc(scope, id) ==> {
            &&& id == request.id
            &&& scope.access.read_tenancy == Tenancy::Universal
            &&& scope.access.write_tenancy == Tenancy::Universal
            &&& scope.access.history_actor == HistoryActor::SystemInit
            &&& scope.visibility == Visibility::spec_new_head(false)
        },
        step(request_ctx, request, state, event).1 matches SaveAction::Persist(scope, _) ==> {
            &&& scope.access.read_tenancy == Tenancy::Universal
            &&& scope.access.write_tenancy == Tenancy::Universal
            &&& scope.access.history_actor == HistoryActor::SystemInit
            &&& scope.visibility == Visibility::spec_new_head(false)
        },
        step(request_ctx, request, state, event).1 matches SaveAction::Publish(scope) ==> {
            &&& scope.access == request_ctx
            &&& scope.visibility == request.visibility
        },
{
}

/// The notification is queued before the commit and goes out with it: an
/// update commits only in answer to the report that the notification was
/// queued, and queues it only in answer to the report that the function was
/// persisted.
pub proof fn lemma_commit_follows_publish(
    request_ctx: AccessBuilder,
    request: SaveBuiltinFuncRequest,
    state: SaveState,
    event: SaveEvent,
)
    ensures
        step(request_ctx, request, state, event).1 is Commit ==> state
            == SaveState::AwaitingPublish && event == SaveEvent::Published,
        step(request_ctx, request, state, event).1 is Publish ==> state
            == SaveState::AwaitingPersist && event == SaveEvent::Persisted,
{
}

} // verus!
