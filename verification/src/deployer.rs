use vstd::prelude::*;
use crate::ephemeral_roles::{Component, ERVersion};
use crate::errors::{is_conflict, ClusterError, ComponentFailure, DeployError, FetchError, JoinErrors};
use crate::locator::{locate, ResourceHandle, UnknownObject};
use crate::manifest::{decoded_of, decode_manifest, DynamicObject};

verus! {

/// The field-owner identity under which updates are applied, so that
/// repeated applies are attributable and mergeable.
pub open spec fn field_owner_view() -> Seq<char> {
    "ephemeral-roles-operator"@
}

/// The field-owner identity as a value, for the update action.
pub fn field_owner() -> (s: String)
    ensures
        s@ == field_owner_view(),
{
    "ephemeral-roles-operator".to_owned()
}

/// The name under which an object is addressed for an update: its own name,
/// or the empty string when it has none.
pub open spec fn update_name_view(object: DynamicObject) -> Seq<char> {
    match object.name {
        Some(n) => n@,
        None => Seq::empty(),
    }
}

/// What the deployment of one component asks its surroundings to do next.
#[derive(Debug)]
pub enum Action {
    /// Retrieve the raw document behind the manifest reference.
    Fetch { reference: String },
    /// Ask the cluster API to create the object at the resolved endpoint.
    Create { handle: ResourceHandle, object: DynamicObject },
    /// Ask the cluster API to update the existing object of that name,
    /// under the given field-owner identity.
    Update { handle: ResourceHandle, name: String, object: DynamicObject, field_owner: String },
}

/// What the surroundings report back after performing an action.
#[derive(Debug)]
pub enum TransportEvent {
    /// The outcome of a fetch: the raw document text, or the failure.
    Fetched(Result<String, FetchError>),
    /// The outcome of a create call against the cluster API.
    Created(Result<(), ClusterError>),
    /// The outcome of an update call against the cluster API.
    Updated(Result<(), ClusterError>),
}

/// Where the deployment of one component stands. The index always points at
/// the manifest currently being worked on; it advances only once that
/// manifest has been applied.
#[derive(Debug)]
pub enum TaskState {
    /// Waiting for manifest `index` to be fetched.
    Fetching { index: usize },
    /// Manifest `index` is decoded and located; waiting for the create call.
    Creating { index: usize, object: DynamicObject, handle: ResourceHandle },
    /// The create call answered with the conflict signal; waiting for the
    /// update fallback.
    Updating { index: usize, object: DynamicObject, handle: ResourceHandle },
    /// Every manifest of the component has been applied.
    Succeeded,
    /// A manifest failed; nothing further is attempted.
    Failed { failure: ComponentFailure },
}

/// The deployment of one named component: its identity and manifest list,
/// and where it stands.
#[derive(Debug)]
pub struct ComponentTask {
    pub component: String,
    pub version: String,
    pub files: Vec<String>,
    pub state: TaskState,
}

impl ComponentTask {
    /// The manifest index under work never leaves the manifest list.
    pub open spec fn wf(self) -> bool {
        self.files@.len() <= usize::MAX && match self.state {
            TaskState::Fetching { index } => index < self.files@.len(),
            TaskState::Creating { index, .. } => index < self.files@.len(),
            TaskState::Updating { index, .. } => index < self.files@.len(),
            TaskState::Succeeded => true,
            TaskState::Failed { .. } => true,
        }
    }

    /// Whether the task has run to completion, one way or the other.
    pub open spec fn terminal(self) -> bool {
        self.state is Succeeded || self.state is Failed
    }
}

/// Whether an event answers what the task is currently waiting for. A
/// terminal task accepts no event at all.
pub open spec fn accepts(t: ComponentTask, e: TransportEvent) -> bool {
    match (t.state, e) {
        (TaskState::Fetching { .. }, TransportEvent::Fetched(_)) => true,
        (TaskState::Creating { .. }, TransportEvent::Created(_)) => true,
        (TaskState::Updating { .. }, TransportEvent::Updated(_)) => true,
        _ => false,
    }
}

/// The state after the manifest at `index` has been applied: the next
/// manifest is fetched, or, after the last one, the component has succeeded.
pub open spec fn advanced(index: usize, len: int) -> TaskState {
    if index + 1 == len {
        TaskState::Succeeded
    } else {
        TaskState::Fetching { index: (index + 1) as usize }
    }
}

/// The failure record for the manifest at `index` of the given deployment.
pub open spec fn failed_at(t: ComponentTask, index: usize, error: DeployError) -> TaskState {
    TaskState::Failed {
        failure: ComponentFailure {
            component: t.component,
            reference: t.files@[index as int],
            error,
        },
    }
}

/// The apply engine's create branch: a successful create applies the
/// manifest; the conflict signal falls back to the update branch for the
/// same object; any other failure is fatal for the component.
pub open spec fn apply_step(t: ComponentTask, cr: Result<(), ClusterError>) -> TaskState {
    match t.state {
        TaskState::Creating { index, object, handle } => match cr {
            Ok(_) => advanced(index, t.files@.len() as int),
            Err(e) => if is_conflict(e) {
                TaskState::Updating { index, object, handle }
            } else {
                failed_at(t, index, DeployError::Create(e))
            },
        },
        _ => t.state,
    }
}

/// The apply engine's update branch: a successful update applies the
/// manifest; a failed update is fatal for the component.
pub open spec fn update_step(t: ComponentTask, ur: Result<(), ClusterError>) -> TaskState {
    match t.state {
        TaskState::Updating { index, .. } => match ur {
            Ok(_) => advanced(index, t.files@.len() as int),
            Err(e) => failed_at(t, index, DeployError::Update(e)),
        },
        _ => t.state,
    }
}

/// One move of the deployment state machine: what stepping on some accepted
/// event can turn the task into. A terminal task moves nowhere.
pub open spec fn moves_to(pre: ComponentTask, post: ComponentTask) -> bool {
    &&& post.component == pre.component
    &&& post.version == pre.version
    &&& post.files == pre.files
    &&& match pre.state {
        TaskState::Fetching { index } => {
            ||| (post.state matches TaskState::Creating { index: i, .. } && i == index)
            ||| (post.state matches TaskState::Failed { failure } && failure.component
                == pre.component && failure.reference == pre.files@[index as int])
        },
        TaskState::Creating { index, object, handle } => {
            ||| post.state == advanced(index, pre.files@.len() as int)
            ||| post.state == (TaskState::Updating { index, object, handle })
            ||| (post.state matches TaskState::Failed { failure } && failure.component
                == pre.component && failure.reference == pre.files@[index as int])
        },
        TaskState::Updating { index, .. } => {
            ||| post.state == advanced(index, pre.files@.len() as int)
            ||| (post.state matches TaskState::Failed { failure } && failure.component
                == pre.component && failure.reference == pre.files@[index as int])
        },
        TaskState::Succeeded => false,
        TaskState::Failed { .. } => false,
    }
}

/// The manifest a task stands at: the index it is working on while active,
/// and the end of its list once it is terminal, when nothing is worked on
/// any more.
pub open spec fn stage_index(t: ComponentTask) -> int {
    match t.state {
        TaskState::Fetching { index } => index as int,
        TaskState::Creating { index, .. } => index as int,
        TaskState::Updating { index, .. } => index as int,
        TaskState::Succeeded => t.files@.len() as int,
        TaskState::Failed { .. } => t.files@.len() as int,
    }
}

/// A run of one component's deployment: every entry after the first is one
/// move of the state machine away from its predecessor.
pub open spec fn is_run(run: Seq<ComponentTask>) -> bool {
    forall|i: int| 0 < i < run.len() ==> moves_to(run[i - 1], #[trigger] run[i])
}

/// A component's task as it begins: at its first manifest, or already
/// succeeded when it has none.
pub open spec fn initial_task(name: String, component: Component) -> ComponentTask {
    ComponentTask {
        component: name,
        version: component.version,
        files: component.files,
        state: if component.files@.len() == 0 {
            TaskState::Succeeded
        } else {
            TaskState::Fetching { index: 0 }
        },
    }
}

/// Begins the deployment of one named component: its manifests will be
/// applied strictly in listed order, stopping at the first failure.
pub fn deploy_component(name: String, component: Component) -> (t: ComponentTask)
    ensures
        t == initial_task(name, component),
        t.wf(),
{
    let state = if component.files.len() == 0 {
        TaskState::Succeeded
    } else {
        TaskState::Fetching { index: 0 }
    };
    ComponentTask { component: name, version: component.version, files: component.files, state }
}

fn advance(index: usize, len: usize) -> (s: TaskState)
    requires
        index < len,
    ensures
        s == advanced(index, len as int),
{
    if index + 1 == len {
        TaskState::Succeeded
    } else {
        TaskState::Fetching { index: index + 1 }
    }
}

impl ComponentTask {
    /// What the surroundings should do next for the component's deployment;
    /// nothing once it is terminal.
    pub fn next_action(&self) -> (a: Option<Action>)
        requires
            self.wf(),
        ensures
            self.state matches TaskState::Fetching { index } ==> (a matches Some(act)
                && act matches Action::Fetch { reference } && reference == self.files@[index as int]),
            self.state matches TaskState::Creating { index, object, handle } ==> a == Some(
                Action::Create { handle, object },
            ),
            self.state matches TaskState::Updating { index, object, handle } ==> (a matches Some(
                act,
            ) && act matches Action::Update {
                handle: h,
                name,
                object: o,
                field_owner: f,
            } && h == handle && o == object && name@ == update_name_view(object) && f@
                == field_owner_view()),
            self.terminal() ==> a is None,
    {
        match &self.state {
            TaskState::Fetching { index } => Some(
                Action::Fetch { reference: self.files[*index].clone() },
            ),
            TaskState::Creating { index, object, handle } => Some(
                Action::Create { handle: handle.duplicate(), object: object.duplicate() },
            ),
            TaskState::Updating { index, object, handle } => {
                let name = match &object.name {
                    Some(n) => n.clone(),
                    None => String::new(),
                };
                Some(
                    Action::Update {
                        handle: handle.duplicate(),
                        name,
                        object: object.duplicate(),
                        field_owner: field_owner(),
                    },
                )
            },
            TaskState::Succeeded => None,
            TaskState::Failed { .. } => None,
        }
    }

    /// Moves the task forward on the answer to its pending action.
    ///
    /// A fetched document is decoded and located at once: a malformed
    /// document, or one with no type descriptor, fails the component before
    /// any cluster call is issued for it. A located object waits for its
    /// create call; the conflict signal routes it through the update branch;
    /// every other failure is fatal. A manifest counts as applied only after
    /// a successful create or update, and only then does the index advance.
    pub fn step(self, event: TransportEvent) -> (r: ComponentTask)
        requires
            self.wf(),
            accepts(self, event),
        ensures
            r.wf(),
            moves_to(self, r),
            r.component == self.component && r.version == self.version && r.files == self.files,
            self.state matches TaskState::Fetching { index } ==> event
                matches TransportEvent::Fetched(fr) ==> {
                &&& fr matches Err(fe) ==> r.state == failed_at(
                    self,
                    index,
                    DeployError::Fetch { message: fe.message },
                )
                &&& fr matches Ok(text) ==> decoded_of(text@) is None ==> r.state == failed_at(
                    self,
                    index,
                    DeployError::Decode,
                )
                &&& fr matches Ok(text) ==> decoded_of(text@) matches Some(obj) ==> obj.types
                    is None ==> r.state == failed_at(
                    self,
                    index,
                    DeployError::Unknown(UnknownObject { object: obj }),
                )
                &&& fr matches Ok(text) ==> decoded_of(text@) matches Some(obj) ==> obj.types
                    matches Some(tm) ==> (r.state matches TaskState::Creating {
                    index: i,
                    object,
                    handle,
                } && i == index && object == obj && handle.group@ == crate::locator::gv_group(
                    tm.api_version@,
                ) && handle.version@ == crate::locator::gv_version(tm.api_version@) && handle.kind@
                    == tm.kind@ && crate::locator::scope_matches(obj, handle.scope))
            },
            self.state is Creating ==> (event matches TransportEvent::Created(cr) ==> r.state
                == apply_step(self, cr)),
            self.state is Updating ==> (event matches TransportEvent::Updated(ur) ==> r.state
                == update_step(self, ur)),
    {
        let ComponentTask { component, version, files, state } = self;
        let new_state = match (state, event) {
            (TaskState::Fetching { index }, TransportEvent::Fetched(fr)) => match fr {
                Err(fe) => TaskState::Failed {
                    failure: ComponentFailure {
                        component: component.clone(),
                        reference: files[index].clone(),
                        error: DeployError::Fetch { message: fe.message },
                    },
                },
                Ok(text) => match decode_manifest(text.as_str()) {
                    Err(_) => TaskState::Failed {
                        failure: ComponentFailure {
                            component: component.clone(),
                            reference: files[index].clone(),
                            error: DeployError::Decode,
                        },
                    },
                    Ok(object) => match locate(&object) {
                        Err(u) => TaskState::Failed {
                            failure: ComponentFailure {
                                component: component.clone(),
                                reference: files[index].clone(),
                                error: DeployError::Unknown(u),
                            },
                        },
                        Ok(handle) => TaskState::Creating { index, object, handle },
                    },
                },
            },
            (TaskState::Creating { index, object, handle }, TransportEvent::Created(cr)) => match cr {
                Ok(_) => advance(index, files.len()),
                Err(e) => if e.conflict() {
                    TaskState::Updating { index, object, handle }
                } else {
                    TaskState::Failed {
                        failure: ComponentFailure {
                            component: component.clone(),
                            reference: files[index].clone(),
                            error: DeployError::Create(e),
                        },
                    }
                },
            },
            (TaskState::Updating { index, object: _, handle: _ }, TransportEvent::Updated(ur)) => match ur {
                Ok(_) => advance(index, files.len()),
                Err(e) => TaskState::Failed {
                    failure: ComponentFailure {
                        component: component.clone(),
                        reference: files[index].clone(),
                        error: DeployError::Update(e),
                    },
                },
            },
            (s, _) => s,
        };
        ComponentTask { component, version, files, state: new_state }
    }

    /// The finished task's outcome: success, or the failure it stopped at.
    pub fn outcome(self) -> (r: Result<(), ComponentFailure>)
        requires
            self.terminal(),
        ensures
            self.state is Succeeded ==> r is Ok,
            self.state matches TaskState::Failed { failure } ==> r == Err::<
                (),
                ComponentFailure,
            >(failure),
    {
        match self.state {
            TaskState::Succeeded => Ok(()),
            TaskState::Failed { failure } => Err(failure),
            _ => vstd::pervasive::unreached(),
        }
    }
}

/// Reconciliation Orchestrator, fan-out half: one deployment task per
/// component of the desired version, in the components' listed order. The
/// tasks are independent of each other and may be driven concurrently.
pub fn deploy(er_version: ERVersion) -> (tasks: Vec<ComponentTask>)
    ensures
        tasks@.len() == er_version.spec.components@.len(),
        forall|i: int|
            0 <= i < tasks@.len() ==> tasks@[i] == initial_task(
                er_version.spec.components@[i].0,
                er_version.spec.components@[i].1,
            ) && tasks@[i].wf(),
{
    let mut components = er_version.spec.components;
    let ghost all = components@;
    let mut tasks: Vec<ComponentTask> = Vec::new();
    proof {
        assert(all.subrange(0, 0) =~= Seq::<(String, Component)>::empty());
    }
    while components.len() > 0
        invariant
            tasks@.len() + components@.len() == all.len(),
            all =~= all.subrange(0, tasks@.len() as int) + components@,
            forall|i: int|
                0 <= i < tasks@.len() ==> tasks@[i] == initial_task(all[i].0, all[i].1)
                    && tasks@[i].wf(),
        decreases components@.len(),
    {
        let (name, component) = components.remove(0);
        proof {
            assert(all[tasks@.len() as int] == (name, component));
            assert(all =~= all.subrange(0, tasks@.len() as int + 1) + components@);
        }
        tasks.push(deploy_component(name, component));
    }
    tasks
}

/// The failures among a sequence of component outcomes, kept in order and in
/// full: every failed component contributes exactly its own failure, and
/// successes contribute nothing.
pub open spec fn failures_of(s: Seq<Result<(), ComponentFailure>>) -> Seq<ComponentFailure>
    decreases s.len(),
{
    if s.len() == 0 {
        Seq::empty()
    } else {
        let rest = failures_of(s.drop_last());
        match s.last() {
            Ok(_) => rest,
            Err(f) => rest.push(f),
        }
    }
}

/// Reconciliation Orchestrator, fan-in half: folds every component's
/// outcome, in the order the outcomes completed, into one result. Success
/// only if every component succeeded; otherwise every failure is carried,
/// never just the first.
pub fn aggregate(outcomes: Vec<Result<(), ComponentFailure>>) -> (r: Result<(), JoinErrors>)
    ensures
        r is Ok <==> failures_of(outcomes@).len() == 0,
        r matches Err(j) ==> j.errors@ == failures_of(outcomes@),
{
    let mut pending = outcomes;
    let ghost all = pending@;
    let mut errors: Vec<ComponentFailure> = Vec::new();
    let ghost mut done: Seq<Result<(), ComponentFailure>> = Seq::empty();
    while pending.len() > 0
        invariant
            done + pending@ =~= all,
            errors@ == failures_of(done),
        decreases pending@.len(),
    {
        let outcome = pending.remove(0);
        proof {
            assert(done.push(outcome).drop_last() =~= done);
            done = done.push(outcome);
            assert(done + pending@ =~= all);
        }
        match outcome {
            Ok(_) => (),
            Err(f) => errors.push(f),
        }
    }
    proof {
        assert(done =~= all);
    }
    if errors.len() == 0 {
        Ok(())
    } else {
        Err(JoinErrors { errors })
    }
}

/// Removal path for a deleted desired version: deliberately performs no
/// cluster mutation, since no teardown policy is specified yet.
pub fn remove(er_version: &ERVersion) -> (r: Result<(), JoinErrors>)
    ensures
        r is Ok,
{
    Ok(())
}

/// Ordering within a component: from the create branch, the task reaches the
/// next manifest, or success after the last one, only when the create call
/// succeeded; every failure leaves the index where it was, inside a terminal
/// failure record for exactly the current manifest.
pub proof fn lemma_apply_order(t: ComponentTask, index: usize, cr: Result<(), ClusterError>)
    requires
        t.wf(),
        t.state matches TaskState::Creating { index: i, .. } && i == index,
    ensures
        apply_step(t, cr) matches TaskState::Fetching { index: j } ==> cr is Ok && j == index + 1,
        apply_step(t, cr) is Succeeded ==> cr is Ok && index + 1 == t.files@.len(),
        cr is Err ==> !(apply_step(t, cr) is Fetching) && !(apply_step(t, cr) is Succeeded),
{
}

/// Ordering within a component, update branch: the task advances past the
/// current manifest only when the update call succeeded, and never returns
/// to the create branch for the same manifest.
pub proof fn lemma_update_order(t: ComponentTask, index: usize, ur: Result<(), ClusterError>)
    requires
        t.wf(),
        t.state matches TaskState::Updating { index: i, .. } && i == index,
    ensures
        update_step(t, ur) matches TaskState::Fetching { index: j } ==> ur is Ok && j == index + 1,
        update_step(t, ur) is Succeeded ==> ur is Ok && index + 1 == t.files@.len(),
        !(update_step(t, ur) is Creating) && !(update_step(t, ur) is Updating),
        ur is Err ==> update_step(t, ur) is Failed,
{
}

/// Once a component's deployment is terminal, no event is accepted any more:
/// after a failure, the remaining manifests of that component are never
/// attempted.
pub proof fn lemma_terminal_absorbs(t: ComponentTask, e: TransportEvent)
    requires
        t.terminal(),
    ensures
        !accepts(t, e),
{
}

/// Idempotence of apply: re-applying an unchanged manifest cannot fail at
/// the conflict. When the cluster answers a create with the conflict signal
/// because the object already exists, the engine routes to the update branch
/// for the very same object and endpoint, and a successful update ends the
/// manifest exactly where a successful create would have.
pub proof fn lemma_apply_idempotent(t: ComponentTask, e: ClusterError)
    requires
        t.wf(),
        t.state is Creating,
        is_conflict(e),
    ensures
        (apply_step(t, Err(e)) matches TaskState::Updating { index, object, handle }
            && t.state == (TaskState::Creating { index, object, handle })),
        ({
            let t2 = ComponentTask {
                component: t.component,
                version: t.version,
                files: t.files,
                state: apply_step(t, Err(e)),
            };
            update_step(t2, Ok(())) == apply_step(t, Ok(()))
        }),
{
}

/// Create-versus-update: the conflict signal, and only the conflict signal,
/// selects the update branch; any other create failure is fatal. From the
/// update branch the task never issues a second create for the same
/// manifest: it advances past it or fails.
pub proof fn lemma_create_vs_update(t: ComponentTask, e: ClusterError, ur: Result<(), ClusterError>)
    requires
        t.wf(),
        t.state is Creating,
    ensures
        (is_conflict(e) <==> apply_step(t, Err(e)) is Updating),
        (!is_conflict(e) ==> apply_step(t, Err(e)) is Failed),
        ({
            let t2 = ComponentTask {
                component: t.component,
                version: t.version,
                files: t.files,
                state: apply_step(t, Err(e)),
            };
            is_conflict(e) ==> !(update_step(t2, ur) is Creating)
        }),
{
}

/// Ordering across one move: the manifest index never moves backwards, and
/// it advances by at most one manifest at a time; a move that leaves more
/// than one manifest behind can only be the move into a terminal state,
/// where nothing further is attempted.
pub proof fn lemma_move_monotonic(pre: ComponentTask, post: ComponentTask)
    requires
        pre.wf(),
        moves_to(pre, post),
    ensures
        stage_index(pre) <= stage_index(post),
        stage_index(post) <= stage_index(pre) + 1 || post.terminal(),
{
}

/// Ordering along a whole run: a terminal state can stand only at the run's
/// very end — after a failure nothing more is attempted — and the manifest
/// index never moves backwards, so a manifest is reached only after every
/// manifest before it has been applied.
pub proof fn lemma_run_ordering(run: Seq<ComponentTask>)
    requires
        forall|i: int| 0 <= i < run.len() ==> (#[trigger] run[i]).wf(),
        is_run(run),
    ensures
        forall|j: int| 0 <= j < run.len() - 1 ==> !(#[trigger] run[j]).terminal(),
        forall|j: int, k: int|
            0 <= j <= k < run.len() ==> stage_index(run[j]) <= stage_index(run[k]),
{
    assert forall|j: int| 0 <= j < run.len() - 1 implies !(#[trigger] run[j]).terminal() by {
        assert(moves_to(run[j], run[j + 1]));
    }
    assert forall|j: int, k: int|
        0 <= j <= k < run.len() implies stage_index(run[j]) <= stage_index(run[k]) by {
        lemma_run_monotonic_between(run, j, k);
    }
}

proof fn lemma_run_monotonic_between(run: Seq<ComponentTask>, j: int, k: int)
    requires
        forall|i: int| 0 <= i < run.len() ==> (#[trigger] run[i]).wf(),
        is_run(run),
        0 <= j <= k < run.len(),
    ensures
        stage_index(run[j]) <= stage_index(run[k]),
    decreases k - j,
{
    if j < k {
        lemma_run_monotonic_between(run, j, k - 1);
        assert(moves_to(run[k - 1], run[k]));
        lemma_move_monotonic(run[k - 1], run[k]);
    }
}

/// Completeness of aggregation: a component's failure is always present in
/// the aggregated failures; one failing component can never be masked.
pub proof fn lemma_failures_complete(
    s: Seq<Result<(), ComponentFailure>>,
    i: int,
    f: ComponentFailure,
)
    requires
        0 <= i < s.len(),
        s[i] == Err::<(), ComponentFailure>(f),
    ensures
        failures_of(s).contains(f),
    decreases s.len(),
{
    if i == s.len() - 1 {
        assert(s.last() == Err::<(), ComponentFailure>(f));
        assert(failures_of(s) == failures_of(s.drop_last()).push(f));
        assert(failures_of(s)[failures_of(s).len() - 1] == f);
    } else {
        lemma_failures_complete(s.drop_last(), i, f);
        let rest = failures_of(s.drop_last());
        let k = choose|k: int| 0 <= k < rest.len() && rest[k] == f;
        assert(failures_of(s)[k] == f);
    }
}

/// Soundness of aggregation: everything in the aggregated failures stems
/// from some component's actual failure; a succeeding component contributes
/// nothing, so its success is never suppressed by a sibling's failure.
pub proof fn lemma_failures_sound(s: Seq<Result<(), ComponentFailure>>, k: int)
    requires
        0 <= k < failures_of(s).len(),
    ensures
        exists|i: int|
            0 <= i < s.len() && s[i] == Err::<(), ComponentFailure>(failures_of(s)[k]),
    decreases s.len(),
{
    if s.len() > 0 {
        match s.last() {
            Ok(u) => {
                lemma_failures_sound(s.drop_last(), k);
                let i = choose|i: int|
                    0 <= i < s.drop_last().len() && s.drop_last()[i] == Err::<
                        (),
                        ComponentFailure,
                    >(failures_of(s.drop_last())[k]);
                assert(s[i] == Err::<(), ComponentFailure>(failures_of(s)[k]));
            },
            Err(f) => {
                if k == failures_of(s).len() - 1 {
                    assert(s[s.len() - 1] == Err::<(), ComponentFailure>(failures_of(s)[k]));
                } else {
                    lemma_failures_sound(s.drop_last(), k);
                    let i = choose|i: int|
                        0 <= i < s.drop_last().len() && s.drop_last()[i] == Err::<
                            (),
                            ComponentFailure,
                        >(failures_of(s.drop_last())[k]);
                    assert(s[i] == Err::<(), ComponentFailure>(failures_of(s)[k]));
                }
            },
        }
    }
}

/// Independence of components: when one component fails while another
/// succeeds, the aggregated failures carry the failing component's cause,
/// and carry only genuine failures, so the succeeding component's outcome is
/// reported as it happened.
pub proof fn lemma_independence(
    outcomes: Seq<Result<(), ComponentFailure>>,
    x: int,
    f: ComponentFailure,
)
    requires
        0 <= x < outcomes.len(),
        outcomes[x] == Err::<(), ComponentFailure>(f),
    ensures
        failures_of(outcomes).contains(f),
        failures_of(outcomes).len() > 0,
        forall|k: int|
            0 <= k < failures_of(outcomes).len() ==> exists|i: int|
                0 <= i < outcomes.len() && outcomes[i] == Err::<(), ComponentFailure>(
                    #[trigger] failures_of(outcomes)[k],
                ),
{
    lemma_failures_complete(outcomes, x, f);
    assert forall|k: int| 0 <= k < failures_of(outcomes).len() implies exists|i: int|
        0 <= i < outcomes.len() && outcomes[i] == Err::<(), ComponentFailure>(
            #[trigger] failures_of(outcomes)[k],
        ) by {
        lemma_failures_sound(outcomes, k);
    }
}

} // verus!
