use vstd::prelude::*;
use std::sync::Arc;
use std::sync::Weak;

verus! {

/// anyhow's error, carried through opaque in a component's outcome.
#[verifier::external_type_specification]
#[verifier::external_body]
pub struct ExAnyhowError(anyhow::Error);

/// tokio's one-shot producer half, carried through opaque.
#[verifier::external_type_specification]
#[verifier::external_body]
#[verifier::reject_recursive_types(T)]
pub struct ExOneshotSender<T>(tokio::sync::oneshot::Sender<T>);

/// tokio's one-shot consumer half, carried through opaque.
#[verifier::external_type_specification]
#[verifier::external_body]
#[verifier::reject_recursive_types(T)]
pub struct ExOneshotReceiver<T>(tokio::sync::oneshot::Receiver<T>);

/// tokio's error for a producer half dropped before sending.
#[verifier::external_type_specification]
#[verifier::external_body]
pub struct ExRecvError(tokio::sync::oneshot::error::RecvError);

/// What a component reports once its shutdown has finished.
pub type ShutdownResult = Result<(), anyhow::Error>;

/// Producer half of a completion signal.
pub type CompletionSender = tokio::sync::oneshot::Sender<ShutdownResult>;

/// Consumer half of a completion signal.
pub type CompletionReceiver = tokio::sync::oneshot::Receiver<ShutdownResult>;

/// Shutdown request sent to an actor; the actor answers on `service_finished`.
pub struct GracefulShutdownMsg {
    pub service_finished: CompletionSender,
}

/// A long-running component that takes part in graceful shutdown.
pub trait Service {
    /// Stable name, used in diagnostics and in the leak report.
    fn name(&self) -> &str;

    /// Starts shutting the service down. Returns the consumer half of a
    /// completion signal when the caller has to wait for the end, or `None`
    /// when nothing is left to wait for.
    fn graceful_shutdown(self: Arc<Self>) -> Option<CompletionReceiver>;
}

/// Best-effort, non-blocking delivery of a shutdown request to one actor.
pub trait ShutdownRecipient {
    /// Returns whether the request reached the actor's mailbox.
    fn try_send(&self, msg: GracefulShutdownMsg) -> bool;
}

/// A completion signal still to be waited on, with the label used in diagnostics.
pub struct PendingCompletion {
    pub label: String,
    pub receiver: CompletionReceiver,
}

/// Non-owning observation handle of a service, taken when the registry lets go of it.
/// It holds std's `Weak`, whose allocator parameter keeps it from being declared
/// to the verifier, so the handle is opaque and only the functions below touch it.
#[verifier::external_body]
#[verifier::reject_recursive_types(S)]
struct ServiceObserver<S: ?Sized> {
    inner: Weak<S>,
}

/// Relies on tokio::sync::oneshot::channel: a fresh pair of connected halves.
#[verifier::external_body]
fn completion_channel() -> (r: (CompletionSender, CompletionReceiver)) {
    tokio::sync::oneshot::channel()
}

/// Relies on Arc::clone: another pointer to the same allocation.
#[verifier::external_body]
fn share<S: ?Sized>(service: &Arc<S>) -> (r: Arc<S>)
    ensures
        r == *service,
{
    Arc::clone(service)
}

/// Relies on Arc::ptr_eq: handles to one allocation point to one value.
#[verifier::external_body]
fn same_allocation<S: ?Sized>(a: &Arc<S>, b: &Arc<S>) -> (r: bool)
    ensures
        r ==> *a == *b,
{
    Arc::ptr_eq(a, b)
}

/// Relies on Arc::downgrade: a weak pointer to the same allocation.
#[verifier::external_body]
fn observe<S: ?Sized>(service: &Arc<S>) -> (r: ServiceObserver<S>) {
    ServiceObserver { inner: Arc::downgrade(service) }
}

/// Relies on Weak::strong_count: the number of strong pointers still alive.
#[verifier::external_body]
fn strong_count<S: ?Sized>(observer: &ServiceObserver<S>) -> (r: usize) {
    observer.inner.strong_count()
}

/// Relies on Weak::upgrade: a strong pointer, if the value is still alive.
#[verifier::external_body]
fn upgrade<S: ?Sized>(observer: &ServiceObserver<S>) -> (r: Option<Arc<S>>) {
    observer.inner.upgrade()
}

pub open spec fn actor_prefix() -> Seq<char> {
    seq!['a', 'c', 't', 'o', 'r', ' ']
}

pub open spec fn service_prefix() -> Seq<char> {
    seq!['s', 'e', 'r', 'v', 'i', 'c', 'e', ' ']
}

/// Diagnostic label of an actor: "actor <name>".
pub fn actor_label(name: &str) -> (r: String)
    ensures
        r@ == actor_prefix() + name@,
{
    proof {
        reveal_strlit("actor ");
    }
    String::from_str("actor ").concat(name)
}

/// Diagnostic label of a service: "service <name>".
pub fn service_label(name: &str) -> (r: String)
    ensures
        r@ == service_prefix() + name@,
{
    proof {
        reveal_strlit("service ");
    }
    String::from_str("service ").concat(name)
}

/// Names reported as leaked: those of the services still alive, in order.
pub open spec fn leaked_names(observed: Seq<Option<String>>) -> Seq<Seq<char>>
    decreases observed.len(),
{
    if observed.len() == 0 {
        seq![]
    } else {
        let rest = leaked_names(observed.drop_last());
        match observed.last() {
            Some(name) => rest.push(name@),
            None => rest,
        }
    }
}

/// Records what a service's shutdown hook returned: a completion signal is
/// appended with the label "service <name>"; no signal appends nothing.
pub fn record_service_completion(
    pending: &mut Vec<PendingCompletion>,
    name: &str,
    returned: Option<CompletionReceiver>,
)
    ensures
        returned is None ==> final(pending)@ == old(pending)@,
        returned is Some ==> {
            &&& final(pending)@.len() == old(pending)@.len() + 1
            &&& final(pending)@.drop_last() == old(pending)@
            &&& final(pending)@.last().label@ == service_prefix() + name@
            &&& final(pending)@.last().receiver == returned->0
        },
{
    match returned {
        Some(receiver) => {
            let label = service_label(name);
            pending.push(PendingCompletion { label, receiver });
            proof {
                assert(final(pending)@.drop_last() =~= old(pending)@);
            }
        },
        None => {},
    }
}

pub open spec fn string_views(names: Seq<String>) -> Seq<Seq<char>> {
    names.map_values(|name: String| name@)
}

/// Builds the leak report from what was observed of each released service:
/// `Some(name)` for one that is still alive, `None` for one that was freed.
pub fn leak_report(observed: Vec<Option<String>>) -> (r: Vec<String>)
    ensures
        string_views(r@) == leaked_names(observed@),
{
    let mut report: Vec<String> = Vec::new();
    let mut i: usize = 0;
    while i < observed.len()
        invariant
            i <= observed@.len(),
            string_views(report@) == leaked_names(observed@.subrange(0, i as int)),
        decreases observed@.len() - i,
    {
        let ghost before = report@;
        let entry = observed[i].clone();
        match entry {
            Some(name) => report.push(name),
            None => {},
        }
        proof {
            let prefix = observed@.subrange(0, i as int + 1);
            assert(prefix.drop_last() =~= observed@.subrange(0, i as int));
            assert(string_views(report@) =~= leaked_names(prefix));
        }
        i += 1;
    }
    assert(observed@.subrange(0, observed@.len() as int) =~= observed@);
    report
}

/// A weak handle on a service, with the service it was taken from.
#[verifier::reject_recursive_types(S)]
struct Observation<S: ?Sized> {
    observer: ServiceObserver<S>,
    service: Ghost<Arc<S>>,
}

/// Keeps one strong handle per allocation: a service registered several
/// times stands once, at its first registration.
fn distinct_services<S: Service + ?Sized>(services: Vec<Arc<S>>) -> (r: Vec<Arc<S>>)
    ensures
        r@.len() <= services@.len(),
        forall|k: int| 0 <= k < r@.len() ==> services@.contains(#[trigger] r@[k]),
{
    let mut kept: Vec<Arc<S>> = Vec::new();
    let mut i: usize = 0;
    while i < services.len()
        invariant
            i <= services@.len(),
            kept@.len() <= i,
            forall|k: int| 0 <= k < kept@.len() ==> services@.contains(#[trigger] kept@[k]),
        decreases services@.len() - i,
    {
        let mut repeated = false;
        let mut j: usize = 0;
        while j < kept.len()
            invariant
                i < services@.len(),
                j <= kept@.len(),
            decreases kept@.len() - j,
        {
            if same_allocation(&kept[j], &services[i]) {
                repeated = true;
            }
            j += 1;
        }
        if !repeated {
            let service = share(&services[i]);
            assert(services@[i as int] == service);
            kept.push(service);
        }
        i += 1;
    }
    kept
}

/// Takes a weak handle on each service; the strong handles are dropped on return.
fn observe_all<S: Service + ?Sized>(services: Vec<Arc<S>>) -> (r: Vec<Observation<S>>)
    ensures
        r@.len() == services@.len(),
        forall|i: int| 0 <= i < r@.len() ==> #[trigger] r@[i].service@ == services@[i],
{
    let mut observations: Vec<Observation<S>> = Vec::new();
    let mut i: usize = 0;
    while i < services.len()
        invariant
            i <= services@.len(),
            observations@.len() == i,
            forall|k: int| 0 <= k < i ==> #[trigger] observations@[k].service@ == services@[k],
        decreases services@.len() - i,
    {
        let observer = observe(&services[i]);
        observations.push(Observation { observer, service: Ghost(services@[i as int]) });
        i += 1;
    }
    observations
}

/// What the leak report records of one released service, given how many
/// strong handles it still has and the name read through an upgraded handle:
/// nothing for a freed service, else that name.
pub fn leak_entry(strong_count: usize, upgraded_name: Option<String>) -> (r: Option<String>)
    ensures
        strong_count == 0 ==> r is None,
        strong_count > 0 ==> r == upgraded_name,
{
    if strong_count > 0 {
        upgraded_name
    } else {
        None
    }
}

/// Drops the given strong handles, then reports, in registration order, the
/// names of the services that something else still keeps alive. A service
/// registered several times is observed once.
pub fn release_all<S: Service + ?Sized>(services: Vec<Arc<S>>) -> (r: Vec<String>)
    ensures
        r@.len() <= services@.len(),
        exists|observed: Seq<Option<String>>|
            observed.len() <= services@.len() && string_views(r@) == #[trigger] leaked_names(
                observed,
            ),
        services@.len() == 0 ==> r@.len() == 0,
{
    let distinct = distinct_services(services);
    let observations = observe_all(distinct);
    let mut observed: Vec<Option<String>> = Vec::new();
    let mut i: usize = 0;
    while i < observations.len()
        invariant
            i <= observations@.len(),
            observed@.len() == i,
        decreases observations@.len() - i,
    {
        let count = strong_count(&observations[i].observer);
        let mut upgraded_name: Option<String> = None;
        if count > 0 {
            match upgrade(&observations[i].observer) {
                Some(service) => {
                    upgraded_name = Some(String::from_str(service.name()));
                },
                None => {},
            }
        }
        observed.push(leak_entry(count, upgraded_name));
        i += 1;
    }
    proof {
        lemma_leaked_names_len(observed@);
    }
    let report = leak_report(observed);
    proof {
        lemma_leaked_names_len(observed@);
    }
    report
}

/// When every released service was freed, the leak report is empty.
pub proof fn lemma_all_released_no_leaks(observed: Seq<Option<String>>)
    requires
        forall|i: int| 0 <= i < observed.len() ==> #[trigger] observed[i] is None,
    ensures
        leaked_names(observed) == Seq::<Seq<char>>::empty(),
    decreases observed.len(),
{
    if observed.len() > 0 {
        let rest = observed.drop_last();
        assert forall|i: int| 0 <= i < rest.len() implies #[trigger] rest[i] is None by {
            assert(rest[i] == observed[i]);
        }
        lemma_all_released_no_leaks(rest);
        assert(observed[observed.len() - 1] is None);
    }
}

proof fn lemma_leaked_names_len(observed: Seq<Option<String>>)
    ensures
        leaked_names(observed).len() <= observed.len(),
    decreases observed.len(),
{
    if observed.len() > 0 {
        lemma_leaked_names_len(observed.drop_last());
    }
}

struct ActorInfo<A> {
    name: String,
    actor: A,
}

/// Registry of the components to shut down: services, held by shared
/// ownership, and actors, reached by message. Both keep registration order.
/// Components that register from several threads share it behind one lock.
#[verifier::reject_recursive_types(S)]
pub struct ShutdownService<S: ?Sized, A> {
    services: Vec<Arc<S>>,
    actors: Vec<ActorInfo<A>>,
}

impl<S: Service + ?Sized, A: ShutdownRecipient> Default for ShutdownService<S, A> {
    fn default() -> (r: Self)
        ensures
            r.services().len() == 0,
            r.actor_names().len() == 0,
    {
        ShutdownService { services: Vec::new(), actors: Vec::new() }
    }
}

impl<S: Service + ?Sized, A: ShutdownRecipient> ShutdownService<S, A> {
    /// Registered services, in registration order.
    pub closed spec fn services(&self) -> Seq<Arc<S>> {
        self.services@
    }

    /// Names of the registered actors, in registration order.
    pub closed spec fn actor_names(&self) -> Seq<Seq<char>> {
        self.actors@.map_values(|info: ActorInfo<A>| info.name@)
    }

    /// Notification capabilities of the registered actors, in registration order.
    pub closed spec fn actor_recipients(&self) -> Seq<A> {
        self.actors@.map_values(|info: ActorInfo<A>| info.actor)
    }

    pub fn register_service(&mut self, service: Arc<S>)
        ensures
            final(self).services() == old(self).services().push(service),
            final(self).actor_names() == old(self).actor_names(),
            final(self).actor_recipients() == old(self).actor_recipients(),
    {
        self.services.push(service);
        proof {
            assert(final(self).actor_names() =~= old(self).actor_names());
            assert(final(self).actor_recipients() =~= old(self).actor_recipients());
        }
    }

    pub fn register_services(&mut self, services: &[Arc<S>])
        ensures
            final(self).services() == old(self).services() + services@,
            final(self).actor_names() == old(self).actor_names(),
            final(self).actor_recipients() == old(self).actor_recipients(),
    {
        let mut i: usize = 0;
        while i < services.len()
            invariant
                i <= services@.len(),
                self.services() == old(self).services() + services@.subrange(0, i as int),
                self.actor_names() == old(self).actor_names(),
                self.actor_recipients() == old(self).actor_recipients(),
            decreases services@.len() - i,
        {
            self.register_service(share(&services[i]));
            assert(services@.subrange(0, i as int + 1) =~= services@.subrange(0, i as int).push(
                services@[i as int],
            ));
            i += 1;
        }
        assert(services@.subrange(0, services@.len() as int) =~= services@);
    }

    pub fn register_actor(&mut self, name: String, actor: A)
        ensures
            final(self).services() == old(self).services(),
            final(self).actor_names() == old(self).actor_names().push(name@),
            final(self).actor_recipients() == old(self).actor_recipients().push(actor),
    {
        let ghost n = name@;
        self.actors.push(ActorInfo { name, actor });
        proof {
            assert(final(self).actor_names() =~= old(self).actor_names().push(n));
            assert(final(self).actor_recipients() =~= old(self).actor_recipients().push(actor));
        }
    }

    /// Sends a shutdown request to every actor, each with a fresh completion
    /// signal, and returns the consumer halves labelled "actor <name>", in
    /// registration order. A request that cannot be delivered is not retried:
    /// its signal then resolves as dropped.
    pub fn notify_actors(&self) -> (r: Vec<PendingCompletion>)
        ensures
            r@.len() == self.actor_names().len(),
            forall|i: int|
                0 <= i < r@.len() ==> #[trigger] r@[i].label@ == actor_prefix()
                    + self.actor_names()[i],
    {
        let mut pending: Vec<PendingCompletion> = Vec::new();
        let mut i: usize = 0;
        while i < self.actors.len()
            invariant
                i <= self.actors@.len(),
                pending@.len() == i,
                forall|k: int|
                    0 <= k < i ==> #[trigger] pending@[k].label@ == actor_prefix()
                        + self.actor_names()[k],
            decreases self.actors@.len() - i,
        {
            let info = &self.actors[i];
            let (service_finished, receiver) = completion_channel();
            let _delivered = info.actor.try_send(GracefulShutdownMsg { service_finished });
            let label = actor_label(info.name.as_str());
            pending.push(PendingCompletion { label, receiver });
            i += 1;
        }
        pending
    }

    /// Calls the shutdown hook of every service, each on a shared handle of
    /// its own, and appends to `pending` the completion signals that the
    /// hooks return, labelled "service <name>", in registration order.
    pub fn notify_services(&self, pending: &mut Vec<PendingCompletion>)
        ensures
            old(pending)@.len() <= final(pending)@.len() <= old(pending)@.len()
                + self.services().len(),
            final(pending)@.subrange(0, old(pending)@.len() as int) == old(pending)@,
            forall|i: int|
                old(pending)@.len() <= i < final(pending)@.len() ==> service_prefix().is_prefix_of(
                    #[trigger] final(pending)@[i].label@,
                ),
    {
        let ghost start = pending@;
        let mut i: usize = 0;
        while i < self.services.len()
            invariant
                i <= self.services@.len(),
                start.len() <= pending@.len() <= start.len() + i,
                pending@.subrange(0, start.len() as int) == start,
                forall|k: int|
                    start.len() <= k < pending@.len() ==> service_prefix().is_prefix_of(
                        #[trigger] pending@[k].label@,
                    ),
            decreases self.services@.len() - i,
        {
            let service = &self.services[i];
            let returned = share(service).graceful_shutdown();
            let ghost before = pending@;
            record_service_completion(pending, service.name(), returned);
            proof {
                if pending@.len() > before.len() {
                    let label = pending@.last().label@;
                    assert(label.subrange(0, service_prefix().len() as int) =~= service_prefix());
                    assert forall|k: int| start.len() <= k < pending@.len() implies service_prefix().is_prefix_of(
                        #[trigger] pending@[k].label@,
                    ) by {
                        if k < before.len() {
                            assert(pending@.drop_last()[k] == before[k]);
                        }
                    }
                    assert(pending@.subrange(0, start.len() as int) =~= before.subrange(
                        0,
                        start.len() as int,
                    ));
                }
            }
            i += 1;
        }
    }

    /// Fan-out: notifies the actors, then the services, and returns every
    /// completion signal to wait on, those of the actors first.
    pub fn notify_all(&self) -> (r: Vec<PendingCompletion>)
        ensures
            self.actor_names().len() <= r@.len() <= self.actor_names().len()
                + self.services().len(),
            forall|i: int|
                0 <= i < self.actor_names().len() ==> #[trigger] r@[i].label@ == actor_prefix()
                    + self.actor_names()[i],
            forall|i: int|
                self.actor_names().len() <= i < r@.len() ==> service_prefix().is_prefix_of(
                    #[trigger] r@[i].label@,
                ),
    {
        let mut pending = self.notify_actors();
        let ghost actors_part = pending@;
        self.notify_services(&mut pending);
        proof {
            assert forall|i: int| 0 <= i < self.actor_names().len() implies #[trigger] pending@[i].label@
                == actor_prefix() + self.actor_names()[i] by {
                assert(pending@.subrange(0, actors_part.len() as int)[i] == actors_part[i]);
            }
        }
        pending
    }

    /// Empties the service registry and reports, in registration order, the
    /// names of the services that are still alive once the registry's own
    /// handles are gone. Actor registrations stay.
    pub fn release_services(&mut self) -> (r: Vec<String>)
        ensures
            final(self).services().len() == 0,
            final(self).actor_names() == old(self).actor_names(),
            final(self).actor_recipients() == old(self).actor_recipients(),
            r@.len() <= old(self).services().len(),
            exists|observed: Seq<Option<String>>|
                observed.len() <= old(self).services().len() && string_views(r@)
                    == #[trigger] leaked_names(observed),
            old(self).services().len() == 0 ==> r@.len() == 0,
    {
        let mut taken: Vec<Arc<S>> = Vec::new();
        std::mem::swap(&mut self.services, &mut taken);
        release_all(taken)
    }
}

} // verus!
