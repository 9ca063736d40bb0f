//! What the broker holds: a model of its exchanges, queues and bindings, and
//! of how it answers the requests of the startup plan.
//!
//! Declaring is idempotent on the broker's side. A declaration that names an
//! object the broker already holds with the same parameters changes nothing; one
//! that names it with other parameters is refused. That is what lets the service
//! declare its topology again on every start.

use crate::topology::{plan, step_at, ExchangeKind, Step, PLAN_LEN};
use vstd::prelude::*;

verus! {

/// The broker's objects, by name.
pub struct RegistryView {
    /// Kind and durability of each exchange.
    pub exchanges: Map<Seq<char>, (ExchangeKind, bool)>,
    /// Durability of each queue.
    pub queues: Map<Seq<char>, bool>,
    /// The bindings, each as queue, exchange and routing-key pattern.
    pub bindings: Set<(Seq<char>, Seq<char>, Seq<char>)>,
}

/// Why the broker refused a request.
#[derive(Clone, Copy, Debug, PartialEq, Eq)]
pub enum DeclareError {
    /// The object exists with other parameters.
    Conflict,
    /// The request names a queue or an exchange that does not exist.
    NotFound,
}

/// A broker that holds nothing yet.
pub open spec fn empty_registry() -> RegistryView {
    RegistryView { exchanges: Map::empty(), queues: Map::empty(), bindings: Set::empty() }
}

/// Declares an exchange. One that is already there with the same kind and
/// durability is left as it is; with other parameters the request is refused.
pub open spec fn with_exchange(
    before: RegistryView,
    name: Seq<char>,
    kind: ExchangeKind,
    durable: bool,
) -> Result<RegistryView, DeclareError> {
    if !before.exchanges.contains_key(name) {
        Ok(RegistryView { exchanges: before.exchanges.insert(name, (kind, durable)), ..before })
    } else if before.exchanges[name] == (kind, durable) {
        Ok(before)
    } else {
        Err(DeclareError::Conflict)
    }
}

/// Declares a queue. One that is already there with the same durability is
/// left as it is; with another the request is refused.
pub open spec fn with_queue(before: RegistryView, name: Seq<char>, durable: bool) -> Result<
    RegistryView,
    DeclareError,
> {
    if !before.queues.contains_key(name) {
        Ok(RegistryView { queues: before.queues.insert(name, durable), ..before })
    } else if before.queues[name] == durable {
        Ok(before)
    } else {
        Err(DeclareError::Conflict)
    }
}

/// Binds a queue to an exchange. Both must exist.
pub open spec fn with_binding(
    before: RegistryView,
    queue: Seq<char>,
    exchange: Seq<char>,
    routing_key: Seq<char>,
) -> Result<RegistryView, DeclareError> {
    if before.queues.contains_key(queue) && before.exchanges.contains_key(exchange) {
        Ok(
            RegistryView {
                bindings: before.bindings.insert((queue, exchange, routing_key)),
                ..before
            },
        )
    } else {
        Err(DeclareError::NotFound)
    }
}

/// Starts a consumer on a queue, which must exist. The broker's objects stay
/// as they are.
pub open spec fn with_consumer(before: RegistryView, queue: Seq<char>) -> Result<
    RegistryView,
    DeclareError,
> {
    if before.queues.contains_key(queue) {
        Ok(before)
    } else {
        Err(DeclareError::NotFound)
    }
}

/// What the broker holds after a request, or why it refused it. Opening a
/// channel leaves its objects as they are.
pub open spec fn declare(before: RegistryView, step: Step) -> Result<RegistryView, DeclareError> {
    match step {
        Step::OpenChannel { .. } => Ok(before),
        Step::DeclareExchange { exchange, kind, durable, .. } => with_exchange(
            before,
            exchange@,
            kind,
            durable,
        ),
        Step::DeclareQueue { queue, durable, .. } => with_queue(before, queue@, durable),
        Step::BindQueue { queue, exchange, routing_key, .. } => with_binding(
            before,
            queue@,
            exchange@,
            routing_key@,
        ),
        Step::Consume { queue, .. } => with_consumer(before, queue@),
    }
}

/// The broker answered as `expected` says: it granted the request and holds
/// what `expected` holds, or it refused for the reason `expected` gives and
/// holds what it held.
pub open spec fn answered(
    before: RegistryView,
    after: RegistryView,
    answer: Result<(), DeclareError>,
    expected: Result<RegistryView, DeclareError>,
) -> bool {
    match expected {
        Ok(granted) => answer is Ok && after == granted,
        Err(refusal) => answer == Err::<(), DeclareError>(refusal) && after == before,
    }
}

/// Where a run of requests ended: what the broker holds, and the refusal
/// that stopped the run, if one did.
pub struct Declared {
    pub registry: RegistryView,
    pub refusal: Option<DeclareError>,
}

/// Sends `steps` one after the other and stops at the first refusal.
pub open spec fn declare_all(before: RegistryView, steps: Seq<Step>) -> Declared
    decreases steps.len(),
{
    if steps.len() == 0 {
        Declared { registry: before, refusal: None }
    } else {
        match declare(before, steps[0]) {
            Ok(next) => declare_all(next, steps.drop_first()),
            Err(refusal) => Declared { registry: before, refusal: Some(refusal) },
        }
    }
}

struct ExchangeEntry {
    name: String,
    kind: ExchangeKind,
    durable: bool,
}

struct QueueEntry {
    name: String,
    durable: bool,
}

struct BindingEntry {
    queue: String,
    exchange: String,
    routing_key: String,
}

impl BindingEntry {
    spec fn key(self) -> (Seq<char>, Seq<char>, Seq<char>) {
        (self.queue@, self.exchange@, self.routing_key@)
    }
}

spec fn exchanges_match(
    entries: Seq<ExchangeEntry>,
    held: Map<Seq<char>, (ExchangeKind, bool)>,
) -> bool {
    &&& forall|i: int|
        0 <= i < entries.len() ==> held.contains_key((#[trigger] entries[i]).name@)
            && held[entries[i].name@] == (entries[i].kind, entries[i].durable)
    &&& forall|name: Seq<char>| #[trigger]
        held.contains_key(name) ==> exists|i: int|
            0 <= i < entries.len() && (#[trigger] entries[i]).name@ == name
}

spec fn queues_match(entries: Seq<QueueEntry>, held: Map<Seq<char>, bool>) -> bool {
    &&& forall|i: int|
        0 <= i < entries.len() ==> held.contains_key((#[trigger] entries[i]).name@)
            && held[entries[i].name@] == entries[i].durable
    &&& forall|name: Seq<char>| #[trigger]
        held.contains_key(name) ==> exists|i: int|
            0 <= i < entries.len() && (#[trigger] entries[i]).name@ == name
}

spec fn bindings_match(
    entries: Seq<BindingEntry>,
    held: Set<(Seq<char>, Seq<char>, Seq<char>)>,
) -> bool {
    &&& forall|i: int| 0 <= i < entries.len() ==> held.contains((#[trigger] entries[i]).key())
    &&& forall|binding: (Seq<char>, Seq<char>, Seq<char>)| #[trigger]
        held.contains(binding) ==> exists|i: int|
            0 <= i < entries.len() && (#[trigger] entries[i]).key() == binding
}

/// A broker's registry that can be run: it answers requests as [`declare`]
/// says, so a plan can be tried out against it.
pub struct Registry {
    exchanges: Vec<ExchangeEntry>,
    queues: Vec<QueueEntry>,
    bindings: Vec<BindingEntry>,
    model: Ghost<RegistryView>,
}

impl View for Registry {
    type V = RegistryView;

    closed spec fn view(&self) -> RegistryView {
        self.model@
    }
}

impl Registry {
    /// The stored entries are exactly what the view holds.
    pub closed spec fn wf(&self) -> bool {
        &&& exchanges_match(self.exchanges@, self.model@.exchanges)
        &&& queues_match(self.queues@, self.model@.queues)
        &&& bindings_match(self.bindings@, self.model@.bindings)
    }

    /// A broker that holds nothing yet.
    pub fn new() -> (registry: Registry)
        ensures
            registry.wf(),
            registry@ == empty_registry(),
    {
        Registry {
            exchanges: Vec::new(),
            queues: Vec::new(),
            bindings: Vec::new(),
            model: Ghost(empty_registry()),
        }
    }

    fn find_exchange(&self, name: &String) -> (found: Option<usize>)
        requires
            self.wf(),
        ensures
            match found {
                Some(i) => i < self.exchanges.len() && self.exchanges[i as int].name@ == name@,
                None => !self@.exchanges.contains_key(name@),
            },
    {
        let mut i: usize = 0;
        while i < self.exchanges.len()
            invariant
                i <= self.exchanges.len(),
                forall|j: int| 0 <= j < i ==> (#[trigger] self.exchanges[j]).name@ != name@,
            decreases self.exchanges.len() - i,
        {
            if self.exchanges[i].name == *name {
                return Some(i);
            }
            i += 1;
        }
        None
    }

    fn find_queue(&self, name: &String) -> (found: Option<usize>)
        requires
            self.wf(),
        ensures
            match found {
                Some(i) => i < self.queues.len() && self.queues[i as int].name@ == name@,
                None => !self@.queues.contains_key(name@),
            },
    {
        let mut i: usize = 0;
        while i < self.queues.len()
            invariant
                i <= self.queues.len(),
                forall|j: int| 0 <= j < i ==> (#[trigger] self.queues[j]).name@ != name@,
            decreases self.queues.len() - i,
        {
            if self.queues[i].name == *name {
                return Some(i);
            }
            i += 1;
        }
        None
    }

    /// Kind and durability of the exchange called `name`, if there is one.
    pub fn exchange(&self, name: &str) -> (found: Option<(ExchangeKind, bool)>)
        requires
            self.wf(),
        ensures
            found == if self@.exchanges.contains_key(name@) {
                Some(self@.exchanges[name@])
            } else {
                None
            },
    {
        let name = name.to_owned();
        match self.find_exchange(&name) {
            Some(i) => Some((self.exchanges[i].kind, self.exchanges[i].durable)),
            None => None,
        }
    }

    /// Durability of the queue called `name`, if there is one.
    pub fn queue(&self, name: &str) -> (found: Option<bool>)
        requires
            self.wf(),
        ensures
            found == if self@.queues.contains_key(name@) {
                Some(self@.queues[name@])
            } else {
                None
            },
    {
        let name = name.to_owned();
        match self.find_queue(&name) {
            Some(i) => Some(self.queues[i].durable),
            None => None,
        }
    }

    /// Whether `queue` is bound to `exchange` with the pattern `routing_key`.
    pub fn is_bound(&self, queue: &str, exchange: &str, routing_key: &str) -> (bound: bool)
        requires
            self.wf(),
        ensures
            bound == self@.bindings.contains((queue@, exchange@, routing_key@)),
    {
        let wanted = BindingEntry {
            queue: queue.to_owned(),
            exchange: exchange.to_owned(),
            routing_key: routing_key.to_owned(),
        };
        let mut i: usize = 0;
        while i < self.bindings.len()
            invariant
                self.wf(),
                i <= self.bindings.len(),
                wanted.key() == (queue@, exchange@, routing_key@),
                forall|j: int| 0 <= j < i ==> (#[trigger] self.bindings[j]).key() != wanted.key(),
            decreases self.bindings.len() - i,
        {
            let entry = &self.bindings[i];
            if entry.queue == wanted.queue && entry.exchange == wanted.exchange
                && entry.routing_key == wanted.routing_key {
                return true;
            }
            i += 1;
        }
        false
    }

    /// Declares an exchange.
    pub fn declare_exchange(&mut self, name: &str, kind: ExchangeKind, durable: bool) -> (answer:
        Result<(), DeclareError>)
        requires
            old(self).wf(),
        ensures
            final(self).wf(),
            answered(
                old(self)@,
                final(self)@,
                answer,
                with_exchange(old(self)@, name@, kind, durable),
            ),
    {
        let owned = name.to_owned();
        match self.find_exchange(&owned) {
            Some(i) => {
                if self.exchanges[i].kind == kind && self.exchanges[i].durable == durable {
                    Ok(())
                } else {
                    Err(DeclareError::Conflict)
                }
            },
            None => {
                self.exchanges.push(ExchangeEntry { name: owned, kind, durable });
                self.model = Ghost(
                    RegistryView {
                        exchanges: self.model@.exchanges.insert(name@, (kind, durable)),
                        ..self.model@
                    },
                );
                proof {
                    let added = old(self).exchanges.len() as int;
                    assert(self.exchanges[added].name@ == name@);
                    assert forall|other: Seq<char>| #[trigger]
                        self.model@.exchanges.contains_key(other) implies exists|i: int|
                        0 <= i < self.exchanges.len() && (#[trigger] self.exchanges[i]).name@
                            == other by {
                        if other != name@ {
                            let i = choose|i: int|
                                0 <= i < added && (#[trigger] old(self).exchanges[i]).name@
                                    == other;
                            assert(self.exchanges[i].name@ == other);
                        }
                    }
                }
                Ok(())
            },
        }
    }

    /// Declares a queue.
    pub fn declare_queue(&mut self, name: &str, durable: bool) -> (answer: Result<
        (),
        DeclareError,
    >)
        requires
            old(self).wf(),
        ensures
            final(self).wf(),
            answered(old(self)@, final(self)@, answer, with_queue(old(self)@, name@, durable)),
    {
        let owned = name.to_owned();
        match self.find_queue(&owned) {
            Some(i) => {
                if self.queues[i].durable == durable {
                    Ok(())
                } else {
                    Err(DeclareError::Conflict)
                }
            },
            None => {
                self.queues.push(QueueEntry { name: owned, durable });
                self.model = Ghost(
                    RegistryView {
                        queues: self.model@.queues.insert(name@, durable),
                        ..self.model@
                    },
                );
                proof {
                    let added = old(self).queues.len() as int;
                    assert(self.queues[added].name@ == name@);
                    assert forall|other: Seq<char>| #[trigger]
                        self.model@.queues.contains_key(other) implies exists|i: int|
                        0 <= i < self.queues.len() && (#[trigger] self.queues[i]).name@
                            == other by {
                        if other != name@ {
                            let i = choose|i: int|
                                0 <= i < added && (#[trigger] old(self).queues[i]).name@ == other;
                            assert(self.queues[i].name@ == other);
                        }
                    }
                }
                Ok(())
            },
        }
    }

    /// Binds a queue to an exchange with a routing-key pattern.
    pub fn bind_queue(&mut self, queue: &str, exchange: &str, routing_key: &str) -> (answer:
        Result<(), DeclareError>)
        requires
            old(self).wf(),
        ensures
            final(self).wf(),
            answered(
                old(self)@,
                final(self)@,
                answer,
                with_binding(old(self)@, queue@, exchange@, routing_key@),
            ),
    {
        if self.queue(queue).is_none() || self.exchange(exchange).is_none() {
            return Err(DeclareError::NotFound);
        }
        let ghost target = (queue@, exchange@, routing_key@);
        if !self.is_bound(queue, exchange, routing_key) {
            self.bindings.push(
                BindingEntry {
                    queue: queue.to_owned(),
                    exchange: exchange.to_owned(),
                    routing_key: routing_key.to_owned(),
                },
            );
        }
        self.model = Ghost(
            RegistryView { bindings: self.model@.bindings.insert(target), ..self.model@ },
        );
        proof {
            assert forall|binding: (Seq<char>, Seq<char>, Seq<char>)| #[trigger]
                self.model@.bindings.contains(binding) implies exists|i: int|
                0 <= i < self.bindings.len() && (#[trigger] self.bindings[i]).key()
                    == binding by {
                if old(self).model@.bindings.contains(binding) {
                    let i = choose|i: int|
                        0 <= i < old(self).bindings.len() && (#[trigger] old(
                            self,
                        ).bindings[i]).key() == binding;
                    assert(self.bindings[i].key() == binding);
                } else {
                    let added = old(self).bindings.len() as int;
                    assert(self.bindings[added].key() == binding);
                }
            }
        }
        Ok(())
    }

    /// Starts a consumer on a queue.
    pub fn consume(&self, queue: &str) -> (answer: Result<(), DeclareError>)
        requires
            self.wf(),
        ensures
            answered(self@, self@, answer, with_consumer(self@, queue@)),
    {
        if self.queue(queue).is_none() {
            Err(DeclareError::NotFound)
        } else {
            Ok(())
        }
    }

    /// Answers one request of a plan as the broker would.
    pub fn apply(&mut self, step: Step) -> (answer: Result<(), DeclareError>)
        requires
            old(self).wf(),
        ensures
            final(self).wf(),
            answered(old(self)@, final(self)@, answer, declare(old(self)@, step)),
    {
        match step {
            Step::OpenChannel { .. } => Ok(()),
            Step::DeclareExchange { exchange, kind, durable, .. } => self.declare_exchange(
                exchange,
                kind,
                durable,
            ),
            Step::DeclareQueue { queue, durable, .. } => self.declare_queue(queue, durable),
            Step::BindQueue { queue, exchange, routing_key, .. } => self.bind_queue(
                queue,
                exchange,
                routing_key,
            ),
            Step::Consume { queue, .. } => self.consume(queue),
        }
    }

    /// Answers the whole startup plan, request by request, and stops at the
    /// first refusal.
    pub fn apply_plan(&mut self) -> (answer: Result<(), DeclareError>)
        requires
            old(self).wf(),
        ensures
            final(self).wf(),
            final(self)@ == declare_all(old(self)@, plan()).registry,
            answer == match declare_all(old(self)@, plan()).refusal {
                None => Ok::<(), DeclareError>(()),
                Some(refusal) => Err::<(), DeclareError>(refusal),
            },
    {
        let mut index: usize = 0;
        assert(plan().subrange(0, PLAN_LEN as int) =~= plan());
        while index < PLAN_LEN
            invariant
                index <= PLAN_LEN,
                plan().len() == PLAN_LEN,
                self.wf(),
                declare_all(old(self)@, plan()) == declare_all(
                    self@,
                    plan().subrange(index as int, PLAN_LEN as int),
                ),
            decreases PLAN_LEN - index,
        {
            let ghost rest = plan().subrange(index as int, PLAN_LEN as int);
            assert(rest.drop_first() =~= plan().subrange(index + 1, PLAN_LEN as int));
            match step_at(index) {
                Some(step) => {
                    match self.apply(step) {
                        Ok(()) => {},
                        Err(refusal) => {
                            return Err(refusal);
                        },
                    }
                },
                None => {},
            }
            index += 1;
        }
        Ok(())
    }
}

/// `later` holds everything `earlier` holds, with the same parameters.
pub open spec fn extends(later: RegistryView, earlier: RegistryView) -> bool {
    &&& forall|name: Seq<char>| #[trigger]
        earlier.exchanges.contains_key(name) ==> later.exchanges.contains_key(name)
            && later.exchanges[name] == earlier.exchanges[name]
    &&& forall|name: Seq<char>| #[trigger]
        earlier.queues.contains_key(name) ==> later.queues.contains_key(name) && later.queues[name]
            == earlier.queues[name]
    &&& forall|binding: (Seq<char>, Seq<char>, Seq<char>)| #[trigger]
        earlier.bindings.contains(binding) ==> later.bindings.contains(binding)
}

/// A request that the broker granted is granted again, and changes nothing,
/// on every broker that holds at least what the first one held afterwards.
pub proof fn granted_once_granted_again(
    before: RegistryView,
    step: Step,
    later: RegistryView,
)
    requires
        declare(before, step) is Ok,
        extends(later, declare(before, step)->Ok_0),
    ensures
        declare(later, step) == Ok::<RegistryView, DeclareError>(later),
{
    let after = declare(before, step)->Ok_0;
    match step {
        Step::OpenChannel { .. } => {},
        Step::DeclareExchange { exchange, kind, durable, .. } => {
            assert(after.exchanges.contains_key(exchange@));
            assert(after.exchanges[exchange@] == (kind, durable));
        },
        Step::DeclareQueue { queue, durable, .. } => {
            assert(after.queues.contains_key(queue@));
            assert(after.queues[queue@] == durable);
        },
        Step::BindQueue { queue, exchange, routing_key, .. } => {
            assert(after.queues.contains_key(queue@));
            assert(after.exchanges.contains_key(exchange@));
            assert(after.bindings.contains((queue@, exchange@, routing_key@)));
            assert(later.bindings.insert((queue@, exchange@, routing_key@)) =~= later.bindings);
        },
        Step::Consume { queue, .. } => {
            assert(after.queues.contains_key(queue@));
        },
    }
}

/// The broker never forgets: what it holds after a granted request includes
/// what it held before.
pub proof fn declare_only_adds(before: RegistryView, step: Step)
    requires
        declare(before, step) is Ok,
    ensures
        extends(declare(before, step)->Ok_0, before),
{
}

/// Whatever a run of requests leaves behind includes what was there before.
pub proof fn declare_all_only_adds(before: RegistryView, steps: Seq<Step>)
    ensures
        extends(declare_all(before, steps).registry, before),
    decreases steps.len(),
{
    if steps.len() > 0 && declare(before, steps[0]) is Ok {
        let next = declare(before, steps[0])->Ok_0;
        declare_only_adds(before, steps[0]);
        declare_all_only_adds(next, steps.drop_first());
    }
}

/// Requests that were all granted are all granted again, and change nothing,
/// on every broker that holds at least what the run left behind.
pub proof fn granted_run_granted_again(
    before: RegistryView,
    steps: Seq<Step>,
    later: RegistryView,
)
    requires
        declare_all(before, steps).refusal is None,
        extends(later, declare_all(before, steps).registry),
    ensures
        declare_all(later, steps) == (Declared { registry: later, refusal: None }),
    decreases steps.len(),
{
    if steps.len() > 0 {
        let next = declare(before, steps[0])->Ok_0;
        let rest = steps.drop_first();
        declare_all_only_adds(next, rest);
        granted_once_granted_again(before, steps[0], later);
        granted_run_granted_again(next, rest, later);
    }
}

/// Declaring the same topology twice does not fail: where a run of requests
/// was granted, the same run, sent again to the broker as the first run left
/// it, is granted as well and leaves the broker unchanged.
pub proof fn declaring_twice_does_not_fail(before: RegistryView, steps: Seq<Step>)
    requires
        declare_all(before, steps).refusal is None,
    ensures
        declare_all(declare_all(before, steps).registry, steps) == (Declared {
            registry: declare_all(before, steps).registry,
            refusal: None,
        }),
{
    granted_run_granted_again(before, steps, declare_all(before, steps).registry);
}

/// The broker holds nothing that stands in the way of the startup plan: each
/// exchange and queue of the plan is either absent or there with the
/// parameters the plan declares it with.
pub open spec fn agrees_with_plan(registry: RegistryView) -> bool {
    &&& registry.exchanges.contains_key("log"@) ==> registry.exchanges["log"@] == (
        ExchangeKind::Topic,
        true,
    )
    &&& registry.exchanges.contains_key("message"@) ==> registry.exchanges["message"@] == (
        ExchangeKind::Topic,
        true,
    )
    &&& registry.queues.contains_key("log"@) ==> registry.queues["log"@] == false
    &&& registry.queues.contains_key("message"@) ==> registry.queues["message"@] == false
}

/// The topology stands: both exchanges are durable topic exchanges, both
/// queues exist, and the message queue is bound to the message exchange with
/// the catch-all pattern.
pub open spec fn holds_topology(registry: RegistryView) -> bool {
    &&& registry.exchanges.contains_key("log"@)
    &&& registry.exchanges.contains_key("message"@)
    &&& registry.queues.contains_key("log"@)
    &&& registry.queues.contains_key("message"@)
    &&& registry.bindings.contains(("message"@, "message"@, "#"@))
    &&& agrees_with_plan(registry)
}

/// The startup plan is granted by every broker that agrees with it, the
/// empty one and the one left by an earlier start among them, and once it has
/// been carried out the topology stands.
pub proof fn plan_is_granted(before: RegistryView)
    requires
        agrees_with_plan(before),
    ensures
        declare_all(before, plan()).refusal is None,
        holds_topology(declare_all(before, plan()).registry),
        agrees_with_plan(empty_registry()),
{
    reveal_with_fuel(declare_all, 9);
}

} // verus!
