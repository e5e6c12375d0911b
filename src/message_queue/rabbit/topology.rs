use vstd::prelude::*;

verus! {

/// The exchange every queue of the application is bound to.
pub const EXCHANGE: &'static str = "edge.direct";

/// Messages go to the queue whose binding key equals their routing key.
pub const EXCHANGE_TYPE: &'static str = "direct";

/// One declaration sent to the broker on a channel.
pub enum DeclareStep {
    Exchange { name: String, kind: String, durable: bool },
    Queue { name: String, durable: bool },
    Bind { queue: String, exchange: String, routing_key: String },
    /// The most unacknowledged messages the channel's consumer may hold.
    Prefetch { count: u16 },
}

pub enum StepView {
    Exchange { name: Seq<char>, kind: Seq<char>, durable: bool },
    Queue { name: Seq<char>, durable: bool },
    Bind { queue: Seq<char>, exchange: Seq<char>, routing_key: Seq<char> },
    Prefetch { count: u16 },
}

impl View for DeclareStep {
    type V = StepView;

    open spec fn view(&self) -> StepView {
        match self {
            DeclareStep::Exchange { name, kind, durable } => StepView::Exchange {
                name: name@,
                kind: kind@,
                durable: *durable,
            },
            DeclareStep::Queue { name, durable } => StepView::Queue { name: name@, durable: *durable },
            DeclareStep::Bind { queue, exchange, routing_key } => StepView::Bind {
                queue: queue@,
                exchange: exchange@,
                routing_key: routing_key@,
            },
            DeclareStep::Prefetch { count } => StepView::Prefetch { count: *count },
        }
    }
}

/// One queue of the application on a direct exchange, with the prefetch
/// limit of the consumer's channel when there is a consumer. The routing key
/// is the queue's name.
pub struct TopologyView {
    pub exchange: Seq<char>,
    pub queue: Seq<char>,
    pub prefetch: Option<u16>,
}

/// The declarations that set up topology `t`, in order: the durable direct
/// exchange, the durable queue, the binding with the queue's name as routing
/// key, and the prefetch limit if there is one.
pub open spec fn declaration_plan(t: TopologyView) -> Seq<StepView> {
    let base = seq![
        StepView::Exchange { name: t.exchange, kind: EXCHANGE_TYPE@, durable: true },
        StepView::Queue { name: t.queue, durable: true },
        StepView::Bind { queue: t.queue, exchange: t.exchange, routing_key: t.queue },
    ];
    match t.prefetch {
        Some(count) => base.push(StepView::Prefetch { count }),
        None => base,
    }
}

/// What the broker holds after declarations on one channel: exchanges with
/// their kind and durability, queues with their durability, bindings as
/// (queue, exchange, routing key), and the channel's prefetch limit.
pub struct DeclaredTopology {
    pub exchanges: Map<Seq<char>, (Seq<char>, bool)>,
    pub queues: Map<Seq<char>, bool>,
    pub bindings: Set<(Seq<char>, Seq<char>, Seq<char>)>,
    pub prefetch: Option<u16>,
}

/// What one declaration does: redeclaring an entity as it stands changes
/// nothing; redeclaring it otherwise, or binding what does not exist, is
/// refused (`None`).
pub open spec fn declare_step(b: DeclaredTopology, s: StepView) -> Option<DeclaredTopology> {
    match s {
        StepView::Exchange { name, kind, durable } => if b.exchanges.contains_key(name)
            && b.exchanges[name] != (kind, durable) {
            None
        } else {
            Some(DeclaredTopology { exchanges: b.exchanges.insert(name, (kind, durable)), ..b })
        },
        StepView::Queue { name, durable } => if b.queues.contains_key(name) && b.queues[name]
            != durable {
            None
        } else {
            Some(DeclaredTopology { queues: b.queues.insert(name, durable), ..b })
        },
        StepView::Bind { queue, exchange, routing_key } => if !b.exchanges.contains_key(exchange)
            || !b.queues.contains_key(queue) {
            None
        } else {
            Some(DeclaredTopology { bindings: b.bindings.insert((queue, exchange, routing_key)), ..b })
        },
        StepView::Prefetch { count } => Some(DeclaredTopology { prefetch: Some(count), ..b }),
    }
}

/// What a sequence of declarations does, stopping at the first refusal.
pub open spec fn declare_all(b: DeclaredTopology, steps: Seq<StepView>) -> Option<DeclaredTopology>
    decreases steps.len(),
{
    if steps.len() == 0 {
        Some(b)
    } else {
        match declare_step(b, steps[0]) {
            None => None,
            Some(next) => declare_all(next, steps.drop_first()),
        }
    }
}

proof fn lemma_declare_all_prefix(b: DeclaredTopology, steps: Seq<StepView>, last: StepView)
    ensures
        declare_all(b, steps.push(last)) == match declare_all(b, steps) {
            None => None,
            Some(mid) => declare_step(mid, last),
        },
    decreases steps.len(),
{
    if steps.len() == 0 {
        assert(seq![last].drop_first() =~= Seq::<StepView>::empty());
        assert(steps.push(last) =~= seq![last]);
        match declare_step(b, last) {
            None => {},
            Some(next) => {
                assert(declare_all(next, Seq::<StepView>::empty()) == Some(next));
            },
        }
    } else {
        assert(steps.push(last).drop_first() =~= steps.drop_first().push(last));
        match declare_step(b, steps[0]) {
            None => {},
            Some(next) => {
                lemma_declare_all_prefix(next, steps.drop_first(), last);
            },
        }
    }
}

/// Whether declaring `s` on `b` would change nothing.
pub open spec fn already_holds(b: DeclaredTopology, s: StepView) -> bool {
    declare_step(b, s) == Some(b)
}

proof fn lemma_declare_all_unchanged(b: DeclaredTopology, steps: Seq<StepView>)
    requires
        forall|i: int| 0 <= i < steps.len() ==> already_holds(b, #[trigger] steps[i]),
    ensures
        declare_all(b, steps) == Some(b),
    decreases steps.len(),
{
    if steps.len() > 0 {
        assert(already_holds(b, steps[0]));
        assert forall|i: int| 0 <= i < steps.drop_first().len() implies already_holds(
            b,
            #[trigger] steps.drop_first()[i],
        ) by {
            assert(steps.drop_first()[i] == steps[i + 1]);
        }
        lemma_declare_all_unchanged(b, steps.drop_first());
    }
}

/// Declaring a topology twice with the same parameters is the same as
/// declaring it once: the second declaration is not refused, and leaves no
/// second queue, binding or exchange behind.
pub proof fn lemma_declaration_idempotent(b: DeclaredTopology, t: TopologyView)
    requires
        declare_all(b, declaration_plan(t)) is Some,
    ensures
        declare_all(declare_all(b, declaration_plan(t))->0, declaration_plan(t)) == declare_all(
            b,
            declaration_plan(t),
        ),
{
    let base = seq![
        StepView::Exchange { name: t.exchange, kind: EXCHANGE_TYPE@, durable: true },
        StepView::Queue { name: t.queue, durable: true },
        StepView::Bind { queue: t.queue, exchange: t.exchange, routing_key: t.queue },
    ];
    let s0 = base[0];
    let s1 = base[1];
    let s2 = base[2];
    assert(seq![s0].push(s1) =~= seq![s0, s1]);
    assert(seq![s0, s1].push(s2) =~= base);
    assert(Seq::<StepView>::empty().push(s0) =~= seq![s0]);
    lemma_declare_all_prefix(b, Seq::<StepView>::empty(), s0);
    lemma_declare_all_prefix(b, seq![s0], s1);
    lemma_declare_all_prefix(b, seq![s0, s1], s2);
    let plan = declaration_plan(t);
    match t.prefetch {
        Some(count) => {
            lemma_declare_all_prefix(b, base, StepView::Prefetch { count });
        },
        None => {},
    }
    let end = declare_all(b, plan)->0;
    assert(end.exchanges.contains_key(t.exchange) && end.exchanges[t.exchange] == (
        EXCHANGE_TYPE@,
        true,
    ));
    assert(end.queues.contains_key(t.queue) && end.queues[t.queue] == true);
    assert(end.bindings.contains((t.queue, t.exchange, t.queue)));
    assert forall|i: int| 0 <= i < plan.len() implies already_holds(end, #[trigger] plan[i]) by {
        if i == 0 {
            assert(end.exchanges.insert(t.exchange, (EXCHANGE_TYPE@, true)) =~= end.exchanges);
        } else if i == 1 {
            assert(end.queues.insert(t.queue, true) =~= end.queues);
        } else if i == 2 {
            assert(end.bindings.insert((t.queue, t.exchange, t.queue)) =~= end.bindings);
        }
    }
    lemma_declare_all_unchanged(end, plan);
}

/// The topology of one queue.
pub struct Topology {
    exchange: String,
    queue: String,
    prefetch: Option<u16>,
}

impl View for Topology {
    type V = TopologyView;

    closed spec fn view(&self) -> TopologyView {
        TopologyView { exchange: self.exchange@, queue: self.queue@, prefetch: self.prefetch }
    }
}

/// The declaration of a durable direct exchange named `name`.
pub fn exchange_step(name: &str) -> (r: DeclareStep)
    ensures
        r@ == (StepView::Exchange { name: name@, kind: EXCHANGE_TYPE@, durable: true }),
{
    DeclareStep::Exchange { name: name.to_owned(), kind: EXCHANGE_TYPE.to_owned(), durable: true }
}

impl Topology {
    /// Queue `queue` bound to `exchange`; `prefetch` limits the consumer of
    /// the channel, when there is one.
    pub fn new(exchange: &str, queue: &str, prefetch: Option<u16>) -> (r: Topology)
        ensures
            r@ == (TopologyView { exchange: exchange@, queue: queue@, prefetch }),
    {
        Topology { exchange: exchange.to_owned(), queue: queue.to_owned(), prefetch }
    }

    pub fn exchange(&self) -> (r: &str)
        ensures
            r@ == self@.exchange,
    {
        self.exchange.as_str()
    }

    pub fn queue(&self) -> (r: &str)
        ensures
            r@ == self@.queue,
    {
        self.queue.as_str()
    }

    /// The routing key of the queue's messages: its own name.
    pub fn routing_key(&self) -> (r: &str)
        ensures
            r@ == self@.queue,
    {
        self.queue.as_str()
    }

    pub fn prefetch(&self) -> (r: Option<u16>)
        ensures
            r == self@.prefetch,
    {
        self.prefetch
    }

    /// The declarations to send, in order, before the queue is used.
    pub fn declaration(&self) -> (r: Vec<DeclareStep>)
        ensures
            r@.len() == declaration_plan(self@).len(),
            forall|i: int| 0 <= i < r@.len() ==> (#[trigger] r@[i])@ == declaration_plan(self@)[i],
    {
        let mut steps: Vec<DeclareStep> = Vec::new();
        steps.push(exchange_step(self.exchange.as_str()));
        steps.push(DeclareStep::Queue { name: self.queue.clone(), durable: true });
        steps.push(
            DeclareStep::Bind {
                queue: self.queue.clone(),
                exchange: self.exchange.clone(),
                routing_key: self.queue.clone(),
            },
        );
        match self.prefetch {
            Some(count) => steps.push(DeclareStep::Prefetch { count }),
            None => {},
        }
        steps
    }
}

} // verus!
