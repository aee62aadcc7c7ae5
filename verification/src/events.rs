use vstd::prelude::*;

verus! {

/// A pipeline milestone, carrying only what observers need to log.
pub enum RssEvent {
    /// The feed was fetched and parsed.
    FeedFetched { url: String, item_count: usize },
    /// The feed's entries were converted to the library's model.
    DataConverted { item_count: usize },
    /// A structured summary was extracted from the backend answer.
    SummaryGenerated { article_count: usize },
    /// The notification batch was delivered.
    NotificationSent { count: usize },
}

impl RssEvent {
    /// An equal copy of the event.
    pub fn duplicate(&self) -> (r: RssEvent)
        ensures
            r == *self,
    {
        match self {
            RssEvent::FeedFetched { url, item_count } => RssEvent::FeedFetched {
                url: url.clone(),
                item_count: *item_count,
            },
            RssEvent::DataConverted { item_count } => RssEvent::DataConverted {
                item_count: *item_count,
            },
            RssEvent::SummaryGenerated { article_count } => RssEvent::SummaryGenerated {
                article_count: *article_count,
            },
            RssEvent::NotificationSent { count } => RssEvent::NotificationSent { count: *count },
        }
    }
}

/// An observer of pipeline milestones; observers only record or log, and
/// have no return channel into the pipeline.
pub trait EventSubscriber {
    /// The events this observer has handled, in arrival order.
    spec fn seen(&self) -> Seq<RssEvent>;

    /// Handles one event: the observer's record gains exactly this event.
    fn handle(&mut self, event: &RssEvent)
        ensures
            final(self).seen() == old(self).seen().push(*event),
    ;
}

/// A broadcaster of pipeline milestones.
pub trait EventPublisher {
    /// Hands one event to every registered observer.
    fn publish(&mut self, event: &RssEvent);
}

/// A publisher holding its observers in memory and invoking them
/// synchronously, in registration order.
pub struct InMemoryEventPublisher<S: EventSubscriber> {
    pub subscribers: Vec<S>,
}

impl<S: EventSubscriber> InMemoryEventPublisher<S> {
    /// A publisher with no observers yet.
    pub fn new() -> (r: Self)
        ensures
            r.subscribers@.len() == 0,
    {
        Self { subscribers: Vec::new() }
    }

    /// Registers one more observer, after all earlier ones.
    pub fn add_subscriber(&mut self, subscriber: S)
        ensures
            final(self).subscribers@ == old(self).subscribers@.push(subscriber),
    {
        self.subscribers.push(subscriber);
    }
}

impl<S: EventSubscriber> Default for InMemoryEventPublisher<S> {
    /// The same as a fresh publisher: no observers yet.
    fn default() -> (r: Self)
        ensures
            r.subscribers@.len() == 0,
    {
        Self::new()
    }
}

impl<S: EventSubscriber> EventPublisher for InMemoryEventPublisher<S> {
    /// Invokes every observer registered at call time on the event, in
    /// registration order, and returns only after all have run: the registry
    /// keeps its observer count, and each observer's record gains exactly
    /// this one event.
    fn publish(&mut self, event: &RssEvent)
        ensures
            final(self).subscribers@.len() == old(self).subscribers@.len(),
            forall|k: int|
                0 <= k < old(self).subscribers@.len()
                    ==> (#[trigger] final(self).subscribers@[k]).seen()
                    == old(self).subscribers@[k].seen().push(*event),
    {
        let n = self.subscribers.len();
        for i in 0..n
            invariant
                self.subscribers@.len() == n,
                n == old(self).subscribers@.len(),
                forall|k: int|
                    0 <= k < i ==> (#[trigger] self.subscribers@[k]).seen()
                        == old(self).subscribers@[k].seen().push(*event),
                forall|k: int|
                    i <= k < n ==> #[trigger] self.subscribers@[k] == old(self).subscribers@[k],
        {
            let ghost prev = self.subscribers@;
            let mut s = self.subscribers.remove(i);
            s.handle(event);
            let ghost handled = s;
            self.subscribers.insert(i, s);
            proof {
                assert(self.subscribers@ =~= prev.update(i as int, handled));
            }
        }
    }
}

/// An observer that keeps every event it sees, in arrival order, for the
/// host to render into its log.
pub struct LoggingEventSubscriber {
    pub records: Vec<RssEvent>,
}

impl LoggingEventSubscriber {
    /// An observer with an empty record.
    pub fn new() -> (r: Self)
        ensures
            r.records@.len() == 0,
    {
        Self { records: Vec::new() }
    }

    /// Appends one event to the record.
    pub fn record(&mut self, event: &RssEvent)
        ensures
            final(self).records@ == old(self).records@.push(*event),
    {
        let copy = event.duplicate();
        self.records.push(copy);
    }
}

impl EventSubscriber for LoggingEventSubscriber {
    /// This observer's record is the list of events it kept.
    open spec fn seen(&self) -> Seq<RssEvent> {
        self.records@
    }

    /// Appends the event to the record and does nothing else.
    fn handle(&mut self, event: &RssEvent) {
        self.record(event);
    }
}

} // verus!
