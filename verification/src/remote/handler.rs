//! Routing of envelopes to handlers by message type.

use vstd::prelude::*;
use crate::message::Message;
use crate::remote::envelope::Envelope;
use crate::remote::table::Table;

verus! {

/// A message that can cross nodes: its type has a stable tag.
pub trait RemoteMessage: Message {
    fn type_id() -> &'static str;
}

/// Collects the handlers of a node, one for each message type and an
/// optional one for all the others.
pub struct MessageRouter<H> {
    handlers: Table<H>,
    default_handler: Option<H>,
}

/// The handler that a router with these routes and this fallback picks for
/// `message_type`: the one registered for the type, else the fallback.
pub open spec fn chosen<H>(
    routes: Map<Seq<char>, H>,
    fallback: Option<H>,
    message_type: Seq<char>,
) -> Option<H> {
    if routes.contains_key(message_type) {
        Some(routes[message_type])
    } else {
        fallback
    }
}

impl<H> MessageRouter<H> {
    /// The handlers by message type.
    pub closed spec fn routes(self) -> Map<Seq<char>, H> {
        self.handlers@
    }

    /// The handler for message types without a route.
    pub closed spec fn fallback(self) -> Option<H> {
        self.default_handler
    }

    /// A router without handlers.
    pub fn new() -> (router: Self)
        ensures
            router.routes() == Map::<Seq<char>, H>::empty(),
            router.fallback() is None,
    {
        MessageRouter { handlers: Table::new(), default_handler: None }
    }

    /// Routes messages of type `M` to `handler`: `route_type` under the tag
    /// that `M` declares.
    pub fn route<M: RemoteMessage>(self, handler: H) -> (router: Self)
        ensures
            exists|tag: Seq<char>| router.routes() == self.routes().insert(tag, handler),
            router.fallback() == self.fallback(),
    {
        let tag = M::type_id();
        let ghost before = self;
        let router = self.route_type(tag, handler);
        assert(router.routes() == before.routes().insert(tag@, handler));
        router
    }

    /// Routes messages tagged `type_id` to `handler`, in place of any handler
    /// that the tag had.
    pub fn route_type(self, type_id: &str, handler: H) -> (router: Self)
        ensures
            router.routes() == self.routes().insert(type_id@, handler),
            router.fallback() == self.fallback(),
    {
        let MessageRouter { handlers, default_handler } = self;
        MessageRouter { handlers: handlers.with(type_id.to_owned(), handler), default_handler }
    }

    /// Sets the handler for message types without a route.
    pub fn default(self, handler: H) -> (router: Self)
        ensures
            router.routes() == self.routes(),
            router.fallback() == Some(handler),
    {
        let MessageRouter { handlers, default_handler: _ } = self;
        MessageRouter { handlers, default_handler: Some(handler) }
    }

    /// The handler for `envelope`: the one routed for its message type, else
    /// the fallback, else none, and the envelope is dropped.
    pub fn build(&self, envelope: &Envelope) -> (handler: Option<&H>)
        ensures
            match chosen(self.routes(), self.fallback(), envelope@.message_type) {
                Some(h) => handler == Some(&h),
                None => handler is None,
            },
    {
        match self.handlers.get(envelope.message_type.as_str()) {
            Some(h) => Some(h),
            None => self.default_handler.as_ref(),
        }
    }
}

/// The last route for a type wins, routes for other types stay, and the
/// fallback answers only where no route does.
pub proof fn lemma_routing<H>(
    routes: Map<Seq<char>, H>,
    fallback: Option<H>,
    type_id: Seq<char>,
    handler: H,
    other: Seq<char>,
)
    ensures
        chosen(routes.insert(type_id, handler), fallback, type_id) == Some(handler),
        other != type_id ==> chosen(routes.insert(type_id, handler), fallback, other) == chosen(
            routes,
            fallback,
            other,
        ),
        !routes.contains_key(other) ==> chosen(routes, fallback, other) == fallback,
        chosen(Map::<Seq<char>, H>::empty(), None::<H>, other) is None,
{
}

} // verus!
