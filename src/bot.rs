//! The session kept for one gateway connection, and the dispatcher that turns
//! each event into the actions its caller carries out.

use vstd::prelude::*;
use vstd::string::*;
use twilight_cache_inmemory::{InMemoryCache, ResourceType};
use twilight_model::gateway::event::Event as GatewayEvent;
use crate::model::{Action, ActionView, Event, Message, UserId, actions_view};
use crate::router::{Config, message_actions, moderation, route_command};

verus! {

#[verifier::external_type_specification]
#[verifier::external_body]
pub struct ExInMemoryCache(InMemoryCache);

#[verifier::external_type_specification]
#[verifier::external_body]
pub struct ExGatewayEvent(GatewayEvent);

/// Relies on `InMemoryCache::builder`, `resource_types` and `build` from
/// twilight-cache-inmemory: a fresh cache that keeps message data only.
#[verifier::external_body]
fn message_cache() -> InMemoryCache {
    InMemoryCache::builder().resource_types(ResourceType::MESSAGE).build()
}

/// The session's cache, with the count of the events that went into it.
pub struct EventCache {
    cache: InMemoryCache,
    applied: Ghost<nat>,
}

impl EventCache {
    /// The handle of the underlying cache.
    pub closed spec fn handle(&self) -> InMemoryCache {
        self.cache
    }

    /// How many events went into the cache.
    pub closed spec fn applied(&self) -> nat {
        self.applied@
    }

    /// A fresh cache for message data, with no event in it yet.
    pub fn new() -> (r: EventCache)
        ensures
            r.applied() == 0,
    {
        EventCache { cache: message_cache(), applied: Ghost(0) }
    }

    /// Relies on `InMemoryCache::update` from twilight-cache-inmemory: folds
    /// one event into the cache, through the cache's shared interior, so the
    /// handle stays the same.
    #[verifier::external_body]
    fn update(&mut self, event: &GatewayEvent)
        ensures
            final(self).handle() == old(self).handle(),
            final(self).applied() == old(self).applied() + 1,
    {
        self.cache.update(event)
    }
}

/// The state of one session: the bot's name once the gateway confirmed it,
/// the credential, the owner, the shard of the last event, and the cache that
/// every received event is folded into.
pub struct Bot {
    name: Option<String>,
    token: String,
    owner: Option<UserId>,
    shard: u64,
    cache: EventCache,
}

/// The mathematical value of a [`Bot`]. The cache is an opaque handle, the
/// same for the whole session; `applied` counts the events that went into it.
pub ghost struct BotView {
    pub name: Option<Seq<char>>,
    pub token: Seq<char>,
    pub owner: Option<UserId>,
    pub shard: u64,
    pub cache: InMemoryCache,
    pub applied: nat,
}

impl View for Bot {
    type V = BotView;

    closed spec fn view(&self) -> BotView {
        BotView {
            name: match self.name {
                Some(s) => Some(s@),
                None => None,
            },
            token: self.token@,
            owner: self.owner,
            shard: self.shard,
            cache: self.cache.handle(),
            applied: self.cache.applied(),
        }
    }
}

/// The line written to the operator's output once the name is known.
pub open spec fn ready_line(name: Seq<char>) -> Seq<char> {
    name + " ready!"@
}

/// What a message leads to for a bot in state `b`.
pub open spec fn message_actions_of(b: BotView, config: Config, m: crate::model::MessageView) -> Seq<ActionView> {
    message_actions(b.name, b.owner, config.about@, config.blocked, m)
}

impl Bot {
    /// A session for this credential and owner, before the gateway has
    /// confirmed the bot's name.
    pub fn new(token: String, owner: Option<UserId>) -> (r: Bot)
        ensures
            r@.name == None::<Seq<char>>,
            r@.token == token@,
            r@.owner == owner,
            r@.shard == 0,
            r@.applied == 0,
    {
        Bot { name: None, token, owner, shard: 0, cache: EventCache::new() }
    }

    /// Records the bot's confirmed name.
    pub fn set_name(&mut self, name: String)
        ensures
            final(self)@ == (BotView { name: Some(name@), ..old(self)@ }),
    {
        self.name = Some(name);
    }

    /// Takes in an event that the gateway delivered on `shard`: records the
    /// shard and folds the event into the cache, once. The caller dispatches
    /// the event only after this.
    pub fn run(&mut self, shard: u64, event: &GatewayEvent)
        ensures
            final(self)@ == (BotView { shard, applied: old(self)@.applied + 1, ..old(self)@ }),
    {
        self.shard = shard;
        self.cache.update(event);
    }

    /// The owner, if one was registered.
    pub fn owner(&self) -> (r: Option<UserId>)
        ensures
            r == self@.owner,
    {
        self.owner
    }

    /// The bot's name, empty until the gateway confirmed it.
    pub fn name(&self) -> (r: String)
        ensures
            r@ == match self@.name {
                Some(n) => n,
                None => Seq::<char>::empty(),
            },
    {
        match &self.name {
            Some(n) => n.clone(),
            None => String::new(),
        }
    }

    /// The credential the session was made with.
    pub fn token(&self) -> (r: String)
        ensures
            r@ == self@.token,
    {
        self.token.clone()
    }

    /// The shard of the last event taken in.
    pub fn shard(&self) -> (r: u64)
        ensures
            r == self@.shard,
    {
        self.shard
    }

    /// Handles the gateway's confirmation of the bot's identity.
    pub fn on_ready(&mut self, name: String) -> (r: Vec<Action>)
        ensures
            final(self)@ == (BotView { name: Some(name@), ..old(self)@ }),
            actions_view(r@) == seq![ActionView::Announce(ready_line(name@))],
    {
        let mut line = name.clone();
        line.append(" ready!");
        self.set_name(name);
        let mut out: Vec<Action> = Vec::new();
        out.push(Action::Announce(line));
        assert(actions_view(out@) =~= seq![ActionView::Announce(ready_line(name@))]);
        out
    }

    /// Handles a chat message: nothing for a bot author; otherwise the
    /// moderation replies, then the addressed command, if any.
    pub fn commands(&self, config: &Config, message: &Message) -> (r: Vec<Action>)
        ensures
            actions_view(r@) == message_actions_of(self@, *config, message@),
    {
        if message.author_is_bot {
            let out: Vec<Action> = Vec::new();
            assert(actions_view(out@) =~= Seq::<ActionView>::empty());
            return out;
        }
        let mut out = moderation(message.author, &message.mentions, config.blocked);
        let mut rest = route_command(&self.name, self.owner, message.author, &config.about, &message.content);
        let ghost a = out@;
        let ghost b = rest@;
        out.append(&mut rest);
        assert(actions_view(out@) =~= actions_view(a) + actions_view(b));
        out
    }

    /// Takes in one event delivered on `shard`, as the gateway gave it
    /// (`raw`) and as the dispatcher reads it (`event`): the event goes into
    /// the cache first, and is dispatched after.
    pub fn handle(&mut self, config: &Config, shard: u64, raw: &GatewayEvent, event: Event) -> (r: Vec<Action>)
        ensures
            match event {
                Event::Ready { name } => {
                    &&& final(self)@ == (BotView { name: Some(name@), shard, applied: old(self)@.applied + 1, ..old(self)@ })
                    &&& actions_view(r@) == seq![ActionView::Announce(ready_line(name@))]
                },
                Event::MessageCreate(m) => {
                    &&& final(self)@ == (BotView { shard, applied: old(self)@.applied + 1, ..old(self)@ })
                    &&& actions_view(r@) == message_actions_of(old(self)@, *config, m@)
                },
                Event::Other => {
                    &&& final(self)@ == (BotView { shard, applied: old(self)@.applied + 1, ..old(self)@ })
                    &&& r@.len() == 0
                },
            },
    {
        self.run(shard, raw);
        self.matcher(config, event)
    }

    /// Turns one event into the actions that the caller carries out in order.
    pub fn matcher(&mut self, config: &Config, event: Event) -> (r: Vec<Action>)
        ensures
            match event {
                Event::Ready { name } => {
                    &&& final(self)@ == (BotView { name: Some(name@), ..old(self)@ })
                    &&& actions_view(r@) == seq![ActionView::Announce(ready_line(name@))]
                },
                Event::MessageCreate(m) => {
                    &&& final(self)@ == old(self)@
                    &&& actions_view(r@) == message_actions_of(old(self)@, *config, m@)
                },
                Event::Other => {
                    &&& final(self)@ == old(self)@
                    &&& r@.len() == 0
                },
            },
    {
        match event {
            Event::Ready { name } => self.on_ready(name),
            Event::MessageCreate(m) => self.commands(config, &m),
            Event::Other => Vec::new(),
        }
    }
}

} // verus!
