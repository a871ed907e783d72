//! Which channel a request's answers go to.
//!
//! A request is registered before it is written, so that no answer is lost.
//! From then on it has the entry under its id, and with the entry the
//! answers. What becomes of the entry depends on what becomes of its write:
//!
//! - the write is refused, or the request is dropped while its write waits:
//!   the request is withdrawn, and the registry is as if it had never been
//!   made. The earlier request that it had replaced has the entry again, if
//!   it still listens;
//! - the write goes out: the request listens until it is released, and has
//!   replaced the earlier ones under its id for good;
//! - a later request takes its id: it keeps its channel, and has the entry
//!   again only if the later one is withdrawn.
//!
//! An order id that is used again is joined, not replaced: a modify listens
//! with its placement. A request that is answered on a channel that all
//! requests of its message share has no entry: it is one more receiver of
//! that channel.
use std::collections::HashMap;
use vstd::prelude::*;
use crate::messages::{an_id_names_one_message, no_two_messages_share_an_id, OutgoingMessages};

verus! {

broadcast use vstd::std_specs::hash::group_hash_axioms;

/// The tables that requests are found in.
#[derive(Debug, Clone, Copy, PartialEq, Eq, Structural)]
pub enum Table {
    /// By request id.
    Request,
    /// By order id.
    Order,
}

/// A channel that someone listens to.
#[derive(Debug, Clone, Copy, PartialEq, Eq, Structural)]
pub struct Channel {
    /// The request id that it was registered under.
    pub id: i32,
    /// How many listen to it.
    pub listeners: usize,
}

/// What a channel is: the request id that it was registered under, and how
/// many listen to it.
pub struct ChannelState {
    pub id: i32,
    pub listeners: nat,
}

impl View for Channel {
    type V = ChannelState;

    open spec fn view(&self) -> ChannelState {
        ChannelState { id: self.id, listeners: self.listeners as nat }
    }
}

/// A request's place in the registry.
#[derive(Debug, Clone, Copy, PartialEq, Eq, Structural)]
pub enum Registration {
    /// A request, by the channel that it listens to.
    Request {
        channel: u64,
    },
    /// An order, by the id whose listeners it is one of.
    Order {
        id: i32,
    },
    /// A request that is answered on the channel that its message has, as one
    /// of the receivers of that channel.
    Shared {
        message: OutgoingMessages,
    },
}

/// What is left of the channels in `line` without `channel`.
pub open spec fn without(line: Seq<u64>, channel: u64) -> Seq<u64>
    decreases line.len(),
{
    if line.len() == 0 {
        line
    } else if line.last() == channel {
        without(line.drop_last(), channel)
    } else {
        without(line.drop_last(), channel).push(line.last())
    }
}

/// The channels in `line` behind `channel`, or all of them, if it is not
/// there.
pub open spec fn behind(line: Seq<u64>, channel: u64) -> Seq<u64>
    decreases line.len(),
{
    if line.len() == 0 || line.last() == channel {
        Seq::empty()
    } else {
        behind(line.drop_last(), channel).push(line.last())
    }
}

/// Whether each channel in `line` is later than those before it.
pub open spec fn is_increasing(line: Seq<u64>) -> bool {
    forall|i: int, j: int| 0 <= i < j < line.len() ==> line[i] < line[j]
}

/// What a registry holds.
#[verifier::ext_equal]
pub struct RegistryState {
    /// Under each request id the channels that can have the entry, the
    /// earliest first. The last one has it.
    pub requests: Map<i32, Seq<u64>>,
    /// The channels that someone listens to, whether they can have the entry
    /// or were replaced for good. A later request has a higher number.
    pub channels: Map<u64, ChannelState>,
    /// How many listen under each order id.
    pub orders: Map<i32, nat>,
    /// How many receivers the channel of each message has, by the message's
    /// id.
    pub shared: Map<i32, nat>,
}

/// A table of counts with one more under a key.
pub open spec fn counted_up(counts: Map<i32, nat>, key: i32) -> Map<i32, nat> {
    counts.insert(
        key,
        if counts.contains_key(key) {
            counts[key] + 1
        } else {
            1
        },
    )
}

/// A table of counts with one less under a key. A key goes with its last.
pub open spec fn counted_down(counts: Map<i32, nat>, key: i32) -> Map<i32, nat> {
    if counts[key] > 1 {
        counts.insert(key, (counts[key] - 1) as nat)
    } else {
        counts.remove(key)
    }
}

/// The key of a message in a table of counts.
pub open spec fn key_of(message: OutgoingMessages) -> i32 {
    message.wire_id() as i32
}

impl RegistryState {
    /// The channels that can have the entry under an id.
    pub open spec fn line(self, id: i32) -> Seq<u64> {
        if self.requests.contains_key(id) {
            self.requests[id]
        } else {
            Seq::empty()
        }
    }

    /// The registry with another line under an id.
    pub open spec fn with_line(self, id: i32, line: Seq<u64>) -> RegistryState {
        RegistryState {
            requests: if line.len() == 0 {
                self.requests.remove(id)
            } else {
                self.requests.insert(id, line)
            },
            ..self
        }
    }

    /// Whoever has an entry, or can have it, is listened to; an entry is
    /// later than every other request under its id that someone listens to.
    pub open spec fn wf(self) -> bool {
        &&& forall|id: i32| #[trigger]
            self.requests.contains_key(id) ==> self.requests[id].len() > 0 && is_increasing(
                self.requests[id],
            )
        &&& forall|id: i32, channel: u64| #[trigger]
            self.line(id).contains(channel) ==> self.channels.contains_key(channel)
                && self.channels[channel].id == id
        &&& forall|id: i32, channel: u64, other: u64|
            self.channels.contains_key(channel) && self.channels[channel].id == id
                && !self.line(id).contains(channel) && self.line(id).contains(other) ==> channel
                < other
        &&& forall|channel: u64| #[trigger]
            self.channels.contains_key(channel) ==> self.channels[channel].listeners > 0
        &&& forall|id: i32| #[trigger] self.orders.contains_key(id) ==> self.orders[id] > 0
        &&& forall|key: i32| #[trigger] self.shared.contains_key(key) ==> self.shared[key] > 0
    }

    /// Whether a registration is one that has not been given up.
    pub open spec fn knows(self, registration: Registration) -> bool {
        match registration {
            Registration::Request { channel } => self.channels.contains_key(channel),
            Registration::Order { id } => self.orders.contains_key(id),
            Registration::Shared { message } => self.shared.contains_key(key_of(message)),
        }
    }

    /// How many listen where a registration does.
    pub open spec fn audience(self, registration: Registration) -> nat {
        match registration {
            Registration::Request { channel } => self.channels[channel].listeners,
            Registration::Order { id } => self.orders[id],
            Registration::Shared { message } => self.shared[key_of(message)],
        }
    }

    /// Whether `channel` is the number of a request that comes after all
    /// those under `id`.
    pub open spec fn is_new(self, id: i32, channel: u64) -> bool {
        &&& !self.channels.contains_key(channel)
        &&& forall|other: u64| #[trigger]
            self.channels.contains_key(other) && self.channels[other].id == id ==> other < channel
    }

    /// The registry after a request was registered: it has the entry.
    pub open spec fn requested(self, id: i32, channel: u64) -> RegistryState {
        RegistryState {
            channels: self.channels.insert(channel, ChannelState { id, listeners: 1 }),
            ..self
        }.with_line(id, self.line(id).push(channel))
    }

    /// The registry after an order was registered: it joins those that listen
    /// under its id.
    pub open spec fn ordered(self, id: i32) -> RegistryState {
        RegistryState { orders: counted_up(self.orders, id), ..self }
    }

    /// The registry after a request was registered that is answered on its
    /// message's channel: the channel has one more receiver.
    pub open spec fn subscribed(self, message: OutgoingMessages) -> RegistryState {
        RegistryState { shared: counted_up(self.shared, key_of(message)), ..self }
    }

    /// The registry with one more listener where a registration listens.
    pub open spec fn joined(self, registration: Registration) -> RegistryState {
        match registration {
            Registration::Request { channel } => RegistryState {
                channels: self.channels.insert(
                    channel,
                    ChannelState {
                        listeners: self.channels[channel].listeners + 1,
                        ..self.channels[channel]
                    },
                ),
                ..self
            },
            Registration::Order { id } => self.ordered(id),
            Registration::Shared { message } => self.subscribed(message),
        }
    }

    /// The registry after one listener of a channel is gone. With its last
    /// listener the channel goes, and leaves `rest` of the line under its id.
    pub open spec fn left(self, channel: u64, rest: Seq<u64>) -> RegistryState {
        let was = self.channels[channel];
        if was.listeners > 1 {
            RegistryState {
                channels: self.channels.insert(
                    channel,
                    ChannelState { listeners: (was.listeners - 1) as nat, ..was },
                ),
                ..self
            }
        } else {
            RegistryState { channels: self.channels.remove(channel), ..self }.with_line(
                was.id,
                rest,
            )
        }
    }

    /// The line that a channel is, or was, in.
    pub open spec fn line_of(self, channel: u64) -> Seq<u64> {
        self.line(self.channels[channel].id)
    }

    /// The registry after a registration was withdrawn. With its last
    /// listener a request leaves the line under its id, and nobody else does.
    pub open spec fn withdrawn(self, registration: Registration) -> RegistryState {
        match registration {
            Registration::Request { channel } => self.left(
                channel,
                without(self.line_of(channel), channel),
            ),
            Registration::Order { id } => RegistryState {
                orders: counted_down(self.orders, id),
                ..self
            },
            Registration::Shared { message } => RegistryState {
                shared: counted_down(self.shared, key_of(message)),
                ..self
            },
        }
    }

    /// The registry after a registration that was written was released. With
    /// its last listener a request leaves the line under its id, and so do
    /// the earlier ones, which it had replaced.
    pub open spec fn released(self, registration: Registration) -> RegistryState {
        match registration {
            Registration::Request { channel } => self.left(
                channel,
                behind(self.line_of(channel), channel),
            ),
            _ => self.withdrawn(registration),
        }
    }

    /// How many receivers the channel of a message has.
    pub open spec fn receivers(self, message: OutgoingMessages) -> nat {
        if self.shared.contains_key(key_of(message)) {
            self.shared[key_of(message)]
        } else {
            0
        }
    }

    /// How many listen to the entry under an id, if there is one.
    pub open spec fn listeners(self, table: Table, id: i32) -> Option<nat> {
        match table {
            Table::Request => if self.requests.contains_key(id) {
                Some(self.channels[self.requests[id].last()].listeners)
            } else {
                None
            },
            Table::Order => if self.orders.contains_key(id) {
                Some(self.orders[id])
            } else {
                None
            },
        }
    }

    /// How many entries a table has.
    pub open spec fn count(self, table: Table) -> nat {
        match table {
            Table::Request => self.requests.len(),
            Table::Order => self.orders.len(),
        }
    }
}

/// A table of counts, as it is held.
spec fn counts_of(held: Map<i32, usize>) -> Map<i32, nat> {
    held.map_values(|count: usize| count as nat)
}

/// Whether a table of counts has room for one more under a key.
pub open spec fn has_room(counts: Map<i32, nat>, key: i32) -> bool {
    counts.contains_key(key) ==> counts[key] < usize::MAX
}

/// Count one more under a key.
fn count_up(counts: &mut HashMap<i32, usize>, key: i32)
    requires
        has_room(counts_of(old(counts)@), key),
    ensures
        counts_of(final(counts)@) == counted_up(counts_of(old(counts)@), key),
{
    let count: usize = match counts.get(&key) {
        Some(count) => {
            assert(counts_of(counts@).contains_key(key));
            *count + 1
        },
        None => 1,
    };
    counts.insert(key, count);
    assert(counts_of(counts@) =~= counted_up(counts_of(old(counts)@), key));
}

/// Count one less under a key.
fn count_down(counts: &mut HashMap<i32, usize>, key: i32)
    requires
        old(counts)@.contains_key(key),
    ensures
        counts_of(final(counts)@) == counted_down(counts_of(old(counts)@), key),
{
    match counts.get(&key) {
        Some(count) if *count > 1 => {
            let fewer: usize = *count - 1;
            counts.insert(key, fewer);
        },
        _ => {
            counts.remove(&key);
        },
    }
    assert(counts_of(counts@) =~= counted_down(counts_of(old(counts)@), key));
}

/// The channels that requests listen to.
pub struct Registry {
    requests: HashMap<i32, Vec<u64>>,
    channels: HashMap<u64, Channel>,
    orders: HashMap<i32, usize>,
    shared: HashMap<i32, usize>,
    next: u64,
}

impl View for Registry {
    type V = RegistryState;

    closed spec fn view(&self) -> RegistryState {
        RegistryState {
            requests: self.requests@.map_values(|line: Vec<u64>| line@),
            channels: self.channels@.map_values(|channel: Channel| channel@),
            orders: counts_of(self.orders@),
            shared: counts_of(self.shared@),
        }
    }
}

impl Registry {
    /// The number that the next request's channel has.
    pub closed spec fn next_channel(&self) -> u64 {
        self.next
    }

    /// What the registry holds is sound, and no number is used twice.
    pub open spec fn wf(&self) -> bool {
        &&& self@.wf()
        &&& forall|channel: u64| #[trigger]
            self@.channels.contains_key(channel) ==> channel < self.next_channel()
    }

    /// A registry with no entries.
    pub fn new() -> (registry: Registry)
        ensures
            registry.wf(),
            registry@ == (RegistryState {
                requests: Map::empty(),
                channels: Map::empty(),
                orders: Map::empty(),
                shared: Map::empty(),
            }),
            registry.next_channel() == 0,
    {
        let registry: Registry = Registry {
            requests: HashMap::new(),
            channels: HashMap::new(),
            orders: HashMap::new(),
            shared: HashMap::new(),
            next: 0,
        };
        proof {
            assert(registry@.requests =~= Map::empty());
            assert(registry@.channels =~= Map::empty());
            assert(registry@.orders =~= Map::empty());
            assert(registry@.shared =~= Map::empty());
        }
        registry
    }

    /// How many listen to the entry under an id, if there is one.
    pub fn listeners(&self, table: Table, id: i32) -> (listeners: Option<usize>)
        requires
            self.wf(),
        ensures
            self@.listeners(table, id) == (match listeners {
                Some(count) => Some(count as nat),
                None => None,
            }),
    {
        match table {
            Table::Request => match self.requests.get(&id) {
                Some(line) => {
                    proof {
                        assert(self@.requests.contains_key(id));
                        assert(self@.line(id) == line@);
                        assert(self@.line(id).contains(line@.last()));
                        assert(self@.channels.contains_key(line@.last()));
                    }
                    let channel: u64 = line[line.len() - 1];
                    match self.channels.get(&channel) {
                        Some(found) => Some(found.listeners),
                        None => None,
                    }
                },
                None => None,
            },
            Table::Order => match self.orders.get(&id) {
                Some(listeners) => Some(*listeners),
                None => None,
            },
        }
    }

    /// How many receivers the channel of a message has.
    pub fn receivers(&self, message: OutgoingMessages) -> (receivers: usize)
        ensures
            receivers == self@.receivers(message),
    {
        proof {
            an_id_names_one_message(message);
        }
        match self.shared.get(&message.id()) {
            Some(receivers) => *receivers,
            None => 0,
        }
    }

    /// How many entries a table has.
    pub fn count(&self, table: Table) -> (count: usize)
        ensures
            count == self@.count(table),
    {
        proof {
            assert(self@.requests.dom() =~= self.requests@.dom());
            assert(self@.orders.dom() =~= self.orders@.dom());
        }
        match table {
            Table::Request => self.requests.len(),
            Table::Order => self.orders.len(),
        }
    }

    /// Take the line under an id out.
    fn take_line(&mut self, id: i32) -> (line: Vec<u64>)
        ensures
            line@ == old(self)@.line(id),
            final(self)@ == old(self)@.with_line(id, Seq::empty()),
            final(self).next_channel() == old(self).next_channel(),
    {
        let taken: Option<Vec<u64>> = self.requests.remove(&id);
        proof {
            assert(self@.requests =~= old(self)@.requests.remove(id));
        }
        match taken {
            Some(line) => line,
            None => Vec::new(),
        }
    }

    /// Put a line under an id, where there is none.
    fn put_line(&mut self, id: i32, line: Vec<u64>)
        requires
            !old(self)@.requests.contains_key(id),
        ensures
            final(self)@ == old(self)@.with_line(id, line@),
            final(self).next_channel() == old(self).next_channel(),
    {
        if line.len() > 0 {
            let ghost put: Seq<u64> = line@;
            self.requests.insert(id, line);
            proof {
                assert(self@.requests =~= old(self)@.requests.insert(id, put));
            }
        } else {
            proof {
                assert(self@.requests =~= old(self)@.requests.remove(id));
            }
        }
    }

    /// Put a channel in place of what had its number.
    fn put_channel(&mut self, number: u64, channel: Channel)
        ensures
            final(self)@ == (RegistryState {
                channels: old(self)@.channels.insert(number, channel@),
                ..old(self)@
            }),
            final(self).next_channel() == old(self).next_channel(),
    {
        self.channels.insert(number, channel);
        proof {
            assert(self@.channels =~= old(self)@.channels.insert(number, channel@));
        }
    }

    /// Register a request or an order, before it is written.
    pub fn register(&mut self, table: Table, id: i32) -> (registration: Registration)
        requires
            old(self).wf(),
            table == Table::Request ==> old(self).next_channel() < u64::MAX,
            table == Table::Order ==> has_room(old(self)@.orders, id),
        ensures
            final(self).wf(),
            final(self)@.knows(registration),
            table == Table::Request ==> {
                let channel = old(self).next_channel();
                &&& registration == (Registration::Request { channel })
                &&& final(self)@ == old(self)@.requested(id, channel)
                &&& final(self).next_channel() == channel + 1
            },
            table == Table::Order ==> {
                &&& registration == (Registration::Order { id })
                &&& final(self)@ == old(self)@.ordered(id)
                &&& final(self).next_channel() == old(self).next_channel()
            },
    {
        match table {
            Table::Request => {
                let channel: u64 = self.next;
                proof {
                    requesting_keeps_the_registry_sound(self@, id, channel);
                }
                let mut line: Vec<u64> = self.take_line(id);
                line.push(channel);
                self.put_channel(channel, Channel { id, listeners: 1 });
                self.put_line(id, line);
                self.next = channel + 1;
                proof {
                    assert(self@ =~= old(self)@.requested(id, channel));
                }
                Registration::Request { channel }
            },
            Table::Order => {
                proof {
                    joining_keeps_the_registry_sound(self@, Registration::Order { id });
                }
                count_up(&mut self.orders, id);
                Registration::Order { id }
            },
        }
    }

    /// Register a request that is answered on its message's channel, before
    /// it is written: one more receiver, and no entry in either table.
    pub fn subscribe(&mut self, message: OutgoingMessages) -> (registration: Registration)
        requires
            old(self).wf(),
            has_room(old(self)@.shared, key_of(message)),
        ensures
            final(self).wf(),
            final(self)@.knows(registration),
            registration == (Registration::Shared { message }),
            final(self)@ == old(self)@.subscribed(message),
            final(self).next_channel() == old(self).next_channel(),
    {
        proof {
            an_id_names_one_message(message);
            joining_keeps_the_registry_sound(self@, Registration::Shared { message });
        }
        count_up(&mut self.shared, message.id());
        Registration::Shared { message }
    }

    /// Listen once more where a registration does: a clone of it.
    pub fn join(&mut self, registration: Registration)
        requires
            old(self).wf(),
            old(self)@.knows(registration),
            old(self)@.audience(registration) < usize::MAX,
        ensures
            final(self)@ == old(self)@.joined(registration),
            final(self).next_channel() == old(self).next_channel(),
            final(self).wf(),
            final(self)@.knows(registration),
    {
        proof {
            joining_keeps_the_registry_sound(self@, registration);
        }
        match registration {
            Registration::Request { channel } => {
                if let Some(found) = self.channels.get(&channel) {
                    let more: Channel = Channel { id: found.id, listeners: found.listeners + 1 };
                    self.put_channel(channel, more);
                }
            },
            Registration::Order { id } => {
                count_up(&mut self.orders, id);
            },
            Registration::Shared { message } => {
                proof {
                    an_id_names_one_message(message);
                }
                count_up(&mut self.shared, message.id());
            },
        }
    }

    /// Give up one listener of a channel. With the last, the channel leaves
    /// its line, and, if it was written, so do the earlier ones.
    fn leave(&mut self, channel: u64, written: bool)
        requires
            old(self).wf(),
            old(self)@.channels.contains_key(channel),
        ensures
            final(self)@ == old(self)@.left(
                channel,
                if written {
                    behind(old(self)@.line_of(channel), channel)
                } else {
                    without(old(self)@.line_of(channel), channel)
                },
            ),
            final(self).next_channel() == old(self).next_channel(),
    {
        if let Some(found) = self.channels.get(&channel) {
            let was: Channel = *found;
            assert(was@ == self@.channels[channel]);
            if was.listeners > 1 {
                self.put_channel(channel, Channel { id: was.id, listeners: was.listeners - 1 });
                return ;
            }
            let ghost gone = self@.channels.remove(channel);
            self.channels.remove(&channel);
            assert(self@.channels =~= gone);
            let line: Vec<u64> = self.take_line(was.id);
            let rest: Vec<u64> = if written {
                line_behind(&line, channel)
            } else {
                line_without(&line, channel)
            };
            self.put_line(was.id, rest);
            assert(self@ =~= old(self)@.left(channel, rest@));
        }
    }

    /// Withdraw a registration whose write was refused, or which was dropped
    /// while its write waited. Nothing was sent, so nothing was replaced: an
    /// earlier request under the same id that still listens has the entry
    /// again, unless a later one has it.
    pub fn withdraw(&mut self, registration: Registration)
        requires
            old(self).wf(),
            old(self)@.knows(registration),
        ensures
            final(self)@ == old(self)@.withdrawn(registration),
            final(self).next_channel() == old(self).next_channel(),
            final(self).wf(),
    {
        proof {
            withdrawing_keeps_the_registry_sound(self@, registration);
        }
        match registration {
            Registration::Request { channel } => self.leave(channel, false),
            Registration::Order { id } => count_down(&mut self.orders, id),
            Registration::Shared { message } => {
                proof {
                    an_id_names_one_message(message);
                }
                count_down(&mut self.shared, message.id());
            },
        }
    }

    /// Release a registration that was written, or a clone of one: one
    /// listener is gone, and the entry goes with the last.
    pub fn release(&mut self, registration: Registration)
        requires
            old(self).wf(),
            old(self)@.knows(registration),
        ensures
            final(self)@ == old(self)@.released(registration),
            final(self).next_channel() == old(self).next_channel(),
            final(self).wf(),
    {
        proof {
            releasing_keeps_the_registry_sound(self@, registration);
        }
        match registration {
            Registration::Request { channel } => self.leave(channel, true),
            Registration::Order { id } => count_down(&mut self.orders, id),
            Registration::Shared { message } => {
                proof {
                    an_id_names_one_message(message);
                }
                count_down(&mut self.shared, message.id());
            },
        }
    }
}

/// What is left of a line without a channel.
fn line_without(line: &Vec<u64>, channel: u64) -> (rest: Vec<u64>)
    ensures
        rest@ == without(line@, channel),
{
    let mut rest: Vec<u64> = Vec::new();
    let mut i: usize = 0;
    while i < line.len()
        invariant
            i <= line.len(),
            rest@ == without(line@.take(i as int), channel),
        decreases line.len() - i,
    {
        proof {
            assert(line@.take(i + 1).drop_last() == line@.take(i as int));
        }
        if line[i] != channel {
            rest.push(line[i]);
        }
        i = i + 1;
    }
    proof {
        assert(line@.take(i as int) == line@);
    }
    rest
}

/// The channels in a line behind a channel.
fn line_behind(line: &Vec<u64>, channel: u64) -> (rest: Vec<u64>)
    ensures
        rest@ == behind(line@, channel),
{
    let mut rest: Vec<u64> = Vec::new();
    let mut i: usize = 0;
    while i < line.len()
        invariant
            i <= line.len(),
            rest@ == behind(line@.take(i as int), channel),
        decreases line.len() - i,
    {
        proof {
            assert(line@.take(i + 1).drop_last() == line@.take(i as int));
        }
        if line[i] != channel {
            rest.push(line[i]);
        } else {
            rest = Vec::new();
        }
        i = i + 1;
    }
    proof {
        assert(line@.take(i as int) == line@);
    }
    rest
}

/// A channel is in a line with one more exactly if it was in it or is the
/// one.
proof fn a_longer_line(line: Seq<u64>, last: u64)
    ensures
        forall|channel: u64| #[trigger]
            line.push(last).contains(channel) <==> line.contains(channel) || channel == last,
{
    assert forall|channel: u64| line.contains(channel) || channel == last implies #[trigger]
    line.push(last).contains(channel) by {
        if channel == last {
            assert(line.push(last)[line.len() as int] == channel);
        } else {
            let i = choose|i: int| 0 <= i < line.len() && line[i] == channel;
            assert(line.push(last)[i] == channel);
        }
    }
}

/// Who stays in a line without a channel.
proof fn who_is_left(line: Seq<u64>, channel: u64)
    requires
        is_increasing(line),
    ensures
        is_increasing(without(line, channel)),
        forall|other: u64| #[trigger]
            without(line, channel).contains(other) <==> line.contains(other) && other != channel,
    decreases line.len(),
{
    if line.len() > 0 {
        let shorter = line.drop_last();
        who_is_left(shorter, channel);
        assert(shorter.push(line.last()) == line);
        a_longer_line(shorter, line.last());
        a_longer_line(without(shorter, channel), line.last());
        let rest = without(shorter, channel);
        assert forall|i: int| 0 <= i < rest.len() implies rest[i] < line.last() by {
            assert(rest.contains(rest[i]));
            let j = choose|j: int| 0 <= j < shorter.len() && shorter[j] == rest[i];
            assert(line[j] == rest[i]);
        }
    }
}

/// Who stands behind a channel in a line.
proof fn who_is_behind(line: Seq<u64>, channel: u64)
    requires
        is_increasing(line),
    ensures
        is_increasing(behind(line, channel)),
        forall|other: u64| #[trigger]
            behind(line, channel).contains(other) <==> line.contains(other) && (line.contains(
                channel,
            ) ==> channel < other),
    decreases line.len(),
{
    if line.len() > 0 {
        let shorter = line.drop_last();
        who_is_behind(shorter, channel);
        assert(shorter.push(line.last()) == line);
        a_longer_line(shorter, line.last());
        a_longer_line(behind(shorter, channel), line.last());
        let rest = behind(shorter, channel);
        assert forall|other: u64| shorter.contains(other) implies other < line.last() by {
            let j = choose|j: int| 0 <= j < shorter.len() && shorter[j] == other;
            assert(line[j] == other);
        }
        assert forall|i: int| 0 <= i < rest.len() implies rest[i] < line.last() by {
            assert(rest.contains(rest[i]));
        }
    }
}

/// Registering a request keeps the registry sound.
pub proof fn requesting_keeps_the_registry_sound(state: RegistryState, id: i32, channel: u64)
    requires
        state.wf(),
        state.is_new(id, channel),
    ensures
        state.requested(id, channel).wf(),
{
    let after = state.requested(id, channel);
    let line = state.line(id);
    a_longer_line(line, channel);
    assert(after.line(id) == line.push(channel));
    assert forall|other: i32| other != id implies #[trigger] after.line(other) == state.line(
        other,
    ) by {}
    assert(is_increasing(line.push(channel))) by {
        assert forall|i: int| 0 <= i < line.len() implies line[i] < channel by {
            assert(state.line(id).contains(line[i]));
            assert(state.channels.contains_key(line[i]));
        }
    }
    assert forall|key: i32, one: u64| #[trigger]
        after.line(key).contains(one) implies after.channels.contains_key(one)
        && after.channels[one].id == key by {
        if key == id {
            assert(line.contains(one) || one == channel);
        } else {
            assert(state.line(key).contains(one));
        }
    }
    assert forall|key: i32, one: u64, other: u64|
        after.channels.contains_key(one) && after.channels[one].id == key && !after.line(
            key,
        ).contains(one) && after.line(key).contains(other) implies one < other by {
        assert(one != channel);
        assert(state.channels.contains_key(one));
        if key == id && other == channel {
        } else {
            assert(state.line(key).contains(other));
        }
    }
}

/// One more listener keeps the registry sound.
pub proof fn joining_keeps_the_registry_sound(state: RegistryState, registration: Registration)
    requires
        state.wf(),
        registration is Request ==> state.knows(registration),
    ensures
        state.joined(registration).wf(),
        state.joined(registration).knows(registration),
{
    let after = state.joined(registration);
    assert forall|key: i32| #[trigger] after.line(key) == state.line(key) by {}
}

/// Withdrawing a registration keeps the registry sound.
pub proof fn withdrawing_keeps_the_registry_sound(state: RegistryState, registration: Registration)
    requires
        state.wf(),
        state.knows(registration),
    ensures
        state.withdrawn(registration).wf(),
{
    let after = state.withdrawn(registration);
    match registration {
        Registration::Request { channel } if state.channels[channel].listeners <= 1 => {
            let id = state.channels[channel].id;
            who_is_left(state.line(id), channel);
            assert(after.line(id) == without(state.line(id), channel));
            a_shorter_line_is_sound(state, after, channel);
        },
        _ => {
            assert forall|key: i32| #[trigger] after.line(key) == state.line(key) by {}
        },
    }
}

/// Releasing a registration keeps the registry sound.
pub proof fn releasing_keeps_the_registry_sound(state: RegistryState, registration: Registration)
    requires
        state.wf(),
        state.knows(registration),
    ensures
        state.released(registration).wf(),
{
    let after = state.released(registration);
    match registration {
        Registration::Request { channel } if state.channels[channel].listeners <= 1 => {
            let id = state.channels[channel].id;
            who_is_behind(state.line(id), channel);
            assert(after.line(id) == behind(state.line(id), channel));
            a_shorter_line_is_sound(state, after, channel);
        },
        _ => {
            assert forall|key: i32| #[trigger] after.line(key) == state.line(key) by {}
        },
    }
}

/// A registry stays sound when a channel goes, and with it some of the
/// earliest in its line.
proof fn a_shorter_line_is_sound(state: RegistryState, after: RegistryState, channel: u64)
    requires
        state.wf(),
        state.channels.contains_key(channel),
        after.channels == state.channels.remove(channel),
        after.orders == state.orders,
        after.shared == state.shared,
        ({
            let id = state.channels[channel].id;
            let line = after.line(id);
            &&& after == RegistryState { channels: after.channels, ..state }.with_line(id, line)
            &&& is_increasing(line)
            &&& !line.contains(channel)
            &&& forall|other: u64| #[trigger] line.contains(other) ==> state.line(id).contains(other)
            &&& forall|one: u64, other: u64|
                #![trigger line.contains(one), line.contains(other)]
                state.line(id).contains(one) && !line.contains(one) && one != channel
                    && line.contains(other) ==> one < other
        }),
    ensures
        after.wf(),
{
    let id = state.channels[channel].id;
    let line = after.line(id);
    assert forall|key: i32| key != id implies #[trigger] after.line(key) == state.line(key) by {}
    assert forall|key: i32, one: u64| #[trigger]
        after.line(key).contains(one) implies after.channels.contains_key(one)
        && after.channels[one].id == key by {
        assert(state.line(key).contains(one));
    }
    assert forall|key: i32, one: u64, other: u64|
        after.channels.contains_key(one) && after.channels[one].id == key && !after.line(
            key,
        ).contains(one) && after.line(key).contains(other) implies one < other by {
        assert(state.line(key).contains(other));
        if key == id && state.line(id).contains(one) {
            assert(!line.contains(one));
        }
    }
}

/// Something that happens to a registry.
pub enum Change {
    /// A request is registered, on a channel of its own.
    Request {
        id: i32,
        channel: u64,
    },
    /// An order is registered.
    Order {
        id: i32,
    },
    /// A request is registered that is answered on its message's channel.
    Subscribe {
        message: OutgoingMessages,
    },
    /// Someone listens once more where a registration does.
    Join(Registration),
    /// A registration is withdrawn.
    Withdraw(Registration),
    /// A registration is released.
    Release(Registration),
}

impl Change {
    /// Whether the change is about the request that listens to `channel`.
    pub open spec fn is_about(self, channel: u64) -> bool {
        match self {
            Change::Request { channel: other, .. } => other == channel,
            Change::Order { .. } | Change::Subscribe { .. } => false,
            Change::Join(registration) | Change::Withdraw(registration) | Change::Release(
                registration,
            ) => registration == (Registration::Request { channel }),
        }
    }
}

impl RegistryState {
    /// Whether a change can happen to the registry.
    pub open spec fn allows(self, change: Change) -> bool {
        match change {
            Change::Request { id, channel } => self.is_new(id, channel),
            Change::Order { .. } | Change::Subscribe { .. } => true,
            Change::Join(registration) | Change::Withdraw(registration) | Change::Release(
                registration,
            ) => self.knows(registration),
        }
    }

    /// The registry after a change.
    pub open spec fn changed(self, change: Change) -> RegistryState {
        match change {
            Change::Request { id, channel } => self.requested(id, channel),
            Change::Order { id } => self.ordered(id),
            Change::Subscribe { message } => self.subscribed(message),
            Change::Join(registration) => self.joined(registration),
            Change::Withdraw(registration) => self.withdrawn(registration),
            Change::Release(registration) => self.released(registration),
        }
    }

    /// The registry after all of `changes`, one after the other.
    pub open spec fn after(self, changes: Seq<Change>) -> RegistryState
        decreases changes.len(),
    {
        if changes.len() == 0 {
            self
        } else {
            self.after(changes.drop_last()).changed(changes.last())
        }
    }

    /// Whether all of `changes` can happen to the registry.
    pub open spec fn allows_all(self, changes: Seq<Change>) -> bool
        decreases changes.len(),
    {
        changes.len() > 0 ==> {
            &&& self.allows_all(changes.drop_last())
            &&& self.after(changes.drop_last()).allows(changes.last())
        }
    }
}

/// Every change keeps the registry sound.
pub proof fn a_change_keeps_the_registry_sound(state: RegistryState, change: Change)
    requires
        state.wf(),
        state.allows(change),
    ensures
        state.changed(change).wf(),
{
    match change {
        Change::Request { id, channel } => requesting_keeps_the_registry_sound(state, id, channel),
        Change::Order { id } => joining_keeps_the_registry_sound(state, Registration::Order { id }),
        Change::Subscribe { message } => joining_keeps_the_registry_sound(
            state,
            Registration::Shared { message },
        ),
        Change::Join(registration) => joining_keeps_the_registry_sound(state, registration),
        Change::Withdraw(registration) => withdrawing_keeps_the_registry_sound(state, registration),
        Change::Release(registration) => releasing_keeps_the_registry_sound(state, registration),
    }
}

/// It does not matter which of two channels leaves a line first.
proof fn leaving_commutes(line: Seq<u64>, one: u64, other: u64)
    ensures
        without(without(line, one), other) == without(without(line, other), one),
    decreases line.len(),
{
    if line.len() > 0 {
        let shorter = line.drop_last();
        leaving_commutes(shorter, one, other);
        assert(without(shorter, one).push(line.last()).drop_last() == without(shorter, one));
        assert(without(shorter, other).push(line.last()).drop_last() == without(shorter, other));
    }
}

/// It does not matter whether a channel leaves a line before another is
/// released or after.
proof fn leaving_commutes_with_a_release(line: Seq<u64>, gone: u64, released: u64)
    requires
        gone != released,
    ensures
        without(behind(line, released), gone) == behind(without(line, gone), released),
    decreases line.len(),
{
    if line.len() > 0 {
        let shorter = line.drop_last();
        leaving_commutes_with_a_release(shorter, gone, released);
        assert(without(shorter, gone).push(line.last()).drop_last() == without(shorter, gone));
        assert(behind(shorter, released).push(line.last()).drop_last() == behind(
            shorter,
            released,
        ));
    }
}

/// A line that a channel is not in stays as it is without it.
proof fn a_stranger_leaves_nothing(line: Seq<u64>, channel: u64)
    requires
        !line.contains(channel),
    ensures
        without(line, channel) == line,
    decreases line.len(),
{
    if line.len() > 0 {
        assert(line.contains(line.last()));
        assert forall|i: int| 0 <= i < line.drop_last().len() implies line.drop_last()[i]
            != channel by {
            assert(line.contains(line[i]));
        }
        a_stranger_leaves_nothing(line.drop_last(), channel);
        assert(line.drop_last().push(line.last()) == line);
    }
}

/// Whether two registries differ in one request alone, which listens to
/// `channel` under `id`.
spec fn differ_in(with: RegistryState, bare: RegistryState, id: i32, channel: u64) -> bool {
    &&& with.wf()
    &&& bare.wf()
    &&& !bare.channels.contains_key(channel)
    &&& with.channels == bare.channels.insert(channel, ChannelState { id, listeners: 1 })
    &&& with.orders == bare.orders
    &&& with.shared == bare.shared
    &&& forall|key: i32| #[trigger] bare.line(key) == without(with.line(key), channel)
}

/// What happens to others happens alike with a request and without it.
proof fn a_change_is_the_same_without(
    with: RegistryState,
    bare: RegistryState,
    id: i32,
    channel: u64,
    change: Change,
)
    requires
        differ_in(with, bare, id, channel),
        with.allows(change),
        !change.is_about(channel),
    ensures
        bare.allows(change),
        differ_in(with.changed(change), bare.changed(change), id, channel),
{
    assert(bare.allows(change)) by {
        if let Change::Request { id: key, channel: other } = change {
            assert forall|one: u64| #[trigger]
                bare.channels.contains_key(one) && bare.channels[one].id == key implies one
                < other by {
                assert(with.channels.contains_key(one));
            }
        }
    }
    let next_with = with.changed(change);
    let next_bare = bare.changed(change);
    a_change_keeps_the_registry_sound(with, change);
    a_change_keeps_the_registry_sound(bare, change);
    assert(next_with.channels =~= next_bare.channels.insert(channel, ChannelState { id, listeners: 1 }));
    assert forall|key: i32| #[trigger] next_bare.line(key) == without(
        next_with.line(key),
        channel,
    ) by {
        assert(bare.line(key) == without(with.line(key), channel));
        match change {
            Change::Request { id: new_id, channel: new } if new_id == key => {
                let line = with.line(key).push(new);
                assert(next_with.line(key) == line);
                assert(line.drop_last() == with.line(key));
                assert(next_bare.line(key) == bare.line(key).push(new));
            },
            Change::Withdraw(Registration::Request { channel: other }) => {
                leaving_commutes(with.line(key), other, channel);
            },
            Change::Release(Registration::Request { channel: other }) => {
                leaving_commutes_with_a_release(with.line(key), channel, other);
            },
            _ => {},
        }
    }
}

/// A request that is refused, or dropped while its write waits, leaves nothing
/// behind, however much has happened since it was registered: once it is
/// withdrawn, every entry, every line and every listener is as if it had never
/// been made. An earlier request that it had replaced has the entry again if
/// it would have it now; a later one that has replaced it keeps the entry; and
/// it does not matter in which order requests are withdrawn.
pub proof fn a_withdrawn_request_leaves_nothing_behind(
    state: RegistryState,
    id: i32,
    channel: u64,
    since: Seq<Change>,
)
    requires
        state.wf(),
        state.is_new(id, channel),
        state.requested(id, channel).allows_all(since),
        forall|i: int| 0 <= i < since.len() ==> !(#[trigger] since[i]).is_about(channel),
    ensures
        state.allows_all(since),
        state.requested(id, channel).after(since).knows(Registration::Request { channel }),
        state.requested(id, channel).after(since).withdrawn(Registration::Request { channel })
            == state.after(since),
{
    the_others_go_on_the_same(state, id, channel, since);
    let with = state.requested(id, channel).after(since);
    let bare = state.after(since);
    let withdrawn = with.withdrawn(Registration::Request { channel });
    assert(withdrawn.channels =~= bare.channels);
    assert forall|key: i32| #[trigger] withdrawn.line(key) == bare.line(key) by {
        assert(bare.line(key) == without(with.line(key), channel));
        if key != id {
            assert(!with.line(key).contains(channel)) by {
                assert(with.channels[channel].id == id);
            }
            a_stranger_leaves_nothing(with.line(key), channel);
        }
    }
    withdrawing_keeps_the_registry_sound(with, Registration::Request { channel });
    assert forall|key: i32|
        withdrawn.requests.contains_key(key) <==> #[trigger] bare.requests.contains_key(key) by {
        assert(withdrawn.line(key) == bare.line(key));
        assert(withdrawn.requests.contains_key(key) <==> withdrawn.line(key).len() > 0);
    }
    assert forall|key: i32| bare.requests.contains_key(key) implies #[trigger]
    withdrawn.requests[key] == bare.requests[key] by {
        assert(withdrawn.line(key) == bare.line(key));
        assert(withdrawn.requests.contains_key(key));
    }
    assert(withdrawn.requests =~= bare.requests);
}

/// As long as a request waits, everyone else goes on as without it.
proof fn the_others_go_on_the_same(
    state: RegistryState,
    id: i32,
    channel: u64,
    since: Seq<Change>,
)
    requires
        state.wf(),
        state.is_new(id, channel),
        state.requested(id, channel).allows_all(since),
        forall|i: int| 0 <= i < since.len() ==> !(#[trigger] since[i]).is_about(channel),
    ensures
        state.allows_all(since),
        differ_in(state.requested(id, channel).after(since), state.after(since), id, channel),
    decreases since.len(),
{
    let with = state.requested(id, channel);
    if since.len() == 0 {
        requesting_keeps_the_registry_sound(state, id, channel);
        assert forall|key: i32| #[trigger] state.line(key) == without(
            with.line(key),
            channel,
        ) by {
            assert(!state.line(key).contains(channel)) by {
                assert(!state.channels.contains_key(channel));
            }
            a_stranger_leaves_nothing(state.line(key), channel);
            if key == id {
                assert(with.line(key).drop_last() == state.line(key));
            }
        }
    } else {
        let before = since.drop_last();
        assert forall|i: int| 0 <= i < before.len() implies !(#[trigger] before[i]).is_about(
            channel,
        ) by {
            assert(before[i] == since[i]);
        }
        the_others_go_on_the_same(state, id, channel, before);
        assert(!since[since.len() - 1].is_about(channel));
        a_change_is_the_same_without(
            with.after(before),
            state.after(before),
            id,
            channel,
            since.last(),
        );
    }
}

/// A modify that is refused, or dropped while its write waits, leaves nothing
/// behind either, however much has happened since it was registered: once it
/// is withdrawn, the registry is as if it had never been made, and as many
/// listen under every order id as would without it.
pub proof fn a_withdrawn_order_leaves_nothing_behind(
    state: RegistryState,
    id: i32,
    since: Seq<Change>,
)
    requires
        state.wf(),
        state.allows_all(since),
    ensures
        state.ordered(id).allows_all(since),
        state.ordered(id).after(since).knows(Registration::Order { id }),
        state.ordered(id).after(since).withdrawn(Registration::Order { id }) == state.after(since),
{
    one_more_listener(state, Registration::Order { id }, since);
    one_up_and_one_down(state.after(since).orders, id);
}

/// A request on its message's channel that is refused, or dropped while its
/// write waits, leaves nothing behind, however much has happened since it was
/// registered: once it is withdrawn, the registry is as if it had never been
/// made, and the channel has as many receivers as it would have without it.
/// In between, it has no entry in either table.
pub proof fn a_withdrawn_shared_request_leaves_nothing_behind(
    state: RegistryState,
    message: OutgoingMessages,
    since: Seq<Change>,
)
    requires
        state.wf(),
        state.allows_all(since),
    ensures
        state.subscribed(message).requests == state.requests,
        state.subscribed(message).orders == state.orders,
        state.subscribed(message).receivers(message) == state.receivers(message) + 1,
        state.subscribed(message).allows_all(since),
        state.subscribed(message).after(since).knows(Registration::Shared { message }),
        state.subscribed(message).after(since).withdrawn(Registration::Shared { message })
            == state.after(since),
{
    one_more_listener(state, Registration::Shared { message }, since);
    one_up_and_one_down(state.after(since).shared, key_of(message));
}

/// One more and then one less is as before.
proof fn one_up_and_one_down(counts: Map<i32, nat>, key: i32)
    requires
        counts.contains_key(key) ==> counts[key] > 0,
    ensures
        counted_up(counts, key).contains_key(key),
        counted_down(counted_up(counts, key), key) == counts,
{
    assert(counted_down(counted_up(counts, key), key) =~= counts);
}

/// One less under a key that has more is the same before one more, under any
/// key, as after it; and so is one more.
proof fn counting_commutes(counts: Map<i32, nat>, key: i32, other: i32)
    ensures
        counted_up(counted_up(counts, key), other) == counted_up(counted_up(counts, other), key),
        counts.contains_key(other) && counts[other] > 0 ==> counted_down(
            counted_up(counts, key),
            other,
        ) == counted_up(counted_down(counts, other), key),
{
    assert(counted_up(counted_up(counts, key), other) =~= counted_up(
        counted_up(counts, other),
        key,
    ));
    if counts.contains_key(other) && counts[other] > 0 {
        assert(counted_down(counted_up(counts, key), other) =~= counted_up(
            counted_down(counts, other),
            key,
        ));
    }
}

/// As long as an order or a shared request waits, there is one listener more
/// than without it.
proof fn one_more_listener(state: RegistryState, place: Registration, since: Seq<Change>)
    requires
        state.wf(),
        state.allows_all(since),
        place !is Request,
    ensures
        state.after(since).wf(),
        state.joined(place).allows_all(since),
        state.joined(place).after(since) == state.after(since).joined(place),
    decreases since.len(),
{
    if since.len() > 0 {
        let before = since.drop_last();
        let change = since.last();
        one_more_listener(state, place, before);
        let bare = state.after(before);
        a_change_keeps_the_registry_sound(bare, change);
        let with = bare.joined(place);
        let key = match place {
            Registration::Shared { message } => key_of(message),
            Registration::Order { id } => id,
            Registration::Request { .. } => 0,
        };
        assert forall|other: i32| #[trigger] with.line(other) == bare.line(other) by {}
        let registration = match change {
            Change::Join(place) | Change::Withdraw(place) | Change::Release(place) => place,
            Change::Order { id } => Registration::Order { id },
            Change::Subscribe { message } => Registration::Shared { message },
            Change::Request { channel, .. } => Registration::Request { channel },
        };
        match registration {
            Registration::Order { id } => counting_commutes(bare.orders, key, id),
            Registration::Shared { message } => counting_commutes(
                bare.shared,
                key,
                key_of(message),
            ),
            Registration::Request { .. } => {},
        }
        assert(with.allows(change));
        assert(with.changed(change) == bare.changed(change).joined(place));
    }
}

/// The entry under an id is the latest request that someone listens to, among
/// all that were registered under it.
pub proof fn the_entry_is_the_latest_that_is_listened_to(
    state: RegistryState,
    id: i32,
    channel: u64,
)
    requires
        state.wf(),
        state.requests.contains_key(id),
        state.channels.contains_key(channel),
        state.channels[channel].id == id,
    ensures
        state.channels.contains_key(state.requests[id].last()),
        state.channels[state.requests[id].last()].id == id,
        channel <= state.requests[id].last(),
{
    let line = state.line(id);
    assert(line == state.requests[id]);
    assert(line.contains(line.last()));
    if line.contains(channel) {
        let i = choose|i: int| 0 <= i < line.len() && line[i] == channel;
        assert(line[i] <= line[line.len() - 1]);
    }
}

/// Whoever gives up its place, only an entry of its own channel changes: a
/// successor under the same id is left alone, and so is everyone else.
pub proof fn only_its_own_entry_is_given_up(
    state: RegistryState,
    registration: Registration,
    id: i32,
)
    requires
        state.wf(),
        state.knows(registration),
        state.requests.contains_key(id),
        registration != (Registration::Request { channel: state.requests[id].last() }),
    ensures
        ({
            let entry = state.requests[id].last();
            let withdrawn = state.withdrawn(registration);
            let released = state.released(registration);
            &&& withdrawn.requests.contains_key(id) && withdrawn.requests[id].last() == entry
            &&& released.requests.contains_key(id) && released.requests[id].last() == entry
            &&& withdrawn.listeners(Table::Request, id) == state.listeners(Table::Request, id)
            &&& released.listeners(Table::Request, id) == state.listeners(Table::Request, id)
        }),
{
    assert(state.line(id) == state.requests[id]);
    assert(state.line(id).contains(state.line(id).last()));
}

/// A request or an order that is refused puts back what it found: the entry
/// under its id is the earlier one again, with the listeners that it had, or
/// none, if there was none.
pub proof fn a_refused_request_puts_back_the_entry_it_replaced(
    state: RegistryState,
    id: i32,
    channel: u64,
)
    requires
        state.wf(),
        state.is_new(id, channel),
    ensures
        ({
            let request = state.requested(id, channel).withdrawn(Registration::Request { channel });
            let order = state.ordered(id).withdrawn(Registration::Order { id });
            &&& request == state
            &&& order == state
            &&& request.listeners(Table::Request, id) == state.listeners(Table::Request, id)
            &&& order.listeners(Table::Order, id) == state.listeners(Table::Order, id)
        }),
{
    let nothing = Seq::<Change>::empty();
    a_withdrawn_request_leaves_nothing_behind(state, id, channel, nothing);
    a_withdrawn_order_leaves_nothing_behind(state, id, nothing);
}

impl RegistryState {
    /// The registry after `count` listeners where a registration listens were
    /// released.
    pub open spec fn released_by(self, registration: Registration, count: nat) -> RegistryState
        decreases count,
    {
        if count == 0 {
            self
        } else {
            self.released_by(registration, (count - 1) as nat).released(registration)
        }
    }
}

/// An entry is there until all of its listeners are released, and then there
/// is none under its id.
pub proof fn an_entry_goes_with_its_listeners(state: RegistryState, table: Table, id: i32)
    requires
        state.wf(),
        state.listeners(table, id) is Some,
    ensures
        ({
            let place = match table {
                Table::Request => Registration::Request { channel: state.requests[id].last() },
                Table::Order => Registration::Order { id },
            };
            let held = state.listeners(table, id)->0;
            &&& held > 0
            &&& state.audience(place) == held
            &&& forall|count: nat|
                count < held ==> (#[trigger] state.released_by(place, count)).listeners(table, id)
                    == Some((held - count) as nat)
            &&& state.released_by(place, held).listeners(table, id) is None
        }),
{
    let place = match table {
        Table::Request => Registration::Request { channel: state.requests[id].last() },
        Table::Order => Registration::Order { id },
    };
    let held = state.listeners(table, id)->0;
    if table == Table::Request {
        assert(state.line(id).contains(state.line(id).last()));
    }
    assert forall|count: nat| count < held implies (#[trigger] state.released_by(
        place,
        count,
    )).listeners(table, id) == Some((held - count) as nat) by {
        an_entry_stays_until_then(state, table, id, place, count);
    }
    an_entry_stays_until_then(state, table, id, place, (held - 1) as nat);
}

/// An entry is there as long as someone listens to it.
proof fn an_entry_stays_until_then(
    state: RegistryState,
    table: Table,
    id: i32,
    place: Registration,
    count: nat,
)
    requires
        state.wf(),
        state.listeners(table, id) is Some,
        count < state.listeners(table, id)->0,
        place == (match table {
            Table::Request => Registration::Request { channel: state.requests[id].last() },
            Table::Order => Registration::Order { id },
        }),
    ensures
        ({
            let after = state.released_by(place, count);
            &&& after.wf()
            &&& after.requests == state.requests
            &&& after.knows(place)
            &&& place matches Registration::Request { channel } ==> after.channels[channel].id == id
            &&& after.audience(place) == state.listeners(table, id)->0 - count
            &&& after.listeners(table, id) == Some((state.listeners(table, id)->0 - count) as nat)
        }),
    decreases count,
{
    if table == Table::Request {
        assert(state.line(id).contains(state.line(id).last()));
    }
    if count > 0 {
        an_entry_stays_until_then(state, table, id, place, (count - 1) as nat);
        releasing_keeps_the_registry_sound(
            state.released_by(place, (count - 1) as nat),
            place,
        );
    }
}

/// A channel stays, with its entry, until its last listener is gone; and then
/// the entry of a request that was written is released, and nobody's.
pub proof fn the_last_listener_releases_the_entry(state: RegistryState, channel: u64)
    requires
        state.wf(),
        state.channels.contains_key(channel),
    ensures
        ({
            let was = state.channels[channel];
            let after = state.released(Registration::Request { channel });
            &&& was.listeners > 1 ==> {
                &&& after.requests == state.requests
                &&& after.orders == state.orders
                &&& after.channels.contains_key(channel)
                &&& after.channels[channel].listeners == was.listeners - 1
            }
            &&& was.listeners == 1 ==> {
                &&& !after.channels.contains_key(channel)
                &&& state.requests.contains_key(was.id) && state.requests[was.id].last() == channel
                    ==> after.listeners(Table::Request, was.id) is None
            }
        }),
{
}

/// A modify joins those that listen with its placement, and replaces nobody;
/// whichever is given up first, the other still listens.
pub proof fn a_modify_joins_its_placement(state: RegistryState, id: i32)
    requires
        state.wf(),
        state.orders.contains_key(id),
    ensures
        ({
            let place = Registration::Order { id };
            let joined = state.ordered(id);
            &&& joined.count(Table::Order) == state.count(Table::Order)
            &&& joined.listeners(Table::Order, id) == Some(state.orders[id] + 1)
            &&& joined.withdrawn(place) == state
            &&& joined.released(place) == state
        }),
{
    assert(state.ordered(id).orders.dom() =~= state.orders.dom());
    one_up_and_one_down(state.orders, id);
}

/// A request whose id is in use replaces the earlier one, which keeps its
/// channel and its listeners.
pub proof fn a_request_replaces_an_earlier_one(state: RegistryState, id: i32, channel: u64)
    requires
        state.wf(),
        state.is_new(id, channel),
        state.requests.contains_key(id),
    ensures
        ({
            let earlier = state.requests[id].last();
            let after = state.requested(id, channel);
            &&& after.requests[id].last() == channel
            &&& channel != earlier
            &&& after.channels[earlier] == state.channels[earlier]
            &&& after.listeners(Table::Request, id) == Some(1nat)
        }),
{
    assert(state.line(id).contains(state.line(id).last()));
}

/// Where a line, an entry and its listeners are found: the entry under a
/// request id is the last in its line, its listeners are those of its channel,
/// and there is no entry where there is no line. Under an order id they are
/// counted as they are, and under a message they are none where nobody
/// listens.
pub proof fn an_entry_has_the_listeners_of_its_channel(
    state: RegistryState,
    id: i32,
    message: OutgoingMessages,
)
    ensures
        state.requests.contains_key(id) ==> state.line(id) == state.requests[id]
            && state.listeners(Table::Request, id) == Some(
            state.channels[state.requests[id][state.requests[id].len() - 1]].listeners,
        ),
        !state.requests.contains_key(id) ==> state.line(id).len() == 0 && state.listeners(
            Table::Request,
            id,
        ) is None,
        state.orders.contains_key(id) ==> state.listeners(Table::Order, id) == Some(
            state.orders[id],
        ),
        !state.orders.contains_key(id) ==> state.listeners(Table::Order, id) is None,
        state.count(Table::Request) == state.requests.dom().len(),
        state.count(Table::Order) == state.orders.dom().len(),
        key_of(message) == message.wire_id(),
        state.shared.contains_key(key_of(message)) ==> state.receivers(message)
            == state.shared[key_of(message)],
        !state.shared.contains_key(key_of(message)) ==> state.receivers(message) == 0,
{
    an_id_names_one_message(message);
}

/// A registered request has the entry under its id, with one listener,
/// whoever had it before. It adds an entry only where there was none, and
/// everyone else stays as they were.
pub proof fn a_registered_request_has_the_entry(
    state: RegistryState,
    id: i32,
    channel: u64,
    other: i32,
    one: u64,
)
    requires
        state.wf(),
        state.is_new(id, channel),
        state.requests.dom().finite(),
    ensures
        ({
            let after = state.requested(id, channel);
            &&& after.requests.contains_key(id)
            &&& after.requests[id] == state.line(id).push(channel)
            &&& after.listeners(Table::Request, id) == Some(1nat)
            &&& after.channels.contains_key(channel) && after.channels[channel].id == id
            &&& after.count(Table::Request) == state.count(Table::Request) + (
            if state.requests.contains_key(id) {
                0int
            } else {
                1int
            })
            &&& other != id ==> after.line(other) == state.line(other)
            &&& other != id ==> after.listeners(Table::Request, other) == state.listeners(
                Table::Request,
                other,
            )
            &&& one != channel ==> (after.channels.contains_key(one)
                <==> state.channels.contains_key(one))
            &&& one != channel ==> after.channels[one] == state.channels[one]
            &&& after.orders == state.orders
            &&& after.shared == state.shared
        }),
{
    let after = state.requested(id, channel);
    if state.requests.contains_key(id) {
        assert(after.requests.dom() =~= state.requests.dom());
    } else {
        assert(after.requests.dom() =~= state.requests.dom().insert(id));
    }
    if other != id && state.requests.contains_key(other) {
        assert(state.line(other).contains(state.line(other).last()));
        assert(!state.channels.contains_key(channel));
    }
}

/// A registered order is one more listener under its id, and the first where
/// there was none; a registered shared request is one more receiver of its
/// message's channel. Neither touches anything else.
pub proof fn a_registered_order_is_one_more_listener(
    state: RegistryState,
    id: i32,
    message: OutgoingMessages,
    other: i32,
)
    requires
        state.wf(),
        state.orders.dom().finite(),
    ensures
        ({
            let ordered = state.ordered(id);
            let subscribed = state.subscribed(message);
            &&& state.orders.contains_key(id) ==> ordered.listeners(Table::Order, id) == Some(
                state.orders[id] + 1,
            )
            &&& !state.orders.contains_key(id) ==> ordered.listeners(Table::Order, id) == Some(1nat)
            &&& other != id ==> ordered.listeners(Table::Order, other) == state.listeners(
                Table::Order,
                other,
            )
            &&& ordered.count(Table::Order) == state.count(Table::Order) + (
            if state.orders.contains_key(id) {
                0int
            } else {
                1int
            })
            &&& ordered.requests == state.requests
            &&& ordered.channels == state.channels
            &&& ordered.shared == state.shared
            &&& subscribed.receivers(message) == state.receivers(message) + 1
            &&& forall|sibling: OutgoingMessages|
                sibling != message ==> #[trigger] subscribed.receivers(sibling) == state.receivers(
                    sibling,
                )
            &&& subscribed.requests == state.requests
            &&& subscribed.channels == state.channels
            &&& subscribed.orders == state.orders
        }),
{
    let ordered = state.ordered(id);
    if state.orders.contains_key(id) {
        assert(ordered.orders.dom() =~= state.orders.dom());
    } else {
        assert(ordered.orders.dom() =~= state.orders.dom().insert(id));
    }
    assert forall|sibling: OutgoingMessages| sibling != message implies key_of(sibling) != key_of(
        message,
    ) by {
        an_id_names_one_message(sibling);
        an_id_names_one_message(message);
        if sibling.wire_id() == message.wire_id() {
            no_two_messages_share_an_id(sibling, message);
        }
    }
    assert forall|sibling: OutgoingMessages|
        sibling != message implies #[trigger] state.subscribed(message).receivers(sibling)
        == state.receivers(sibling) by {
        assert(key_of(sibling) != key_of(message));
    }
}

/// Joining a registration adds exactly one to those that listen where it
/// does, however many they were, and changes nothing else; so giving up that
/// one again, in whichever way, leaves the registry as it was.
pub proof fn joining_adds_one_listener(
    state: RegistryState,
    registration: Registration,
    one: u64,
    key: i32,
)
    requires
        state.wf(),
        state.knows(registration),
    ensures
        ({
            let after = state.joined(registration);
            &&& after.requests == state.requests
            &&& registration matches Registration::Request { channel } ==> {
                &&& after.channels.contains_key(channel)
                &&& after.channels[channel].listeners == state.channels[channel].listeners + 1
                &&& after.channels[channel].id == state.channels[channel].id
                &&& after.orders == state.orders
                &&& after.shared == state.shared
            }
            &&& registration != (Registration::Request { channel: one }) ==> {
                &&& after.channels.contains_key(one) <==> state.channels.contains_key(one)
                &&& after.channels[one] == state.channels[one]
            }
            &&& registration matches Registration::Order { id } ==> {
                &&& after.orders.contains_key(id) && after.orders[id] == state.orders[id] + 1
                &&& after.shared == state.shared
                &&& key != id ==> after.listeners(Table::Order, key) == state.listeners(
                    Table::Order,
                    key,
                )
            }
            &&& registration matches Registration::Shared { message } ==> {
                &&& after.receivers(message) == state.receivers(message) + 1
                &&& after.orders == state.orders
                &&& key != key_of(message) ==> (after.shared.contains_key(key)
                    <==> state.shared.contains_key(key)) && after.shared[key] == state.shared[key]
            }
            &&& after.audience(registration) == state.audience(registration) + 1
            &&& after.released(registration) == state
            &&& after.withdrawn(registration) == state
        }),
{
    let after = state.joined(registration);
    match registration {
        Registration::Request { channel } => {
            assert(after.released(registration).channels =~= state.channels);
            assert(after.withdrawn(registration).channels =~= state.channels);
        },
        Registration::Order { id } => one_up_and_one_down(state.orders, id),
        Registration::Shared { message } => one_up_and_one_down(state.shared, key_of(message)),
    }
}

impl RegistryState {
    /// The registry after a registration was joined `count` times.
    pub open spec fn joined_by(self, registration: Registration, count: nat) -> RegistryState
        decreases count,
    {
        if count == 0 {
            self
        } else {
            self.joined_by(registration, (count - 1) as nat).joined(registration)
        }
    }
}

/// As many releases as joins leave the registry as it was.
pub proof fn as_many_releases_as_joins_change_nothing(
    state: RegistryState,
    registration: Registration,
    count: nat,
)
    requires
        state.wf(),
        state.knows(registration),
    ensures
        state.joined_by(registration, count).wf(),
        state.joined_by(registration, count).knows(registration),
        state.joined_by(registration, count).requests == state.requests,
        state.joined_by(registration, count).audience(registration) == state.audience(registration)
            + count,
        state.joined_by(registration, count).released_by(registration, count) == state,
    decreases count,
{
    if count > 0 {
        let fewer = (count - 1) as nat;
        let before = state.joined_by(registration, fewer);
        as_many_releases_as_joins_change_nothing(state, registration, fewer);
        joining_keeps_the_registry_sound(before, registration);
        joining_adds_one_listener(before, registration, 0, 0);
        the_first_release_is_one_of_them(before.joined(registration), registration, fewer);
    }
}

/// One release and then the others are all of them.
proof fn the_first_release_is_one_of_them(
    state: RegistryState,
    registration: Registration,
    others: nat,
)
    ensures
        state.released_by(registration, others + 1) == state.released(registration).released_by(
            registration,
            others,
        ),
    decreases others,
{
    if others > 0 {
        the_first_release_is_one_of_them(state, registration, (others - 1) as nat);
    } else {
        assert(state.released_by(registration, 1) == state.released_by(registration, 0).released(
            registration,
        ));
    }
}

/// A clone keeps the channel: a request that was joined `clones` times has its
/// entry until all of its listeners, itself and its clones, are released, and
/// is gone with the last of them.
pub proof fn a_clone_keeps_the_channel_its_original_released(
    state: RegistryState,
    id: i32,
    channel: u64,
    clones: nat,
    released: nat,
)
    requires
        state.wf(),
        state.is_new(id, channel),
        released <= clones + 1,
    ensures
        ({
            let place = Registration::Request { channel };
            let cloned = state.requested(id, channel).joined_by(place, clones);
            let after = cloned.released_by(place, released);
            &&& cloned.listeners(Table::Request, id) == Some(clones + 1)
            &&& released <= clones ==> after.listeners(Table::Request, id) == Some(
                (clones + 1 - released) as nat,
            )
            &&& released == clones + 1 ==> after.listeners(Table::Request, id) is None
        }),
{
    let place = Registration::Request { channel };
    let first = state.requested(id, channel);
    requesting_keeps_the_registry_sound(state, id, channel);
    as_many_releases_as_joins_change_nothing(first, place, clones);
    let cloned = first.joined_by(place, clones);
    assert(cloned.requests[id].last() == channel);
    assert(cloned.listeners(Table::Request, id) == Some(cloned.audience(place)));
    assert(first.audience(place) == 1);
    an_entry_goes_with_its_listeners(cloned, Table::Request, id);
    if released <= clones {
        an_entry_stays_until_then(cloned, Table::Request, id, place, released);
    }
}

/// Withdrawing a request gives up one listener. As long as someone else
/// listens to its channel, that is all. With the last, the channel is gone,
/// and nobody else: the others in its line stay, in their order, everything
/// under other ids stays, and so does whoever else is listened to.
pub proof fn a_withdrawal_takes_nobody_along(
    state: RegistryState,
    channel: u64,
    one: u64,
    other: i32,
)
    requires
        state.wf(),
        state.channels.contains_key(channel),
    ensures
        ({
            let was = state.channels[channel];
            let after = state.withdrawn(Registration::Request { channel });
            &&& was.listeners > 1 ==> {
                &&& after.requests == state.requests
                &&& after.channels.contains_key(channel) && after.channels[channel].id == was.id
                &&& after.channels[channel].listeners == was.listeners - 1
            }
            &&& was.listeners == 1 ==> {
                &&& !after.channels.contains_key(channel)
                &&& after.line(was.id).contains(one) <==> state.line(was.id).contains(one) && one
                    != channel
            }
            &&& is_increasing(after.line(was.id))
            &&& one != channel ==> (after.channels.contains_key(one)
                <==> state.channels.contains_key(one))
            &&& one != channel ==> after.channels[one] == state.channels[one]
            &&& other != was.id ==> after.line(other) == state.line(other)
            &&& after.orders == state.orders
            &&& after.shared == state.shared
        }),
{
    let was = state.channels[channel];
    let after = state.withdrawn(Registration::Request { channel });
    who_is_left(state.line(was.id), channel);
    if was.listeners == 1 {
        assert(after.line(was.id) =~= without(state.line(was.id), channel));
    } else {
        assert(after.line(was.id) =~= state.line(was.id));
    }
}

/// Releasing a request that was written gives up one listener. As long as
/// someone else listens to its channel, that is all. With the last, the
/// channel is gone, and the earlier ones in its line, which it had replaced,
/// can no more have the entry, though they are listened to as before; the
/// later ones stay, and so does everything under other ids.
pub proof fn a_release_takes_only_the_replaced_along(
    state: RegistryState,
    channel: u64,
    one: u64,
    other: i32,
)
    requires
        state.wf(),
        state.channels.contains_key(channel),
    ensures
        ({
            let was = state.channels[channel];
            let after = state.released(Registration::Request { channel });
            &&& was.listeners > 1 ==> {
                &&& after.requests == state.requests
                &&& after.channels.contains_key(channel) && after.channels[channel].id == was.id
                &&& after.channels[channel].listeners == was.listeners - 1
            }
            &&& was.listeners == 1 ==> {
                &&& !after.channels.contains_key(channel)
                &&& after.line(was.id).contains(one) <==> state.line(was.id).contains(one) && (
                state.line(was.id).contains(channel) ==> channel < one)
            }
            &&& is_increasing(after.line(was.id))
            &&& one != channel ==> (after.channels.contains_key(one)
                <==> state.channels.contains_key(one))
            &&& one != channel ==> after.channels[one] == state.channels[one]
            &&& other != was.id ==> after.line(other) == state.line(other)
            &&& after.orders == state.orders
            &&& after.shared == state.shared
        }),
{
    let was = state.channels[channel];
    let after = state.released(Registration::Request { channel });
    who_is_behind(state.line(was.id), channel);
    if was.listeners == 1 {
        assert(after.line(was.id) =~= behind(state.line(was.id), channel));
    } else {
        assert(after.line(was.id) =~= state.line(was.id));
    }
}

/// Giving up an order, or a shared request, in whichever way, takes one
/// listener away, and with the last the entry; everyone else stays.
pub proof fn giving_up_an_order_takes_one_listener(
    state: RegistryState,
    id: i32,
    message: OutgoingMessages,
    key: i32,
)
    requires
        state.wf(),
    ensures
        state.orders.contains_key(id) ==> {
            let place = Registration::Order { id };
            let after = state.withdrawn(place);
            &&& state.released(place) == after
            &&& after.listeners(Table::Order, id) == (if state.orders[id] == 1 {
                None
            } else {
                Some((state.orders[id] - 1) as nat)
            })
            &&& key != id ==> after.listeners(Table::Order, key) == state.listeners(
                Table::Order,
                key,
            )
            &&& after.requests == state.requests
            &&& after.channels == state.channels
            &&& after.shared == state.shared
        },
        state.shared.contains_key(key_of(message)) ==> {
            let place = Registration::Shared { message };
            let after = state.withdrawn(place);
            &&& state.released(place) == after
            &&& after.receivers(message) == state.receivers(message) - 1
            &&& key != key_of(message) ==> (after.shared.contains_key(key)
                <==> state.shared.contains_key(key)) && after.shared[key] == state.shared[key]
            &&& after.requests == state.requests
            &&& after.channels == state.channels
            &&& after.orders == state.orders
        },
{
}

/// Which registrations are known, how many listen with them, and what has
/// room for one more.
pub proof fn a_registration_is_known_while_it_is_listened_to(
    state: RegistryState,
    id: i32,
    channel: u64,
    message: OutgoingMessages,
)
    ensures
        state.knows(Registration::Request { channel }) <==> state.channels.contains_key(channel),
        state.knows(Registration::Order { id }) <==> state.orders.contains_key(id),
        state.knows(Registration::Shared { message }) <==> state.shared.contains_key(
            key_of(message),
        ),
        state.audience(Registration::Request { channel }) == state.channels[channel].listeners,
        state.audience(Registration::Order { id }) == state.orders[id],
        state.audience(Registration::Shared { message }) == state.shared[key_of(message)],
        has_room(state.orders, id) <==> (state.orders.contains_key(id) ==> state.orders[id]
            < usize::MAX),
{
}

/// Whatever a registry says of itself is what it holds: nothing at all when
/// it is new; under an id, as many listeners as the last in its line has, or
/// as are counted, or none; as many entries as ids that have one; and as many
/// receivers as are counted.
pub proof fn a_registry_says_what_it_holds(
    new: Registry,
    registry: Registry,
    id: i32,
    message: OutgoingMessages,
    of_request: Option<usize>,
    of_order: Option<usize>,
    requests: usize,
    orders: usize,
    receivers: usize,
)
    requires
        registry.wf(),
        call_ensures(Registry::new, (), new),
        call_ensures(Registry::listeners, (&registry, Table::Request, id), of_request),
        call_ensures(Registry::listeners, (&registry, Table::Order, id), of_order),
        call_ensures(Registry::count, (&registry, Table::Request), requests),
        call_ensures(Registry::count, (&registry, Table::Order), orders),
        call_ensures(Registry::receivers, (&registry, message), receivers),
    ensures
        new@.requests.dom() =~= Set::empty(),
        new@.orders.dom() =~= Set::empty(),
        new@.shared.dom() =~= Set::empty(),
        new@.channels.dom() =~= Set::empty(),
        of_request is Some <==> registry@.requests.contains_key(id),
        of_request matches Some(count) ==> count
            == registry@.channels[registry@.requests[id].last()].listeners,
        of_order is Some <==> registry@.orders.contains_key(id),
        of_order matches Some(count) ==> count == registry@.orders[id],
        requests == registry@.requests.dom().len(),
        orders == registry@.orders.dom().len(),
        registry@.shared.contains_key(key_of(message)) ==> receivers
            == registry@.shared[key_of(message)],
        !registry@.shared.contains_key(key_of(message)) ==> receivers == 0,
{
}

} // verus!
