//! The channel manager: channels keyed by channel id.
use crate::error::Error;
use crate::table::NameTable;
use crate::text::concat2;
use vstd::prelude::*;

verus! {

/// Whether `e` is the error for an unknown channel id.
pub open spec fn is_channel_not_found(e: Error, id: Seq<char>) -> bool {
    e matches Error::Channel(m) && m@ == "Channel not found: "@ + id
}

/// Channels keyed by id. `C` is the executable form of a channel.
#[derive(Debug)]
pub struct ChannelManager<C> {
    pub channels: NameTable<C>,
}

impl<C> View for ChannelManager<C> {
    type V = Map<Seq<char>, C>;

    open spec fn view(&self) -> Map<Seq<char>, C> {
        self.channels@
    }
}

impl<C> ChannelManager<C> {
    /// The manager's invariant.
    pub open spec fn wf(&self) -> bool {
        self.channels.wf()
    }

    /// A manager without channels.
    pub fn new() -> (r: Self)
        ensures
            r.wf(),
            r@ == Map::<Seq<char>, C>::empty(),
    {
        ChannelManager { channels: NameTable::new() }
    }

    /// Registers `channel` under `channel_id`, replacing a channel registered before
    /// under that id. This always succeeds.
    pub fn register(&mut self, channel_id: String, channel: C) -> (r: Result<(), Error>)
        requires
            old(self).wf(),
        ensures
            final(self).wf(),
            final(self)@ == old(self)@.insert(channel_id@, channel),
            r is Ok,
    {
        self.channels.insert(channel_id, channel);
        Ok(())
    }

    /// The channel registered under `channel_id`, or the channel error
    /// `Channel not found: {id}`.
    pub fn get(&self, channel_id: &str) -> (r: Result<&C, Error>)
        requires
            self.wf(),
        ensures
            match r {
                Ok(c) => self@.contains_key(channel_id@) && self@[channel_id@] == *c,
                Err(e) => !self@.contains_key(channel_id@) && is_channel_not_found(e, channel_id@),
            },
    {
        match self.channels.get(channel_id) {
            Some(c) => Ok(c),
            None => Err(Error::Channel(concat2("Channel not found: ", channel_id))),
        }
    }

    /// The ids of all channels, in registration order. This always succeeds.
    pub fn list(&self) -> (r: Result<Vec<String>, Error>)
        ensures
            r matches Ok(v) && v@.map_values(|s: String| s@) == self.channels.names(),
    {
        Ok(self.channels.names_list())
    }
}

} // verus!
