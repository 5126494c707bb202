//! The IBC paths of the chain registry's `_IBC/` directory: the two chains
//! of a path, their channels and the tags a channel carries.
use vstd::prelude::*;

verus! {

/// An IBC path between two chains.
#[derive(Debug)]
pub struct IBCPath {
    pub schema: String,
    pub chain_1: Chain1,
    pub chain_2: Chain2,
    pub channels: Vec<Channel>,
}

/// The first chain of a path.
#[derive(Debug)]
pub struct Chain1 {
    pub chain_name: String,
    pub client_id: String,
    pub connection_id: String,
}

/// The second chain of a path.
#[derive(Debug)]
pub struct Chain2 {
    pub chain_name: String,
    pub client_id: String,
    pub connection_id: String,
}

/// A channel of a path.
#[derive(Debug)]
pub struct Channel {
    pub chain_1: ChannelChain1,
    pub chain_2: ChannelChain2,
    pub ordering: String,
    pub version: String,
    pub tags: Tags,
}

/// The first chain's end of a channel.
#[derive(Debug)]
pub struct ChannelChain1 {
    pub channel_id: String,
    pub port_id: String,
}

/// The second chain's end of a channel.
#[derive(Debug)]
pub struct ChannelChain2 {
    pub channel_id: String,
    pub port_id: String,
}

/// The tags of a channel.
#[derive(Debug)]
pub struct Tags {
    pub dex: String,
    pub preferred: bool,
    pub properties: String,
    pub status: String,
}

/// A tag to filter paths by, with the value it must have.
#[derive(Debug)]
pub enum Tag {
    Dex(String),
    Preferred(bool),
    Properties(String),
    Status(String),
}

impl Clone for Chain1 {
    fn clone(&self) -> (r: Chain1)
        ensures
            r == *self,
    {
        Chain1 {
            chain_name: self.chain_name.clone(),
            client_id: self.client_id.clone(),
            connection_id: self.connection_id.clone(),
        }
    }
}

impl Clone for Chain2 {
    fn clone(&self) -> (r: Chain2)
        ensures
            r == *self,
    {
        Chain2 {
            chain_name: self.chain_name.clone(),
            client_id: self.client_id.clone(),
            connection_id: self.connection_id.clone(),
        }
    }
}

impl Clone for ChannelChain1 {
    fn clone(&self) -> (r: ChannelChain1)
        ensures
            r == *self,
    {
        ChannelChain1 { channel_id: self.channel_id.clone(), port_id: self.port_id.clone() }
    }
}

impl Clone for ChannelChain2 {
    fn clone(&self) -> (r: ChannelChain2)
        ensures
            r == *self,
    {
        ChannelChain2 { channel_id: self.channel_id.clone(), port_id: self.port_id.clone() }
    }
}

impl Clone for Tags {
    fn clone(&self) -> (r: Tags)
        ensures
            r == *self,
    {
        Tags {
            dex: self.dex.clone(),
            preferred: self.preferred,
            properties: self.properties.clone(),
            status: self.status.clone(),
        }
    }
}

impl Clone for Channel {
    fn clone(&self) -> (r: Channel)
        ensures
            r == *self,
    {
        Channel {
            chain_1: self.chain_1.clone(),
            chain_2: self.chain_2.clone(),
            ordering: self.ordering.clone(),
            version: self.version.clone(),
            tags: self.tags.clone(),
        }
    }
}

/// An IBC path as a value: its channels as a sequence.
pub struct IBCPathView {
    pub schema: Seq<char>,
    pub chain_1: Chain1,
    pub chain_2: Chain2,
    pub channels: Seq<Channel>,
}

impl View for IBCPath {
    type V = IBCPathView;

    open spec fn view(&self) -> IBCPathView {
        IBCPathView {
            schema: self.schema@,
            chain_1: self.chain_1,
            chain_2: self.chain_2,
            channels: self.channels@,
        }
    }
}

impl Clone for IBCPath {
    fn clone(&self) -> (r: IBCPath)
        ensures
            r@ == self@,
    {
        let channels = self.channels.clone();
        assert(channels@ =~= self.channels@);
        IBCPath {
            schema: self.schema.clone(),
            chain_1: self.chain_1.clone(),
            chain_2: self.chain_2.clone(),
            channels,
        }
    }
}

} // verus!
