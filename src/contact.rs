use vstd::prelude::*;

verus! {

/// A way of reaching a user, as callers of the API name it.
#[derive(Clone, Copy, Debug, PartialEq, Eq, Structural)]
pub enum Channel {
    Email,
    Telegram,
    Twitter,
    Discord,
    LinkedIn,
}

/// A way of reaching a user, as the contact table stores it.
#[derive(Clone, Copy, Debug, PartialEq, Eq, Structural)]
pub enum ContactChannel {
    Email,
    Telegram,
    Twitter,
    Discord,
    Linkedin,
}

/// The stored channel for each channel of the API: the same channel.
pub open spec fn stored_channel(value: Channel) -> ContactChannel {
    match value {
        Channel::Email => ContactChannel::Email,
        Channel::Telegram => ContactChannel::Telegram,
        Channel::Twitter => ContactChannel::Twitter,
        Channel::Discord => ContactChannel::Discord,
        Channel::LinkedIn => ContactChannel::Linkedin,
    }
}

impl From<Channel> for ContactChannel {
    fn from(value: Channel) -> (r: ContactChannel) {
        match value {
            Channel::Email => ContactChannel::Email,
            Channel::Telegram => ContactChannel::Telegram,
            Channel::Twitter => ContactChannel::Twitter,
            Channel::Discord => ContactChannel::Discord,
            Channel::LinkedIn => ContactChannel::Linkedin,
        }
    }
}

impl vstd::std_specs::convert::FromSpecImpl<Channel> for ContactChannel {
    open spec fn obeys_from_spec() -> bool {
        true
    }

    open spec fn from_spec(v: Channel) -> ContactChannel {
        stored_channel(v)
    }
}

/// A user's contact on one channel, and whether others may see it.
#[derive(Debug)]
pub struct Information {
    pub channel: Channel,
    pub contact: String,
    pub public: bool,
}

} // verus!
