//! Identifiers of users, channels and messages, as the chat platform numbers them.
//!
//! The store keeps an identifier in a signed 64-bit column; the same 64 bits,
//! read as unsigned, are the identifier.

use vstd::prelude::*;
use vstd::std_specs::convert::FromSpecImpl;

verus! {

/// The identifier that the signed store column `item` stands for: the same
/// 64 bits read as an unsigned number.
pub open spec fn id_of_column(item: i64) -> u64 {
    if item >= 0 {
        item as u64
    } else {
        (item + 0x1_0000_0000_0000_0000) as u64
    }
}

/// The signed store column that holds the identifier `id`.
pub open spec fn column_of_id(id: u64) -> i64 {
    if id <= i64::MAX {
        id as i64
    } else {
        (id - 0x1_0000_0000_0000_0000) as i64
    }
}

/// Reads a store column as an identifier.
pub fn column_to_id(item: i64) -> (id: u64)
    ensures
        id == id_of_column(item),
{
    if item >= 0 {
        item as u64
    } else {
        let below: u64 = (-(item + 1)) as u64;
        u64::MAX - below
    }
}

/// Writes an identifier as a store column.
pub fn id_to_column(id: u64) -> (item: i64)
    ensures
        item == column_of_id(id),
{
    if id <= 0x7fff_ffff_ffff_ffff {
        id as i64
    } else {
        let above: u64 = u64::MAX - id;
        -1 - (above as i64)
    }
}

/// Every identifier survives the store: written as a column and read back,
/// it is the same identifier, and so is every column read and written back.
pub proof fn lemma_column_round_trip(id: u64, item: i64)
    ensures
        id_of_column(column_of_id(id)) == id,
        column_of_id(id_of_column(item)) == item,
{
}

/// The identifier of a user.
#[derive(Clone, Copy, Debug, PartialEq, Eq, Structural)]
pub struct UserIdWrapper(pub u64);

impl UserIdWrapper {
    /// The identifier as a number.
    pub fn get(&self) -> (id: u64)
        ensures
            id == self.0,
    {
        self.0
    }
}

impl From<i64> for UserIdWrapper {
    fn from(item: i64) -> (id: Self) {
        UserIdWrapper(column_to_id(item))
    }
}

impl FromSpecImpl<i64> for UserIdWrapper {
    open spec fn obeys_from_spec() -> bool {
        true
    }

    open spec fn from_spec(item: i64) -> Self {
        UserIdWrapper(id_of_column(item))
    }
}

/// The identifier of a channel.
#[derive(Clone, Copy, Debug, PartialEq, Eq, Structural)]
pub struct ChannelIdWrapper(pub u64);

impl ChannelIdWrapper {
    /// The identifier as a number.
    pub fn get(&self) -> (id: u64)
        ensures
            id == self.0,
    {
        self.0
    }
}

impl From<i64> for ChannelIdWrapper {
    fn from(item: i64) -> (id: Self) {
        ChannelIdWrapper(column_to_id(item))
    }
}

impl FromSpecImpl<i64> for ChannelIdWrapper {
    open spec fn obeys_from_spec() -> bool {
        true
    }

    open spec fn from_spec(item: i64) -> Self {
        ChannelIdWrapper(id_of_column(item))
    }
}

/// The identifier of a message.
#[derive(Clone, Copy, Debug, PartialEq, Eq, Structural)]
pub struct MessageIdWrapper(pub u64);

impl MessageIdWrapper {
    /// The identifier as a number.
    pub fn get(&self) -> (id: u64)
        ensures
            id == self.0,
    {
        self.0
    }
}

impl From<i64> for MessageIdWrapper {
    fn from(item: i64) -> (id: Self) {
        MessageIdWrapper(column_to_id(item))
    }
}

impl FromSpecImpl<i64> for MessageIdWrapper {
    open spec fn obeys_from_spec() -> bool {
        true
    }

    open spec fn from_spec(item: i64) -> Self {
        MessageIdWrapper(id_of_column(item))
    }
}

/// The identifier of a message that a record may lack, such as the message
/// that a curated message replies to.
#[derive(Clone, Copy, Debug, PartialEq, Eq, Structural)]
pub struct MaybeMessageIdWrapper(pub Option<MessageIdWrapper>);

impl MaybeMessageIdWrapper {
    #[must_use]
    pub fn new(option: Option<MessageIdWrapper>) -> (id: Self)
        ensures
            id.0 == option,
    {
        MaybeMessageIdWrapper(option)
    }

    /// The identifier as a number, where there is one.
    pub fn get(&self) -> (id: Option<u64>)
        ensures
            id == self.number(),
    {
        match self.0 {
            Some(m) => Some(m.0),
            None => None,
        }
    }

    /// The identifier as a number, where there is one.
    pub open spec fn number(self) -> Option<u64> {
        match self.0 {
            Some(m) => Some(m.0),
            None => None,
        }
    }
}

impl From<Option<i64>> for MaybeMessageIdWrapper {
    fn from(option: Option<i64>) -> (id: Self) {
        match option {
            Some(item) => MaybeMessageIdWrapper(Some(MessageIdWrapper(column_to_id(item)))),
            None => MaybeMessageIdWrapper(None),
        }
    }
}

impl FromSpecImpl<Option<i64>> for MaybeMessageIdWrapper {
    open spec fn obeys_from_spec() -> bool {
        true
    }

    open spec fn from_spec(option: Option<i64>) -> Self {
        match option {
            Some(item) => MaybeMessageIdWrapper(Some(MessageIdWrapper(id_of_column(item)))),
            None => MaybeMessageIdWrapper(None),
        }
    }
}

} // verus!
