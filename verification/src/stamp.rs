//! The wire format of values that carry message ids and creation times.
//!
//! A message may leave out its id and its creation time: whoever reads it gets
//! a fresh id and the current time in their place. Reading such a value is
//! therefore stated for a [`Stamp`], the id and time that fill the gaps, and
//! [`Source`] says where the stamp comes from.

use vstd::prelude::*;
use crate::clock::{clock_read, Timestamp, TimestampView};
use crate::json::{
    json_parsed, json_printed, nesting_limit, parse_value, print_value, reprints, value_tree, Tree,
};
use crate::message::{drawn, random_id, MessageId};
use crate::wire::{reads_as, WireError};

verus! {

/// The id and the creation time of a message that states neither.
#[derive(Debug, Clone, Copy, PartialEq, Eq)]
pub struct Stamp {
    pub id: MessageId,
    pub created_at: Timestamp,
}

/// What a [`Stamp`] says.
pub struct StampView {
    pub id: u128,
    pub created_at: TimestampView,
}

impl View for Stamp {
    type V = StampView;

    open spec fn view(&self) -> StampView {
        StampView { id: self.id@, created_at: self.created_at@ }
    }
}

/// Where the parts of a [`Stamp`] come from.
#[derive(Debug, Clone, Copy, PartialEq, Eq)]
pub enum Source {
    /// The stamp is given.
    Given(Stamp),
    /// A part that is needed is made when it is needed: a random id, the
    /// current time.
    Fresh,
}

impl Source {
    /// `id` may fill a gap.
    pub open spec fn gives_id(self, id: u128) -> bool {
        match self {
            Source::Given(stamp) => id == stamp.id@,
            Source::Fresh => random_id(id),
        }
    }

    /// `created_at` may fill a gap.
    pub open spec fn gives_time(self, created_at: TimestampView) -> bool {
        match self {
            Source::Given(stamp) => created_at == stamp.created_at@,
            Source::Fresh => created_at.valid() && created_at.secs >= 0 && created_at.nanos
                < 1000000000,
        }
    }

    /// `stamp` may fill the gaps.
    pub open spec fn gives(self, stamp: StampView) -> bool {
        self.gives_id(stamp.id) && self.gives_time(stamp.created_at)
    }

    /// Something can fill the gaps.
    pub proof fn lemma_gives(self)
        ensures
            exists|fill: StampView| #[trigger] self.gives(fill),
    {
        match self {
            Source::Given(stamp) => {
                assert(self.gives(stamp@));
            },
            Source::Fresh => {
                let fill = StampView {
                    id: 0x4000_8000_0000_0000_0000,
                    created_at: TimestampView { secs: 0, nanos: 0 },
                };
                assert(self.gives(fill));
            },
        }
    }

    pub(crate) fn id(&self) -> (id: MessageId)
        ensures
            self.gives_id(id@),
            self is Fresh ==> drawn(id@),
    {
        match self {
            Source::Given(stamp) => stamp.id,
            Source::Fresh => MessageId::new(),
        }
    }

    pub(crate) fn time(&self) -> (created_at: Timestamp)
        ensures
            self.gives_time(created_at@),
            self is Fresh ==> clock_read(created_at@),
    {
        match self {
            Source::Given(stamp) => stamp.created_at,
            Source::Fresh => Timestamp::now(),
        }
    }
}

/// A type that travels as JSON and carries message ids or creation times.
pub trait StampedWire: Sized + View {
    /// The document that a value is written as.
    spec fn encoded(v: Self::V) -> Tree;

    /// The value that is read from a document, with `fill` in the place of
    /// what it leaves out, or `None` where the document does not have the
    /// shape of the type.
    spec fn decoded(t: Tree, nested: bool, fill: StampView) -> Option<Self::V>;

    /// Every time in the value is that of a [`Timestamp`].
    spec fn faithful(v: Self::V) -> bool;

    /// The parts of `fill` were drawn and read for this, or make no difference
    /// to what the document is read as.
    open spec fn freshly_filled(t: Tree, nested: bool, fill: StampView) -> bool {
        &&& drawn(fill.id) || forall|id: u128| #[trigger]
            Self::decoded(t, nested, StampView { id, created_at: fill.created_at })
                == Self::decoded(t, nested, fill)
        &&& clock_read(fill.created_at) || forall|created_at: TimestampView| #[trigger]
            Self::decoded(t, nested, StampView { id: fill.id, created_at }) == Self::decoded(
                t,
                nested,
                fill,
            )
    }

    /// Writes the value.
    fn to_value(&self) -> (value: serde_json::Value)
        ensures
            value_tree(value) == Self::encoded(self@),
            Self::faithful(self@),
    ;

    /// Reads a value that stands inside a tagged value (`nested`) or does not.
    /// What was written is read back as it was.
    fn decode(value: serde_json::Value, nested: bool, source: &Source) -> (read: Result<
        Self,
        WireError,
    >)
        ensures
            exists|fill: StampView| #[trigger]
                source.gives(fill) && reads_as(
                    read,
                    Self::decoded(value_tree(value), nested, fill),
                ) && (source is Fresh ==> Self::freshly_filled(value_tree(value), nested, fill)),
            forall|v: Self::V|
                value_tree(value) == #[trigger] Self::encoded(v) && Self::faithful(v)
                    ==> read is Ok && read->Ok_0@ == v,
    ;

    /// Reads a value. A message that lacks an id gets a random one, and one
    /// that lacks a creation time gets the current time.
    ///
    /// Panics where an id is needed and the system has no source of randomness,
    /// or a time and its clock is set before the Unix epoch.
    fn from_value(value: serde_json::Value) -> (read: Result<Self, WireError>)
        ensures
            exists|fill: StampView| #[trigger]
                Source::Fresh.gives(fill) && reads_as(
                    read,
                    Self::decoded(value_tree(value), false, fill),
                ) && Self::freshly_filled(value_tree(value), false, fill),
            forall|v: Self::V|
                value_tree(value) == #[trigger] Self::encoded(v) && Self::faithful(v)
                    ==> read is Ok && read->Ok_0@ == v,
    {
        Self::decode(value, false, &Source::Fresh)
    }

    /// Reads a value. A message that lacks an id or a creation time gets that
    /// of the stamp.
    fn from_value_with(value: serde_json::Value, stamp: Stamp) -> (read: Result<Self, WireError>)
        ensures
            reads_as(read, Self::decoded(value_tree(value), false, stamp@)),
            forall|v: Self::V|
                value_tree(value) == #[trigger] Self::encoded(v) && Self::faithful(v)
                    ==> read is Ok && read->Ok_0@ == v,
    {
        Self::decode(value, false, &Source::Given(stamp))
    }

    /// The value as a reader has it, once it has travelled as JSON text.
    /// A value whose document [`reprints`] arrives as it was.
    fn relayed(&self) -> (read: Result<Self, WireError>)
        ensures
            match json_parsed(json_printed(Self::encoded(self@))) {
                Some(t) => exists|fill: StampView| #[trigger]
                    Source::Fresh.gives(fill) && reads_as(read, Self::decoded(t, false, fill)),
                None => read is Err && read->Err_0 == WireError::Malformed,
            },
            reprints(Self::encoded(self@), nesting_limit()) ==> read is Ok && read->Ok_0@ == self@,
    {
        let text = print_value(&self.to_value());
        match parse_value(&text) {
            Ok(value) => Self::from_value(value),
            Err(_) => Err(WireError::Malformed),
        }
    }
}

} // verus!
