//! Hook events and daemon command messages.
//!
//! The metadata carried by an event is held as a list of tagged values with
//! explicit accessors, so the classifier's parsing logic stays type-safe.
//! The surrounding process converts the wire form into this shape.

use vstd::prelude::*;
use crate::text::str_eq;

verus! {

/// The kind of hook notification.
#[derive(Debug, Clone, Copy, PartialEq, Eq, Structural)]
pub enum EventKind {
    PostToolUse,
    PostToolUseFailure,
    TaskCompleted,
    SessionEnd,
    GitCommit,
    GitPush,
    UserDefined,
}

/// A metadata value attached to an event under a string key.
#[derive(Debug, Clone)]
pub enum MetaValue {
    Null,
    Truth(bool),
    Int(i64),
    Text(String),
}

/// One hook notification, immutable once constructed.
#[derive(Debug, Clone)]
pub struct Event {
    pub event: EventKind,
    pub tool: Option<String>,
    pub session_id: String,
    pub tty_path: String,
    pub metadata: Vec<(String, MetaValue)>,
}

/// The first metadata entry under `key`, if any.
pub open spec fn spec_meta_lookup(entries: Seq<(String, MetaValue)>, key: Seq<char>) -> Option<
    MetaValue,
>
    decreases entries.len(),
{
    if entries.len() == 0 {
        None
    } else if entries[0].0@ == key {
        Some(entries[0].1)
    } else {
        spec_meta_lookup(entries.drop_first(), key)
    }
}

/// The command text carried in `metadata`, if present as a text value.
pub open spec fn spec_meta_text(e: Event, key: Seq<char>) -> Option<Seq<char>> {
    match spec_meta_lookup(e.metadata@, key) {
        Some(MetaValue::Text(s)) => Some(s@),
        _ => None,
    }
}

/// The integer carried in `metadata` under `key`, if present as an integer.
pub open spec fn spec_meta_int(e: Event, key: Seq<char>) -> Option<i64> {
    match spec_meta_lookup(e.metadata@, key) {
        Some(MetaValue::Int(v)) => Some(v),
        _ => None,
    }
}

impl Event {
    /// Look up the first metadata entry stored under `key`.
    pub fn get_meta(&self, key: &str) -> (r: Option<&MetaValue>)
        ensures
            match r {
                Some(v) => spec_meta_lookup(self.metadata@, key@) == Some(*v),
                None => spec_meta_lookup(self.metadata@, key@) is None,
            },
    {
        let n: usize = self.metadata.len();
        let mut i: usize = 0;
        proof {
            assert(self.metadata@.skip(0) =~= self.metadata@);
        }
        while i < n
            invariant
                i <= n,
                n == self.metadata@.len(),
                spec_meta_lookup(self.metadata@, key@) == spec_meta_lookup(
                    self.metadata@.skip(i as int),
                    key@,
                ),
            decreases n - i,
        {
            proof {
                assert(self.metadata@.skip(i as int)[0] == self.metadata@[i as int]);
            }
            if str_eq(self.metadata[i].0.as_str(), key) {
                return Some(&self.metadata[i].1);
            }
            proof {
                assert(self.metadata@.skip(i as int).drop_first() =~= self.metadata@.skip(
                    i + 1 as int,
                ));
            }
            i = i + 1;
        }
        None
    }

    /// The text value stored under `key`, if any.
    pub fn meta_text(&self, key: &str) -> (r: Option<&String>)
        ensures
            match r {
                Some(s) => spec_meta_text(*self, key@) == Some(s@),
                None => spec_meta_text(*self, key@) is None,
            },
    {
        match self.get_meta(key) {
            Some(MetaValue::Text(s)) => Some(s),
            _ => None,
        }
    }

    /// The integer value stored under `key`, if any.
    pub fn meta_int(&self, key: &str) -> (r: Option<i64>)
        ensures
            r == spec_meta_int(*self, key@),
    {
        match self.get_meta(key) {
            Some(MetaValue::Int(v)) => Some(*v),
            _ => None,
        }
    }
}

/// A synchronous command request addressed to the daemon.
#[derive(Debug, Clone, Copy, PartialEq, Eq, Structural)]
pub enum DaemonCommand {
    Status,
    Stats,
}

} // verus!
