//! Nested sub-configurations: the attestation signer and the checkpoint
//! syncer. Each is validated by a parser of its own, against paths below
//! the prefix it is handed, and reports its failures into an aggregator of
//! its own, which the caller merges.

use vstd::prelude::*;

use crate::path::ConfigPath;
use crate::report::EntryView;
use crate::report::ErrorAggregator;
use crate::report::ErrorCause;

verus! {

/// The raw, unvalidated signer configuration: a key that may be absent.
#[derive(Debug, PartialEq, Eq)]
pub struct RawSignerConf {
    pub key: Option<String>,
}

/// The validated signer configuration: present and typed by construction.
#[derive(Debug, PartialEq, Eq)]
pub struct SignerConf {
    pub key: String,
}

impl View for RawSignerConf {
    type V = Option<Seq<char>>;

    open spec fn view(&self) -> Option<Seq<char>> {
        self.key.deep_view()
    }
}

impl DeepView for RawSignerConf {
    type V = Option<Seq<char>>;

    open spec fn deep_view(&self) -> Option<Seq<char>> {
        self.view()
    }
}

impl View for SignerConf {
    type V = Seq<char>;

    open spec fn view(&self) -> Seq<char> {
        self.key@
    }
}

impl DeepView for SignerConf {
    type V = Seq<char>;

    open spec fn deep_view(&self) -> Seq<char> {
        self.view()
    }
}

/// The entries a signer parse reports, against the prefix it was handed.
pub open spec fn signer_entries(raw: Option<Seq<char>>, prefix: Seq<Seq<char>>) -> Seq<EntryView> {
    match raw {
        None => seq![
            EntryView { path: prefix.push("key"@), cause: ErrorCause::MissingField },
        ],
        Some(_) => Seq::empty(),
    }
}

impl RawSignerConf {
    /// Validates this raw signer configuration. `cwp` is the path of the
    /// signer field itself; failures are reported against paths below it.
    pub fn parse_config(self, cwp: &ConfigPath) -> (r: Result<SignerConf, ErrorAggregator>)
        ensures
            match r {
                Ok(conf) => self@ == Some(conf@) && signer_entries(self@, cwp@) == Seq::<
                    EntryView,
                >::empty(),
                Err(sub) => self@ is None && sub@ == signer_entries(self@, cwp@),
            },
    {
        match self.key {
            Some(key) => Ok(SignerConf { key }),
            None => {
                let mut sub = ErrorAggregator::new();
                sub.record(cwp.join("key"), ErrorCause::MissingField);
                proof {
                    assert(sub@ =~= signer_entries(self@, cwp@));
                }
                Err(sub)
            },
        }
    }
}

/// The raw, unvalidated checkpoint-syncer configuration: a storage location
/// that may be absent.
#[derive(Debug, PartialEq, Eq)]
pub struct RawCheckpointSyncerConf {
    pub location: Option<String>,
}

/// The validated checkpoint-syncer configuration.
#[derive(Debug, PartialEq, Eq)]
pub struct CheckpointSyncerConf {
    pub location: String,
}

impl View for RawCheckpointSyncerConf {
    type V = Option<Seq<char>>;

    open spec fn view(&self) -> Option<Seq<char>> {
        self.location.deep_view()
    }
}

impl DeepView for RawCheckpointSyncerConf {
    type V = Option<Seq<char>>;

    open spec fn deep_view(&self) -> Option<Seq<char>> {
        self.view()
    }
}

impl View for CheckpointSyncerConf {
    type V = Seq<char>;

    open spec fn view(&self) -> Seq<char> {
        self.location@
    }
}

impl DeepView for CheckpointSyncerConf {
    type V = Seq<char>;

    open spec fn deep_view(&self) -> Seq<char> {
        self.view()
    }
}

/// The entries a syncer parse reports, against the prefix it was handed.
pub open spec fn syncer_entries(raw: Option<Seq<char>>, prefix: Seq<Seq<char>>) -> Seq<EntryView> {
    match raw {
        None => seq![
            EntryView { path: prefix.push("location"@), cause: ErrorCause::MissingField },
        ],
        Some(_) => Seq::empty(),
    }
}

impl RawCheckpointSyncerConf {
    /// Validates this raw syncer configuration. `cwp` is the path of the
    /// syncer field itself; failures are reported against paths below it.
    pub fn parse_config(self, cwp: &ConfigPath) -> (r: Result<CheckpointSyncerConf, ErrorAggregator>)
        ensures
            match r {
                Ok(conf) => self@ == Some(conf@) && syncer_entries(self@, cwp@) == Seq::<
                    EntryView,
                >::empty(),
                Err(sub) => self@ is None && sub@ == syncer_entries(self@, cwp@),
            },
    {
        match self.location {
            Some(location) => Ok(CheckpointSyncerConf { location }),
            None => {
                let mut sub = ErrorAggregator::new();
                sub.record(cwp.join("location"), ErrorCause::MissingField);
                proof {
                    assert(sub@ =~= syncer_entries(self@, cwp@));
                }
                Err(sub)
            },
        }
    }
}

} // verus!
