//! What the network knows of a mod: the versions that clients report, how
//! often each was seen, and who contributed to its record.

use crate::text::{decimal_i32, decimal_text_int};
use crate::{ScoreKey, ScoreKeyView};
use vstd::prelude::*;
use vstd::string::StringExecFns;

pub mod durable_mod;

pub use durable_mod::{
    Contribution, ContributionView, ModCommand, ModCommandView, ModRoutes, ModRoutesView,
};

verus! {

/// A version given by its parts.
#[derive(Clone, Debug, PartialEq, Eq)]
pub struct VersionObj {
    pub major: i32,
    pub minor: i32,
    pub patch: String,
}

/// Mathematical value of a [`VersionObj`].
pub struct VersionObjView {
    pub major: int,
    pub minor: int,
    pub patch: Seq<char>,
}

impl View for VersionObj {
    type V = VersionObjView;

    open spec fn view(&self) -> VersionObjView {
        VersionObjView { major: self.major as int, minor: self.minor as int, patch: self.patch@ }
    }
}

impl VersionObjView {
    /// The version as text: major and minor number with a dot between them,
    /// followed by a dot and the patch where there is one.
    pub open spec fn text(self) -> Seq<char> {
        let numbers = decimal_text_int(self.major) + "."@ + decimal_text_int(self.minor);
        if self.patch.len() > 0 {
            numbers + "."@ + self.patch
        } else {
            numbers
        }
    }
}

impl VersionObj {
    /// The version as text.
    pub fn to_text(&self) -> (text: String)
        ensures
            text@ == self@.text(),
    {
        let mut text = decimal_i32(self.major);
        text.append(".");
        text.append(decimal_i32(self.minor).as_str());
        if !self.patch.as_str().is_empty() {
            text.append(".");
            text.append(self.patch.as_str());
        }
        text
    }
}

/// The version of a mod, as its author wrote it: one text, or its parts.
#[derive(Clone, Debug, PartialEq, Eq)]
pub enum Version {
    String(String),
    Object(VersionObj),
}

/// Mathematical value of a [`Version`].
pub enum VersionView {
    String(Seq<char>),
    Object(VersionObjView),
}

impl View for Version {
    type V = VersionView;

    open spec fn view(&self) -> VersionView {
        match self {
            Version::String(text) => VersionView::String(text@),
            Version::Object(parts) => VersionView::Object(parts@),
        }
    }
}

impl VersionView {
    /// The version as text.
    pub open spec fn text(self) -> Seq<char> {
        match self {
            VersionView::String(text) => text,
            VersionView::Object(parts) => parts.text(),
        }
    }
}

impl Version {
    /// The version as text.
    pub fn to_text(&self) -> (text: String)
        ensures
            text@ == self@.text(),
    {
        match self {
            Version::String(text) => text.clone(),
            Version::Object(parts) => parts.to_text(),
        }
    }
}

/// A mod that a client has installed.
#[derive(Clone, Debug, PartialEq, Eq)]
pub struct Mod {
    pub id: String,
    pub version: Version,
}

/// A point in time: seconds since the Unix epoch, and the nanoseconds into that second.
#[derive(Clone, Copy, Debug, PartialEq, Eq, Structural)]
pub struct Timestamp {
    pub seconds: i64,
    pub nanos: u32,
}

/// What the network has gathered about one version of a mod.
#[derive(Clone, Debug, PartialEq, Eq)]
pub struct Metadata {
    /// How often clients reported the version.
    pub total: u32,
    /// Whether the version is the one that its author released.
    pub canonical: bool,
    /// When the version was reported first.
    pub first_seen: Timestamp,
    /// Who contributed to the record, and with what; each user occurs at most once.
    pub contributors: Vec<(String, ScoreKey)>,
}

/// Mathematical value of a [`Metadata`].
pub struct MetadataView {
    pub total: nat,
    pub canonical: bool,
    pub first_seen: Timestamp,
    pub contributors: Seq<(Seq<char>, ScoreKeyView)>,
}

impl View for Metadata {
    type V = MetadataView;

    open spec fn view(&self) -> MetadataView {
        MetadataView {
            total: self.total as nat,
            canonical: self.canonical,
            first_seen: self.first_seen,
            contributors: Seq::new(
                self.contributors@.len(),
                |i: int| (self.contributors@[i].0@, self.contributors@[i].1@),
            ),
        }
    }
}

impl MetadataView {
    /// Whether the contributors are a map from users: no user occurs twice.
    pub open spec fn contributors_distinct(self) -> bool {
        forall|i: int, j: int|
            0 <= i < j < self.contributors.len() ==> self.contributors[i].0
                != self.contributors[j].0
    }

    /// The record of a version that was just reported for the first time.
    pub open spec fn first(now: Timestamp) -> MetadataView {
        MetadataView { total: 1, canonical: false, first_seen: now, contributors: Seq::empty() }
    }

    /// The record after one more report of the version.
    pub open spec fn seen_again(self) -> MetadataView {
        MetadataView { total: self.total + 1, ..self }
    }
}

impl Metadata {
    /// The record of a version that is reported for the first time at `now`.
    pub fn first(now: Timestamp) -> (record: Metadata)
        ensures
            record@ == MetadataView::first(now),
            record@.contributors_distinct(),
    {
        let record = Metadata {
            total: 1,
            canonical: false,
            first_seen: now,
            contributors: Vec::new(),
        };
        assert(record@.contributors =~= Seq::empty());
        record
    }

    /// The record of a version after a report at `now`: one more report
    /// where the version was known, and a first record where it was not.
    /// The contributors stay as they were, each user once.
    pub fn sighted(known: Option<Metadata>, now: Timestamp) -> (record: Metadata)
        requires
            known matches Some(seen) ==> seen.total < u32::MAX,
        ensures
            record@ == match known {
                Some(seen) => seen@.seen_again(),
                None => MetadataView::first(now),
            },
            record@.contributors_distinct() == match known {
                Some(seen) => seen@.contributors_distinct(),
                None => true,
            },
    {
        match known {
            Some(seen) => {
                let ghost before = seen@;
                let record = Metadata {
                    total: seen.total + 1,
                    canonical: seen.canonical,
                    first_seen: seen.first_seen,
                    contributors: seen.contributors,
                };
                assert(record@.contributors =~= before.contributors);
                record
            },
            None => Metadata::first(now),
        }
    }
}

} // verus!
