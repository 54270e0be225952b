//! The rows of the persistent store.

use crate::hasher::Metadata;
use crate::text::clone_opt;
use crate::text::opt_text;
use crate::text::str_eq;
use crate::time::AnalysisDate;
use vstd::prelude::*;
use vstd::string::*;

verus! {

/// A row of the table of samples.
#[derive(Debug, PartialEq, Eq)]
pub struct SampleRow {
    pub uuid: u128,
    pub md5: String,
    pub sha1: String,
    pub sha256: String,
    pub sha512: String,
}

/// The values of a sample row.
pub struct SampleView {
    pub uuid: u128,
    pub md5: Seq<char>,
    pub sha1: Seq<char>,
    pub sha256: Seq<char>,
    pub sha512: Seq<char>,
}

impl View for SampleRow {
    type V = SampleView;

    open spec fn view(&self) -> SampleView {
        SampleView {
            uuid: self.uuid,
            md5: self.md5@,
            sha1: self.sha1@,
            sha256: self.sha256@,
            sha512: self.sha512@,
        }
    }
}

impl Clone for SampleRow {
    fn clone(&self) -> (r: SampleRow)
        ensures
            r == *self,
    {
        SampleRow {
            uuid: self.uuid,
            md5: self.md5.clone(),
            sha1: self.sha1.clone(),
            sha256: self.sha256.clone(),
            sha512: self.sha512.clone(),
        }
    }
}

impl SampleRow {
    /// Whether one of the four digests of the sample is the given text:
    /// a search by hash finds the sample by any of them.
    pub fn has_digest(&self, hash: &str) -> (r: bool)
        ensures
            r == (self.md5@ == hash@ || self.sha1@ == hash@ || self.sha256@ == hash@
                || self.sha512@ == hash@),
    {
        str_eq(self.md5.as_str(), hash) || str_eq(self.sha1.as_str(), hash) || str_eq(
            self.sha256.as_str(),
            hash,
        ) || str_eq(self.sha512.as_str(), hash)
    }

    /// The row of a sample: its identifier and the four digests of its
    /// metadata.
    pub fn of_metadata(uuid: u128, metadata: &Metadata) -> (r: SampleRow)
        ensures
            r@ == (SampleView {
                uuid,
                md5: metadata.md5@,
                sha1: metadata.sha1@,
                sha256: metadata.sha256@,
                sha512: metadata.sha512@,
            }),
    {
        SampleRow {
            uuid,
            md5: metadata.md5.clone(),
            sha1: metadata.sha1.clone(),
            sha256: metadata.sha256.clone(),
            sha512: metadata.sha512.clone(),
        }
    }
}

/// A row of the table of analyses. The status is held as its text.
#[derive(Debug, PartialEq, Eq)]
pub struct AnalysisRow {
    pub uuid: u128,
    pub sample_uuid: u128,
    pub sandbox_name: String,
    pub submission_name: Option<String>,
    pub date: AnalysisDate,
    pub src_ip: String,
    pub status: String,
}

/// The values of an analysis row.
pub struct AnalysisView {
    pub uuid: u128,
    pub sample_uuid: u128,
    pub sandbox_name: Seq<char>,
    pub submission_name: Option<Seq<char>>,
    pub date: AnalysisDate,
    pub src_ip: Seq<char>,
    pub status: Seq<char>,
}

impl View for AnalysisRow {
    type V = AnalysisView;

    open spec fn view(&self) -> AnalysisView {
        AnalysisView {
            uuid: self.uuid,
            sample_uuid: self.sample_uuid,
            sandbox_name: self.sandbox_name@,
            submission_name: opt_text(self.submission_name),
            date: self.date,
            src_ip: self.src_ip@,
            status: self.status@,
        }
    }
}

impl Clone for AnalysisRow {
    fn clone(&self) -> (r: AnalysisRow)
        ensures
            r == *self,
    {
        AnalysisRow {
            uuid: self.uuid,
            sample_uuid: self.sample_uuid,
            sandbox_name: self.sandbox_name.clone(),
            submission_name: clone_opt(&self.submission_name),
            date: self.date,
            src_ip: self.src_ip.clone(),
            status: self.status.clone(),
        }
    }
}

} // verus!
