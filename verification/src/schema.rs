//! The names of the tables, columns and indexes of the store.

use vstd::prelude::*;

verus! {

/// The table of samples and its columns.
#[derive(Clone, Copy, Debug, PartialEq, Eq, Structural)]
pub enum Sample {
    Table,
    Uuid,
    Md5,
    Sha1,
    Sha256,
    Sha512,
}

impl Sample {
    /// The name of the table or column in the store.
    pub open spec fn name_text(self) -> Seq<char> {
        match self {
            Sample::Table => "sample"@,
            Sample::Uuid => "uuid"@,
            Sample::Md5 => "md5"@,
            Sample::Sha1 => "sha1"@,
            Sample::Sha256 => "sha256"@,
            Sample::Sha512 => "sha512"@,
        }
    }

    pub fn name(&self) -> (r: &'static str)
        ensures
            r@ == self.name_text(),
    {
        match self {
            Sample::Table => "sample",
            Sample::Uuid => "uuid",
            Sample::Md5 => "md5",
            Sample::Sha1 => "sha1",
            Sample::Sha256 => "sha256",
            Sample::Sha512 => "sha512",
        }
    }

    /// Whether the column holds each value once: so for the identifier
    /// and each of the four digests.
    pub fn is_unique(&self) -> (r: bool)
        ensures
            r == (*self != Sample::Table),
    {
        match self {
            Sample::Table => false,
            _ => true,
        }
    }
}

/// The table of analyses and its columns.
#[derive(Clone, Copy, Debug, PartialEq, Eq, Structural)]
pub enum Analysis {
    Table,
    Uuid,
    SandboxName,
    SampleUuid,
    SubmissionName,
    Date,
    SrcIp,
    Status,
}

impl Analysis {
    /// The name of the table or column in the store.
    pub open spec fn name_text(self) -> Seq<char> {
        match self {
            Analysis::Table => "analysis"@,
            Analysis::Uuid => "uuid"@,
            Analysis::SandboxName => "sandbox_name"@,
            Analysis::SampleUuid => "sample_uuid"@,
            Analysis::SubmissionName => "submission_name"@,
            Analysis::Date => "date"@,
            Analysis::SrcIp => "src_ip"@,
            Analysis::Status => "status"@,
        }
    }

    pub fn name(&self) -> (r: &'static str)
        ensures
            r@ == self.name_text(),
    {
        match self {
            Analysis::Table => "analysis",
            Analysis::Uuid => "uuid",
            Analysis::SandboxName => "sandbox_name",
            Analysis::SampleUuid => "sample_uuid",
            Analysis::SubmissionName => "submission_name",
            Analysis::Date => "date",
            Analysis::SrcIp => "src_ip",
            Analysis::Status => "status",
        }
    }

    /// Whether the column may hold no value: so for the submission name
    /// alone.
    pub fn is_nullable(&self) -> (r: bool)
        ensures
            r == (*self == Analysis::SubmissionName),
    {
        match self {
            Analysis::SubmissionName => true,
            _ => false,
        }
    }

    /// The name of the index on the submission name.
    pub fn submission_name_idx() -> (r: &'static str)
        ensures
            r@ == "idx_submission_name"@,
    {
        "idx_submission_name"
    }

    /// The name of the index on the identifier of the sample.
    pub fn sample_uuid_idx() -> (r: &'static str)
        ensures
            r@ == "idx_sample_uuid"@,
    {
        "idx_sample_uuid"
    }
}

} // verus!
