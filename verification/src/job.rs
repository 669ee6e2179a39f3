//! Jobs in general: their identity, their kind, and what every job offers.

use crate::text::same;
use vstd::prelude::*;

verus! {

/// `uuid::Uuid`: 128 bits that identify, carried through as they are.
#[verifier::external_type_specification]
#[verifier::external_body]
pub struct ExUuid(uuid::Uuid);

/// The sixteen bytes of a `uuid::Uuid`, first to last.
pub uninterp spec fn uuid_bytes(id: uuid::Uuid) -> Seq<u8>;

/// `uuid::Uuid::new_v4` draws at random; the contract claims the version and variant it sets.
pub assume_specification[ uuid::Uuid::new_v4 ]() -> (id: uuid::Uuid)
    ensures
        random_layout(uuid_bytes(id)),
;

/// Identity of one job.
#[derive(Debug, Clone, Copy, PartialEq, Eq, Hash)]
pub struct JobId(pub uuid::Uuid);

impl JobId {
    /// A fresh random identity: sixteen bytes drawn at random, but for version and variant.
    pub fn new() -> (id: Self)
        ensures
            random_layout(uuid_bytes(id.0)),
    {
        JobId(uuid::Uuid::new_v4())
    }
}

/// The bytes of a random identifier: sixteen, the upper half of the seventh
/// holding the version 4, the two highest bits of the ninth holding the
/// variant of RFC 4122, one and zero. All other bits are free.
pub open spec fn random_layout(bytes: Seq<u8>) -> bool {
    &&& bytes.len() == 16
    &&& 0x40 <= bytes[6] < 0x50
    &&& 0x80 <= bytes[8] < 0xc0
}

/// The bytes of the identifier that identifies nothing: sixteen zeros.
pub open spec fn nil_layout(bytes: Seq<u8>) -> bool {
    bytes == Seq::new(16, |i: int| 0u8)
}

/// `uuid::Uuid::nil` gives the identifier of all zeros, which is what the
/// contract claims.
pub assume_specification[ uuid::Uuid::nil ]() -> (id: uuid::Uuid)
    ensures
        nil_layout(uuid_bytes(id)),
;

impl From<JobId> for uuid::Uuid {
    fn from(value: JobId) -> (id: uuid::Uuid)
        ensures
            id == value.0,
    {
        value.0
    }
}

impl vstd::std_specs::convert::FromSpecImpl<JobId> for uuid::Uuid {
    open spec fn obeys_from_spec() -> bool {
        true
    }

    open spec fn from_spec(value: JobId) -> uuid::Uuid {
        value.0
    }
}

impl Default for JobId {
    fn default() -> (id: Self)
        ensures
            nil_layout(uuid_bytes(id.0)),
    {
        JobId(uuid::Uuid::nil())
    }
}

/// The stage of the sealing pipeline that a job performs.
#[derive(Debug, Clone, Copy, PartialEq, Eq, Structural)]
pub enum JobType {
    PC1,
    PC2,
    C1,
    C2,
    PC,
}

impl JobType {
    /// The display name of a kind.
    pub open spec fn name(self) -> Seq<char> {
        match self {
            JobType::PC1 => "PC1"@,
            JobType::PC2 => "PC2"@,
            JobType::C1 => "C1"@,
            JobType::C2 => "C2"@,
            JobType::PC => "PC"@,
        }
    }

    /// The number of a kind.
    pub open spec fn number(self) -> u8 {
        match self {
            JobType::PC1 => 1,
            JobType::PC2 => 2,
            JobType::C1 => 3,
            JobType::C2 => 4,
            JobType::PC => 5,
        }
    }

    /// The kind with the given number, if there is one.
    pub open spec fn of_number(n: u8) -> Option<JobType> {
        if n == 1 {
            Some(JobType::PC1)
        } else if n == 2 {
            Some(JobType::PC2)
        } else if n == 3 {
            Some(JobType::C1)
        } else if n == 4 {
            Some(JobType::C2)
        } else if n == 5 {
            Some(JobType::PC)
        } else {
            None
        }
    }

    /// The kind with the given display name, if there is one.
    pub open spec fn of_name(name: Seq<char>) -> Option<JobType> {
        if name == "PC1"@ {
            Some(JobType::PC1)
        } else if name == "PC2"@ {
            Some(JobType::PC2)
        } else if name == "C1"@ {
            Some(JobType::C1)
        } else if name == "C2"@ {
            Some(JobType::C2)
        } else if name == "PC"@ {
            Some(JobType::PC)
        } else {
            None
        }
    }

    /// The display name: "PC1", "PC2", "C1", "C2" or "PC".
    pub fn to_string(&self) -> (name: String)
        ensures
            name@ == self.name(),
    {
        match self {
            JobType::PC1 => "PC1".to_owned(),
            JobType::PC2 => "PC2".to_owned(),
            JobType::C1 => "C1".to_owned(),
            JobType::C2 => "C2".to_owned(),
            JobType::PC => "PC".to_owned(),
        }
    }

    /// The kind that a display name stands for.
    pub fn from_name(name: &str) -> (kind: Option<JobType>)
        ensures
            kind == JobType::of_name(name@),
    {
        if same(name, "PC1") {
            Some(JobType::PC1)
        } else if same(name, "PC2") {
            Some(JobType::PC2)
        } else if same(name, "C1") {
            Some(JobType::C1)
        } else if same(name, "C2") {
            Some(JobType::C2)
        } else if same(name, "PC") {
            Some(JobType::PC)
        } else {
            None
        }
    }

    /// The kind that a number stands for.
    pub fn from_u8(n: u8) -> (kind: Option<JobType>)
        ensures
            kind == JobType::of_number(n),
    {
        if n == 1 {
            Some(JobType::PC1)
        } else if n == 2 {
            Some(JobType::PC2)
        } else if n == 3 {
            Some(JobType::C1)
        } else if n == 4 {
            Some(JobType::C2)
        } else if n == 5 {
            Some(JobType::PC)
        } else {
            None
        }
    }
}

impl From<JobType> for u8 {
    fn from(value: JobType) -> (n: u8)
        ensures
            n == value.number(),
    {
        match value {
            JobType::PC1 => 1,
            JobType::PC2 => 2,
            JobType::C1 => 3,
            JobType::C2 => 4,
            JobType::PC => 5,
        }
    }
}

impl vstd::std_specs::convert::FromSpecImpl<JobType> for u8 {
    open spec fn obeys_from_spec() -> bool {
        true
    }

    open spec fn from_spec(value: JobType) -> u8 {
        value.number()
    }
}

/// A kind is found again from its number and from its display name, and no
/// two kinds share either.
pub proof fn lemma_job_type_round_trip(kind: JobType)
    ensures
        JobType::of_number(kind.number()) == Some(kind),
        JobType::of_name(kind.name()) == Some(kind),
        1 <= kind.number() <= 5,
{
    reveal_strlit("PC1");
    reveal_strlit("PC2");
    reveal_strlit("C1");
    reveal_strlit("C2");
    reveal_strlit("PC");
    assert("PC1"@.len() == 3 && "PC2"@.len() == 3);
    assert("C1"@.len() == 2 && "C2"@.len() == 2 && "PC"@.len() == 2);
    assert("PC2"@[2] != "PC1"@[2]);
    assert("C2"@[1] != "C1"@[1]);
    assert("PC"@[0] != "C1"@[0]);
    assert("PC"@[0] != "C2"@[0]);
}

/// A unit of work with a typed input and a typed output.
pub trait Job: Sized {
    type Input;

    type Output;

    /// The kind of every job of this type.
    spec fn kind() -> JobType;

    /// The input that a job carries.
    spec fn input(self) -> Self::Input;

    fn job_type() -> (kind: JobType)
        ensures
            kind == Self::kind(),
    ;

    /// Consumes the job and hands out its input.
    fn into_input(self) -> (input: Self::Input)
        ensures
            input == self.input(),
    ;
}

} // verus!
