//! The resource shapes the remote service exposes: customers, projects,
//! services, time entries, and the two small wire enumerations.

use vstd::prelude::*;

verus! {

/// Whether a time entry can be billed. On the wire this is a small
/// integer; unknown integers are rejected when decoding.
#[derive(Clone, Copy, Debug, PartialEq, Eq, Structural)]
pub enum Billable {
    NotBillable,
    Billable,
    AlreadyBilled,
}

impl Billable {
    /// The integer this variant has on the wire.
    pub open spec fn code_spec(self) -> u8 {
        match self {
            Billable::NotBillable => 0,
            Billable::Billable => 1,
            Billable::AlreadyBilled => 2,
        }
    }

    /// The variant a wire integer decodes to, if any.
    pub open spec fn from_code_spec(c: u8) -> Option<Billable> {
        if c == 0 {
            Some(Billable::NotBillable)
        } else if c == 1 {
            Some(Billable::Billable)
        } else if c == 2 {
            Some(Billable::AlreadyBilled)
        } else {
            None
        }
    }

    pub fn code(&self) -> (r: u8)
        ensures
            r == self.code_spec(),
    {
        match self {
            Billable::NotBillable => 0,
            Billable::Billable => 1,
            Billable::AlreadyBilled => 2,
        }
    }

    /// Decodes a wire integer; every integer above two is rejected.
    pub fn from_code(c: u8) -> (r: Option<Billable>)
        ensures
            r == Billable::from_code_spec(c),
    {
        if c == 0 {
            Some(Billable::NotBillable)
        } else if c == 1 {
            Some(Billable::Billable)
        } else if c == 2 {
            Some(Billable::AlreadyBilled)
        } else {
            None
        }
    }

    /// The human-readable name of this variant.
    pub open spec fn label_spec(self) -> Seq<char> {
        match self {
            Billable::NotBillable => "not billable"@,
            Billable::Billable => "billable"@,
            Billable::AlreadyBilled => "already billed"@,
        }
    }

    pub fn label(&self) -> (r: &'static str)
        ensures
            r@ == self.label_spec(),
    {
        match self {
            Billable::NotBillable => "not billable",
            Billable::Billable => "billable",
            Billable::AlreadyBilled => "already billed",
        }
    }
}

/// Round trip between a variant and its wire integer.
pub proof fn lemma_billable_code_roundtrip(b: Billable)
    ensures
        Billable::from_code_spec(b.code_spec()) == Some(b),
{
}

/// The kind of a time entry. On the wire this is a small integer;
/// unknown integers are rejected when decoding.
#[derive(Clone, Copy, Debug, PartialEq, Eq, Structural)]
pub enum EntryType {
    TimeEntry,
    LumpSumValue,
    LumpSumService,
}

impl EntryType {
    /// The integer this variant has on the wire.
    pub open spec fn code_spec(self) -> u8 {
        match self {
            EntryType::TimeEntry => 1,
            EntryType::LumpSumValue => 2,
            EntryType::LumpSumService => 3,
        }
    }

    /// The variant a wire integer decodes to, if any.
    pub open spec fn from_code_spec(c: u8) -> Option<EntryType> {
        if c == 1 {
            Some(EntryType::TimeEntry)
        } else if c == 2 {
            Some(EntryType::LumpSumValue)
        } else if c == 3 {
            Some(EntryType::LumpSumService)
        } else {
            None
        }
    }

    pub fn code(&self) -> (r: u8)
        ensures
            r == self.code_spec(),
    {
        match self {
            EntryType::TimeEntry => 1,
            EntryType::LumpSumValue => 2,
            EntryType::LumpSumService => 3,
        }
    }

    /// Decodes a wire integer; zero and every integer above three are rejected.
    pub fn from_code(c: u8) -> (r: Option<EntryType>)
        ensures
            r == EntryType::from_code_spec(c),
    {
        if c == 1 {
            Some(EntryType::TimeEntry)
        } else if c == 2 {
            Some(EntryType::LumpSumValue)
        } else if c == 3 {
            Some(EntryType::LumpSumService)
        } else {
            None
        }
    }

    /// The human-readable name of this variant.
    pub open spec fn label_spec(self) -> Seq<char> {
        match self {
            EntryType::TimeEntry => "time entry"@,
            EntryType::LumpSumValue => "lump sum value"@,
            EntryType::LumpSumService => "lump sum service"@,
        }
    }

    pub fn label(&self) -> (r: &'static str)
        ensures
            r@ == self.label_spec(),
    {
        match self {
            EntryType::TimeEntry => "time entry",
            EntryType::LumpSumValue => "lump sum value",
            EntryType::LumpSumService => "lump sum service",
        }
    }
}

/// Round trip between a variant and its wire integer.
pub proof fn lemma_entry_type_code_roundtrip(t: EntryType)
    ensures
        EntryType::from_code_spec(t.code_spec()) == Some(t),
{
}

/// A customer record; identity is the id, the name is what users type.
#[derive(Clone, Debug, PartialEq, Eq)]
pub struct Customer {
    pub id: u32,
    pub name: String,
}

/// A project record; belongs to exactly one customer by foreign key.
#[derive(Clone, Debug, PartialEq, Eq)]
pub struct Project {
    pub id: u32,
    pub name: String,
    pub customers_id: u32,
}

/// A service record.
#[derive(Clone, Debug, PartialEq, Eq)]
pub struct Service {
    pub id: u32,
    pub name: String,
    pub active: bool,
    pub note: Option<String>,
}

/// A running or just-stopped interval. Both timestamps are kept as the
/// strings the service sent; they are parsed only when a report is built.
#[derive(Clone, Debug, PartialEq, Eq)]
pub struct TimeEntry {
    pub id: u32,
    pub customers_id: u32,
    pub projects_id: Option<u32>,
    pub users_id: u32,
    pub time_insert: String,
    pub billable: Billable,
    pub time_since: String,
    pub text: Option<String>,
    pub entry_type: EntryType,
    pub services_id: Option<u32>,
}

/// The stopwatch state the service reports: the running entry, if any.
#[derive(Clone, Debug, PartialEq, Eq)]
pub struct StatusResponse {
    pub running: Option<TimeEntry>,
}

/// What the service reports after a stop request.
#[derive(Clone, Debug, PartialEq, Eq)]
pub struct StopResponse {
    pub stopped: Option<TimeEntry>,
    pub running: Option<TimeEntry>,
}

/// The stored credentials: two opaque secret strings.
#[derive(Clone, Debug, PartialEq, Eq)]
pub struct Config {
    pub api_user: String,
    pub api_key: String,
}

} // verus!
