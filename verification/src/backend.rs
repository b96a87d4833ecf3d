//! Backend identity and the capability gate.
//!
//! The migration engine consults the active backend before emitting
//! enumerated-type or foreign-key statements: native enumerated types exist
//! only on Postgres, and Sqlite never receives enforced foreign-key
//! constraints (relationship metadata is kept for documentation only there,
//! and cascade behaviour must be emulated by the application layer).

use vstd::prelude::*;

verus! {

/// Identity of the storage backend a migration runs against.
#[derive(Clone, Copy, PartialEq, Eq, Structural, Debug)]
pub enum DbBackend {
    Postgres,
    Mysql,
    Sqlite,
}

impl DbBackend {
    /// Whether the backend has native enumerated types. Backends without
    /// them store enumeration values in plain text columns instead.
    pub open spec fn spec_supports_enum_types(self) -> bool {
        self is Postgres
    }

    /// Whether the backend enforces foreign-key constraints created by DDL.
    pub open spec fn spec_supports_foreign_keys(self) -> bool {
        !(self is Sqlite)
    }

    #[verifier::when_used_as_spec(spec_supports_enum_types)]
    pub fn supports_enum_types(self) -> (r: bool)
        ensures
            r == self.spec_supports_enum_types(),
    {
        matches!(self, DbBackend::Postgres)
    }

    #[verifier::when_used_as_spec(spec_supports_foreign_keys)]
    pub fn supports_foreign_keys(self) -> (r: bool)
        ensures
            r == self.spec_supports_foreign_keys(),
    {
        !matches!(self, DbBackend::Sqlite)
    }
}

} // verus!
