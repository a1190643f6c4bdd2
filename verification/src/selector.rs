use vstd::prelude::*;
use crate::strutil::{eq_ignore_ascii_case, lower_seq};

verus! {

/// The two supported backend kinds.
#[derive(Clone, Copy, Debug, PartialEq, Eq, Structural)]
pub enum DatabaseType {
    MySQL,
    PostgreSQL,
}

/// True when the configured backend-kind string selects the PostgreSQL
/// backend: an ASCII case-insensitive match of one of its two synonyms.
pub open spec fn spec_selects_postgres(s: Seq<char>) -> bool {
    lower_seq(s) == "postgres"@ || lower_seq(s) == "postgresql"@
}

pub open spec fn spec_database_type(s: Seq<char>) -> DatabaseType {
    if spec_selects_postgres(s) {
        DatabaseType::PostgreSQL
    } else {
        DatabaseType::MySQL
    }
}

impl DatabaseType {
    /// Case-insensitive backend selection; any string outside the
    /// PostgreSQL synonym set yields the MySQL backend as the default.
    pub fn from_string(s: &str) -> (t: Self)
        ensures
            t == spec_database_type(s@),
    {
        let r = eq_ignore_ascii_case(s, "postgres") || eq_ignore_ascii_case(s, "postgresql");
        proof {
            reveal_strlit("postgres");
            reveal_strlit("postgresql");
            assert(lower_seq("postgres"@) =~= "postgres"@);
            assert(lower_seq("postgresql"@) =~= "postgresql"@);
        }
        if r {
            DatabaseType::PostgreSQL
        } else {
            DatabaseType::MySQL
        }
    }
}

} // verus!
