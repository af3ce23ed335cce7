//! Which store keeps the durable state.
use vstd::prelude::*;
use vstd::string::*;

use crate::text::{text_eq, trim_text, trimmed};

verus! {

/// The stores that there are.
#[derive(Clone, Copy, Debug, PartialEq, Eq, Structural)]
pub enum RuntimeDurableStoreKind {
    InMemory,
    Postgres,
}

impl RuntimeDurableStoreKind {
    /// The name of a store.
    pub open spec fn name(self) -> Seq<char> {
        match self {
            RuntimeDurableStoreKind::InMemory => "in_memory"@,
            RuntimeDurableStoreKind::Postgres => "postgres"@,
        }
    }

    /// The name of a store.
    pub fn kind(self) -> (r: &'static str)
        ensures
            r@ == self.name(),
    {
        match self {
            RuntimeDurableStoreKind::InMemory => "in_memory",
            RuntimeDurableStoreKind::Postgres => "postgres",
        }
    }
}

/// The address of the database: what is given without the space around it, unless nothing is left.
pub open spec fn database_address(url: Option<Seq<char>>) -> Option<Seq<char>> {
    match url {
        Some(text) => if trimmed(text).len() == 0 {
            None
        } else {
            Some(trimmed(text))
        },
        None => None,
    }
}

/// The store for an address, and the address of the database where it is one. Without an address the
/// state is kept in memory.
pub fn store_for_database_url(database_url: Option<&str>) -> (r: (
    RuntimeDurableStoreKind,
    Option<String>,
))
    ensures
        ({
            let given = match database_url {
                Some(text) => Some(text@),
                None => None,
            };
            match database_address(given) {
                None => r.0 is InMemory && r.1 is None,
                Some(address) => r.0 is Postgres && (r.1 matches Some(text) && text@ == address),
            }
        }),
{
    match database_url {
        Some(text) => {
            let address: String = trim_text(text);
            proof {
                reveal_strlit("");
                if address@.len() == 0 {
                    assert(address@ =~= ""@);
                }
            }
            if text_eq(address.as_str(), "") {
                (RuntimeDurableStoreKind::InMemory, None)
            } else {
                (RuntimeDurableStoreKind::Postgres, Some(address))
            }
        },
        None => (RuntimeDurableStoreKind::InMemory, None),
    }
}

} // verus!
