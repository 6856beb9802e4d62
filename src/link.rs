use vstd::prelude::*;

verus! {

/// The two WASI revisions wired into every module's import table.
#[derive(Clone, Copy, Debug, PartialEq, Eq, Structural)]
pub enum Abi {
    /// `wasi_snapshot_preview1`, the current revision.
    Snapshot,
    /// `wasi_unstable`, the legacy revision.
    Unstable,
}

/// Why an import of a module could not be resolved.
#[derive(Clone, Debug)]
pub enum LinkError {
    /// The import's namespace is neither WASI revision.
    UnknownNamespace(String),
    /// The namespace is known but does not export the symbol: (namespace, symbol).
    MissingSymbol(String, String),
}

/// The WASI revision an import namespace names, if any.
pub open spec fn namespace_abi(namespace: Seq<char>) -> Option<Abi> {
    if namespace == "wasi_snapshot_preview1"@ {
        Some(Abi::Snapshot)
    } else if namespace == "wasi_unstable"@ {
        Some(Abi::Unstable)
    } else {
        None
    }
}

/// Chooses the capability table that resolves an import from its namespace:
/// `wasi_snapshot_preview1` or `wasi_unstable`; any other namespace is a
/// link error.
pub fn import_abi(namespace: &str) -> (r: Result<Abi, LinkError>)
    ensures
        match (r, namespace_abi(namespace@)) {
            (Ok(a), Some(b)) => a == b,
            (Err(LinkError::UnknownNamespace(n)), None) => n@ == namespace@,
            _ => false,
        },
{
    let given = namespace.to_owned();
    if given == String::from_str("wasi_snapshot_preview1") {
        Ok(Abi::Snapshot)
    } else if given == String::from_str("wasi_unstable") {
        Ok(Abi::Unstable)
    } else {
        Err(LinkError::UnknownNamespace(given))
    }
}

/// Resolves one import. `in_snapshot` and `in_unstable` tell whether the
/// capability table of each revision exports `symbol`; only the table of the
/// revision that `namespace` names is consulted.
pub fn resolve_import(namespace: &str, symbol: &str, in_snapshot: bool, in_unstable: bool) -> (r:
    Result<Abi, LinkError>)
    ensures
        match (r, namespace_abi(namespace@)) {
            (Ok(a), Some(b)) => a == b && (a == Abi::Snapshot ==> in_snapshot) && (a == Abi::Unstable
                ==> in_unstable),
            (Err(LinkError::UnknownNamespace(n)), None) => n@ == namespace@,
            (Err(LinkError::MissingSymbol(n, s)), Some(b)) => n@ == namespace@ && s@ == symbol@
                && (b == Abi::Snapshot ==> !in_snapshot) && (b == Abi::Unstable ==> !in_unstable),
            _ => false,
        },
{
    match import_abi(namespace) {
        Ok(abi) => {
            let found = match abi {
                Abi::Snapshot => in_snapshot,
                Abi::Unstable => in_unstable,
            };
            if found {
                Ok(abi)
            } else {
                Err(LinkError::MissingSymbol(namespace.to_owned(), symbol.to_owned()))
            }
        },
        Err(e) => Err(e),
    }
}

} // verus!
