//! Read-only listings of a backup's tracked files, ready for rendering.
use vstd::prelude::*;

use crate::errors::Error;
use crate::ledger::Paths;
use crate::paths::{expand_tilde_path, option_view, spec_expand_tilde};
use crate::store::assoc_keys;

verus! {

/// The tracked original paths of a backup, in insertion order. Fails with
/// `NotFound` when the ledger holds no entries.
pub fn get_backup_files(files: &Paths) -> (r: Result<Vec<String>, Error>)
    ensures
        match r {
            Ok(names) => files@.len() > 0 && names.deep_view() =~= assoc_keys(files@),
            Err(e) => e == Error::LedgerEmpty && files@.len() == 0,
        },
{
    if files.len() == 0 {
        return Err(Error::LedgerEmpty);
    }
    Ok(files.keys())
}

/// The listing of a backup's files: each tracked path in insertion order,
/// with a leading `~/` expanded against the home directory where one is
/// known; a `~/` key with no home stands for itself. Fails with `NotFound`
/// when the ledger holds no entries.
pub fn list_backup_files(files: &Paths, home: Option<&str>) -> (r: Result<Vec<String>, Error>)
    ensures
        match r {
            Ok(names) => {
                &&& files@.len() > 0
                &&& names.deep_view().len() == files@.len()
                &&& forall|j: int|
                    0 <= j < files@.len() ==> #[trigger] names.deep_view()[j] == (
                    match spec_expand_tilde(files@[j].0, option_view(home)) {
                        Some(e) => e,
                        None => files@[j].0,
                    })
            },
            Err(e) => e == Error::LedgerEmpty && files@.len() == 0,
        },
{
    let n = files.len();
    if n == 0 {
        return Err(Error::LedgerEmpty);
    }
    let mut out: Vec<String> = Vec::new();
    let mut i: usize = 0;
    while i < n
        invariant
            n == files@.len(),
            i <= n,
            out.deep_view().len() == i,
            forall|j: int|
                0 <= j < i ==> #[trigger] out.deep_view()[j] == (match spec_expand_tilde(
                    files@[j].0,
                    option_view(home),
                ) {
                    Some(e) => e,
                    None => files@[j].0,
                }),
        decreases n - i,
    {
        let entry = files.entry_at(i);
        let expanded = match expand_tilde_path(entry.0.as_str(), home) {
            Some(e) => e,
            None => entry.0.clone(),
        };
        let ghost ev = expanded@;
        let ghost pre = out.deep_view();
        out.push(expanded);
        proof {
            assert(out.deep_view() =~= pre.push(ev));
        }
        i = i + 1;
    }
    Ok(out)
}

} // verus!
