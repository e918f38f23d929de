//! The backup registry: an insertion-ordered map from backup name to backup
//! directory. Names are unique, and no directory is registered under two
//! names. A registry entry may be removed only while its ledger is empty.
use vstd::prelude::*;

use crate::errors::Error;
use crate::ledger::Paths;
use crate::store::{
    assoc_has, assoc_index, assoc_keys, keys_unique, lemma_assoc_index_unique,
    lemma_unique_after_push, lemma_unique_after_remove, values_unique, Entry,
};
use crate::text::str_eq;

verus! {

/// The persisted registry of backups: name -> directory, in insertion order.
#[derive(Debug)]
pub struct Config {
    backups: Vec<(String, String)>,
}

impl View for Config {
    type V = Seq<Entry>;

    closed spec fn view(&self) -> Seq<Entry> {
        self.backups.deep_view()
    }
}

/// Whether some entry carries directory `d` as its value.
pub open spec fn has_directory(s: Seq<Entry>, d: Seq<char>) -> bool {
    exists|i: int| 0 <= i < s.len() && s[i].1 == d
}

impl Config {
    /// Well-formed: names are unique and directories are unique.
    pub open spec fn wf(&self) -> bool {
        keys_unique(self@) && values_unique(self@)
    }

    /// An empty registry.
    pub fn new() -> (r: Config)
        ensures
            r.wf(),
            r@ =~= Seq::<Entry>::empty(),
    {
        Config { backups: Vec::new() }
    }

    /// The number of registered backups.
    pub fn len(&self) -> (r: usize)
        ensures
            r == self@.len(),
    {
        self.backups.len()
    }

    /// The index of the entry named `name`.
    fn find_name(&self, name: &str) -> (r: Option<usize>)
        ensures
            match r {
                Some(i) => i < self@.len() && self@[i as int].0 == name@,
                None => !assoc_has(self@, name@),
            },
    {
        let n = self.backups.len();
        let mut i: usize = 0;
        while i < n
            invariant
                n == self@.len(),
                n == self.backups@.len(),
                i <= n,
                forall|j: int| 0 <= j < i ==> self@[j].0 != name@,
            decreases n - i,
        {
            if str_eq(self.backups[i].0.as_str(), name) {
                proof {
                    assert(self@[i as int].0 == name@);
                }
                return Some(i);
            }
            proof {
                assert(self@[i as int].0 != name@);
            }
            i = i + 1;
        }
        None
    }

    /// Whether some entry carries directory `dir`.
    fn has_dir(&self, dir: &str) -> (r: bool)
        ensures
            r == has_directory(self@, dir@),
    {
        let n = self.backups.len();
        let mut i: usize = 0;
        while i < n
            invariant
                n == self@.len(),
                n == self.backups@.len(),
                i <= n,
                forall|j: int| 0 <= j < i ==> self@[j].1 != dir@,
            decreases n - i,
        {
            if str_eq(self.backups[i].1.as_str(), dir) {
                proof {
                    assert(self@[i as int].1 == dir@);
                }
                return true;
            }
            proof {
                assert(self@[i as int].1 != dir@);
            }
            i = i + 1;
        }
        false
    }

    /// Registers `backup_name -> path`. Fails with `AlreadyExists` when the
    /// name is taken or the directory is registered under another name; the
    /// registry is unchanged then.
    pub fn update_config(&mut self, backup_name: &str, path: &str) -> (r: Result<(), Error>)
        requires
            old(self).wf(),
        ensures
            final(self).wf(),
            match r {
                Ok(u) => {
                    &&& !assoc_has(old(self)@, backup_name@)
                    &&& !has_directory(old(self)@, path@)
                    &&& final(self)@ =~= old(self)@.push((backup_name@, path@))
                },
                Err(e) => final(self)@ =~= old(self)@ && ((e == Error::NameAlreadyRegistered
                    && assoc_has(old(self)@, backup_name@)) || (e
                    == Error::DirectoryAlreadyRegistered && !assoc_has(old(self)@, backup_name@)
                    && has_directory(old(self)@, path@))),
            },
    {
        if self.find_name(backup_name).is_some() {
            return Err(Error::NameAlreadyRegistered);
        }
        if self.has_dir(path) {
            return Err(Error::DirectoryAlreadyRegistered);
        }
        let ghost pre = self@;
        self.backups.push((backup_name.to_owned(), path.to_owned()));
        proof {
            assert(self@ =~= pre.push((backup_name@, path@)));
            lemma_unique_after_push(pre, (backup_name@, path@));
            assert forall|i: int, j: int|
                0 <= i < j < self@.len() implies self@[i].1 != self@[j].1 by {
                if j == pre.len() {
                    assert(self@[i] == pre[i]);
                }
            }
        }
        Ok(())
    }

    /// The directory registered for `backup_name`. Fails with `NotFound`
    /// when no backup of that name is registered.
    pub fn get_backup_path(&self, backup_name: &str) -> (r: Result<String, Error>)
        ensures
            match r {
                Ok(p) => exists|i: int| 0 <= i < self@.len() && self@[i] == (backup_name@, p@),
                Err(e) => e == Error::BackupNotFound && !assoc_has(self@, backup_name@),
            },
    {
        match self.find_name(backup_name) {
            Some(i) => Ok(self.backups[i].1.clone()),
            None => Err(Error::BackupNotFound),
        }
    }

    /// Unregisters `backup_name`, preserving the order of the remaining
    /// entries. Refused with `Conflict` while the backup's ledger still has
    /// entries; fails with `NotFound` when the name is not registered. The
    /// backup directory itself is never touched.
    pub fn deinit_backup(&mut self, backup_name: &str, ledger: Option<&Paths>) -> (r: Result<
        (),
        Error,
    >)
        requires
            old(self).wf(),
        ensures
            final(self).wf(),
            match r {
                Ok(u) => {
                    &&& (match ledger {
                        Some(l) => l@.len() == 0,
                        None => true,
                    })
                    &&& assoc_has(old(self)@, backup_name@)
                    &&& final(self)@ =~= old(self)@.remove(
                        assoc_index(old(self)@, backup_name@),
                    )
                    &&& !assoc_has(final(self)@, backup_name@)
                },
                Err(e) => final(self)@ =~= old(self)@ && ((e == Error::DeinitBlocked
                    && (match ledger {
                    Some(l) => l@.len() > 0,
                    None => false,
                })) || (e == Error::BackupNotFound && (match ledger {
                    Some(l) => l@.len() == 0,
                    None => true,
                }) && !assoc_has(old(self)@, backup_name@))),
            },
    {
        match ledger {
            Some(l) => {
                if l.len() > 0 {
                    return Err(Error::DeinitBlocked);
                }
            },
            None => {},
        }
        match self.find_name(backup_name) {
            Some(i) => {
                let ghost pre = self@;
                proof {
                    lemma_assoc_index_unique(pre, backup_name@, i as int);
                }
                self.backups.remove(i);
                proof {
                    assert(self@ =~= pre.remove(i as int));
                    lemma_unique_after_remove(pre, i as int);
                    assert forall|p: int, q: int|
                        0 <= p < q < self@.len() implies self@[p].1 != self@[q].1 by {
                        let p0 = if p < i as int {
                            p
                        } else {
                            p + 1
                        };
                        let q0 = if q < i as int {
                            q
                        } else {
                            q + 1
                        };
                        assert(self@[p] == pre[p0] && self@[q] == pre[q0]);
                    }
                }
                Ok(())
            },
            None => Err(Error::BackupNotFound),
        }
    }

    /// The names of all backups, in insertion order. Fails with `NotFound`
    /// when the registry is empty.
    pub fn get_backups(&self) -> (r: Result<Vec<String>, Error>)
        ensures
            match r {
                Ok(names) => self@.len() > 0 && names.deep_view() =~= assoc_keys(self@),
                Err(e) => e == Error::NoBackups && self@.len() == 0,
            },
    {
        let n = self.backups.len();
        if n == 0 {
            return Err(Error::NoBackups);
        }
        let mut out: Vec<String> = Vec::new();
        let mut i: usize = 0;
        while i < n
            invariant
                n == self@.len(),
                n == self.backups@.len(),
                i <= n,
                out.deep_view().len() == i,
                forall|j: int| 0 <= j < i ==> out.deep_view()[j] == self@[j].0,
            decreases n - i,
        {
            let ghost pre = out.deep_view();
            out.push(self.backups[i].0.clone());
            proof {
                assert(out.deep_view() =~= pre.push(self@[i as int].0));
            }
            i = i + 1;
        }
        proof {
            assert(out.deep_view() =~= assoc_keys(self@));
        }
        Ok(out)
    }

    /// All (name, directory) rows, in insertion order. Fails with `NotFound`
    /// when the registry is empty.
    pub fn list_backups(&self) -> (r: Result<Vec<(String, String)>, Error>)
        ensures
            match r {
                Ok(rows) => self@.len() > 0 && rows.deep_view() =~= self@,
                Err(e) => e == Error::NoBackups && self@.len() == 0,
            },
    {
        let n = self.backups.len();
        if n == 0 {
            return Err(Error::NoBackups);
        }
        let mut out: Vec<(String, String)> = Vec::new();
        let mut i: usize = 0;
        while i < n
            invariant
                n == self@.len(),
                n == self.backups@.len(),
                i <= n,
                out.deep_view().len() == i,
                forall|j: int| 0 <= j < i ==> out.deep_view()[j] == self@[j],
            decreases n - i,
        {
            let ghost pre = out.deep_view();
            let row = (self.backups[i].0.clone(), self.backups[i].1.clone());
            out.push(row);
            proof {
                assert(out.deep_view() =~= pre.push(self@[i as int]));
            }
            i = i + 1;
        }
        proof {
            assert(out.deep_view() =~= self@);
        }
        Ok(out)
    }

    /// Rebuilds a registry from persisted pairs. Fails with `CorruptConfig`
    /// when two pairs share a name or share a directory.
    pub fn from_pairs(pairs: Vec<(String, String)>) -> (r: Result<Config, Error>)
        ensures
            match r {
                Ok(c) => c.wf() && c@ =~= pairs.deep_view(),
                Err(e) => e == Error::CorruptConfig && !(keys_unique(pairs.deep_view())
                    && values_unique(pairs.deep_view())),
            },
    {
        let n = pairs.len();
        let mut out = Config::new();
        let mut i: usize = 0;
        while i < n
            invariant
                n == pairs@.len(),
                i <= n,
                out.wf(),
                out@ =~= pairs.deep_view().take(i as int),
            decreases n - i,
        {
            let ghost pre = out@;
            let name = pairs[i].0.as_str();
            let dir = pairs[i].1.as_str();
            match out.update_config(name, dir) {
                Ok(u) => {},
                Err(e) => {
                    proof {
                        let full = pairs.deep_view();
                        assert(full[i as int] == (name@, dir@));
                        if assoc_has(pre, name@) {
                            let w = assoc_index(pre, name@);
                            assert(full.take(i as int)[w] == full[w]);
                            assert(!keys_unique(full));
                        } else {
                            let w = choose|w: int| 0 <= w < pre.len() && pre[w].1 == dir@;
                            assert(full.take(i as int)[w] == full[w]);
                            assert(!values_unique(full));
                        }
                    }
                    return Err(Error::CorruptConfig);
                },
            }
            proof {
                assert(out@ =~= pairs.deep_view().take((i + 1) as int));
            }
            i = i + 1;
        }
        proof {
            assert(pairs.deep_view().take(n as int) =~= pairs.deep_view());
        }
        Ok(out)
    }

    /// The entries as plain pairs, in insertion order (for persistence).
    pub fn to_pairs(&self) -> (r: Vec<(String, String)>)
        ensures
            r.deep_view() =~= self@,
    {
        let n = self.backups.len();
        let mut out: Vec<(String, String)> = Vec::new();
        let mut i: usize = 0;
        while i < n
            invariant
                n == self@.len(),
                n == self.backups@.len(),
                i <= n,
                out.deep_view().len() == i,
                forall|j: int| 0 <= j < i ==> out.deep_view()[j] == self@[j],
            decreases n - i,
        {
            let ghost pre = out.deep_view();
            let row = (self.backups[i].0.clone(), self.backups[i].1.clone());
            out.push(row);
            proof {
                assert(out.deep_view() =~= pre.push(self@[i as int]));
            }
            i = i + 1;
        }
        proof {
            assert(out.deep_view() =~= self@);
        }
        out
    }
}

/// Law: registering a fresh name and then resolving it yields exactly the
/// registered directory, and after unregistering it again no entry with that
/// name remains, so resolution must fail.
pub proof fn lemma_register_resolve_unregister(s: Seq<Entry>, name: Seq<char>, dir: Seq<char>)
    requires
        keys_unique(s),
        !assoc_has(s, name),
    ensures
        assoc_has(s.push((name, dir)), name),
        forall|i: int|
            0 <= i < s.push((name, dir)).len() && s.push((name, dir))[i].0 == name ==> s.push(
                (name, dir),
            )[i].1 == dir,
        !assoc_has(s.push((name, dir)).remove(assoc_index(s.push((name, dir)), name)), name),
{
    let t = s.push((name, dir));
    assert(t[s.len() as int].0 == name);
    lemma_unique_after_push(s, (name, dir));
    assert forall|i: int| 0 <= i < t.len() && t[i].0 == name implies t[i].1 == dir by {
        lemma_assoc_index_unique(t, name, i);
        lemma_assoc_index_unique(t, name, s.len() as int);
    }
    lemma_assoc_index_unique(t, name, s.len() as int);
    lemma_unique_after_remove(t, s.len() as int);
}

} // verus!
